use giphy_app::collections::text_map::TextMap;
use giphy_app::proto::api::{
    ErrorDomain, ErrorResponse, ErrorResponseType, GiphyGif, LoginRequest, RefreshTokenRequest,
    RefreshTokenResponse, RegisterRequest, Request, RequestFrame, Response, ResponseFrame,
    SearchGiphyRequest,
};
use giphy_app::proto::api_ext::Error;
use giphy_app::client::net::{NetworkEvent, NetworkState, NetworkUpdate};

fn gif(id: &str) -> GiphyGif {
    GiphyGif {
        id: id.to_string(),
        title: "t".to_string(),
        url: "u".to_string(),
        is_favorite: false,
    }
}

#[test]
fn error_domain_new_takes_the_fields() {
    let mut fields = TextMap::new();
    fields.insert("email".to_string(), "taken".to_string());
    let err = ErrorDomain::new("Invalid input.", Some(fields));
    assert_eq!(err.description, "Invalid input.");
    assert_eq!(err.fields.get("email"), Some(&"taken".to_string()));
    let err = ErrorDomain::new("No fields.", None);
    assert_eq!(err.description, "No fields.");
    assert!(err.fields.is_empty());
}

#[test]
fn error_responses_carry_their_type() {
    assert_eq!(
        ErrorResponse::new_ise(),
        ErrorResponse { description: "Internal server error.".to_string(), etype: 0 }
    );
    assert_eq!(
        ErrorResponse::new_authn(),
        ErrorResponse {
            description: "Authentication failed. Invalid credentials provided.".to_string(),
            etype: 1
        }
    );
    assert_eq!(
        ErrorResponse::new_invalid(),
        ErrorResponse { description: "Invalid or malformed frame received.".to_string(), etype: 2 }
    );
}

#[test]
fn error_response_types_have_their_numbers() {
    assert_eq!(ErrorResponseType::EtypeIse.number(), 0);
    assert_eq!(ErrorResponseType::EtypeAuthn.number(), 1);
    assert_eq!(ErrorResponseType::EtypeInvalid.number(), 2);
    assert_eq!(ErrorResponseType::from_i32(0), Some(ErrorResponseType::EtypeIse));
    assert_eq!(ErrorResponseType::from_i32(1), Some(ErrorResponseType::EtypeAuthn));
    assert_eq!(ErrorResponseType::from_i32(2), Some(ErrorResponseType::EtypeInvalid));
    assert_eq!(ErrorResponseType::from_i32(3), None);
    assert_eq!(ErrorResponseType::from_i32(-1), None);
}

#[test]
fn response_frame_error_answers_a_request_or_none() {
    let frame = ResponseFrame::error(Some("req-1"), ErrorResponse::new_authn());
    assert_eq!(frame.id, "req-1");
    assert!(matches!(frame.response, Some(Response::Error(ref e)) if e.etype == 1));
    let frame = ResponseFrame::error(None, ErrorResponse::new_invalid());
    assert_eq!(frame.id, "");
    assert!(matches!(frame.response, Some(Response::Error(ref e)) if e.etype == 2));
}

#[test]
fn response_frame_register_and_login_carry_the_account() {
    let frame = ResponseFrame::register(
        "r1".to_string(),
        "user-1".to_string(),
        "a@b.com".to_string(),
        "jwt".to_string(),
    );
    assert_eq!(frame.id, "r1");
    match frame.response {
        Some(Response::Register(res)) => {
            assert!(res.error.is_none());
            assert_eq!((res.id.as_str(), res.email.as_str(), res.jwt.as_str()), ("user-1", "a@b.com", "jwt"));
        }
        other => panic!("unexpected response {:?}", other),
    }
    let frame = ResponseFrame::login(
        "r2".to_string(),
        "user-2".to_string(),
        "c@d.com".to_string(),
        "jwt2".to_string(),
    );
    assert_eq!(frame.id, "r2");
    match frame.response {
        Some(Response::Login(res)) => {
            assert!(res.error.is_none());
            assert_eq!((res.id.as_str(), res.email.as_str(), res.jwt.as_str()), ("user-2", "c@d.com", "jwt2"));
        }
        other => panic!("unexpected response {:?}", other),
    }
}

#[test]
fn response_frame_errors_carry_only_the_error() {
    let frame = ResponseFrame::register_err("r1".to_string(), ErrorDomain::new("taken", None));
    assert_eq!(frame.id, "r1");
    match frame.response {
        Some(Response::Register(res)) => {
            assert_eq!(res.error.map(|e| e.description), Some("taken".to_string()));
            assert_eq!((res.id.as_str(), res.email.as_str(), res.jwt.as_str()), ("", "", ""));
        }
        other => panic!("unexpected response {:?}", other),
    }
    let frame = ResponseFrame::login_err("r2".to_string(), ErrorDomain::new("wrong", None));
    match frame.response {
        Some(Response::Login(res)) => {
            assert_eq!(res.error.map(|e| e.description), Some("wrong".to_string()));
            assert_eq!((res.id.as_str(), res.email.as_str(), res.jwt.as_str()), ("", "", ""));
        }
        other => panic!("unexpected response {:?}", other),
    }
    let frame = ResponseFrame::search_giphy_err("r3".to_string(), ErrorDomain::new("bad", None));
    assert_eq!(frame.id, "r3");
    match frame.response {
        Some(Response::SearchGiphy(res)) => {
            assert_eq!(res.error.map(|e| e.description), Some("bad".to_string()));
            assert!(res.gifs.is_empty());
        }
        other => panic!("unexpected response {:?}", other),
    }
}

#[test]
fn response_frame_search_carries_the_gifs() {
    let frame = ResponseFrame::search_giphy("r1".to_string(), vec![gif("a"), gif("b")]);
    assert_eq!(frame.id, "r1");
    match frame.response {
        Some(Response::SearchGiphy(res)) => {
            assert!(res.error.is_none());
            assert_eq!(res.gifs, vec![gif("a"), gif("b")]);
        }
        other => panic!("unexpected response {:?}", other),
    }
}

fn is_simple_id(id: &str) -> bool {
    id.len() == 32 && id.chars().all(|c| c.is_ascii_hexdigit() && !c.is_ascii_uppercase())
}

#[test]
fn request_frames_get_fresh_identifiers() {
    let first = RequestFrame::register("a@b.com".to_string(), "secret".to_string());
    let second = RequestFrame::login("a@b.com".to_string(), "secret".to_string());
    let third = RequestFrame::search_giphy("cats".to_string(), "jwt".to_string());
    assert!(is_simple_id(&first.id));
    assert!(is_simple_id(&second.id));
    assert!(is_simple_id(&third.id));
    assert_ne!(first.id, second.id);
    assert_ne!(second.id, third.id);
    assert_eq!(
        first.request,
        Some(Request::Register(RegisterRequest {
            email: "a@b.com".to_string(),
            password: "secret".to_string()
        }))
    );
    assert_eq!(
        second.request,
        Some(Request::Login(LoginRequest {
            email: "a@b.com".to_string(),
            password: "secret".to_string()
        }))
    );
    assert_eq!(
        third.request,
        Some(Request::SearchGiphy(SearchGiphyRequest {
            jwt: "jwt".to_string(),
            query: "cats".to_string()
        }))
    );
}

#[test]
fn errors_are_of_the_system_or_of_the_domain() {
    let system = Error::ErrSystem(ErrorResponse::new_ise());
    let domain = Error::ErrDomain(ErrorDomain::new("bad", None));
    assert!(matches!(system, Error::ErrSystem(ref e) if e.etype == 0));
    assert!(matches!(domain, Error::ErrDomain(ref e) if e.description == "bad"));
}

fn after(event: NetworkEvent, state: NetworkState) -> (NetworkState, NetworkUpdate) {
    let mut state = state;
    let update = NetworkEvent::reducer(event, &mut state);
    (state, update)
}

#[test]
fn network_events_track_the_connection() {
    let idle = NetworkState::default();
    assert_eq!(idle, NetworkState { connected: false, has_socket: false });
    let (state, update) = after(NetworkEvent::NewSocket, idle);
    assert_eq!(state, NetworkState { connected: false, has_socket: true });
    assert!(matches!(update, NetworkUpdate::Render));
    let (state, update) = after(NetworkEvent::Connected, state);
    assert_eq!(state, NetworkState { connected: true, has_socket: true });
    assert!(matches!(update, NetworkUpdate::Render));
    let (same, update) = after(NetworkEvent::NewClosure, state);
    assert_eq!(same, state);
    assert!(matches!(update, NetworkUpdate::Skip));
    let (state, update) = after(NetworkEvent::Disconnected, state);
    assert_eq!(state, idle);
    assert!(matches!(update, NetworkUpdate::Render));
}

#[test]
fn requests_are_sent_over_a_socket_only() {
    let frame = || RequestFrame { id: "r1".to_string(), request: None };
    let (state, update) = after(NetworkEvent::SendRequest(frame()), NetworkState::default());
    assert_eq!(state, NetworkState::default());
    assert!(matches!(update, NetworkUpdate::Skip));
    let open = NetworkState { connected: false, has_socket: true };
    let (state, update) = after(NetworkEvent::SendRequest(frame()), open);
    assert_eq!(state, open);
    assert!(matches!(update, NetworkUpdate::Send(ref sent) if sent == &frame()));
}

fn received(frame: ResponseFrame) -> NetworkUpdate {
    let open = NetworkState { connected: true, has_socket: true };
    let (state, update) = after(NetworkEvent::Received(frame), open);
    assert_eq!(state, open);
    update
}

#[test]
fn received_frames_are_routed() {
    let authn = ResponseFrame::error(Some("r"), ErrorResponse::new_authn());
    assert!(matches!(received(authn), NetworkUpdate::Logout));
    let ise = ResponseFrame::error(Some("r"), ErrorResponse::new_ise());
    assert!(matches!(received(ise), NetworkUpdate::Skip));
    let invalid = ResponseFrame::error(None, ErrorResponse::new_invalid());
    assert!(matches!(received(invalid), NetworkUpdate::Skip));
    let unknown =
        ResponseFrame::error(None, ErrorResponse { description: "?".to_string(), etype: 7 });
    assert!(matches!(received(unknown), NetworkUpdate::Skip));
    let login =
        ResponseFrame::login("r".to_string(), "u".to_string(), "e".to_string(), "j".to_string());
    assert!(matches!(received(login), NetworkUpdate::Login(ref res) if res.jwt == "j"));
    let register =
        ResponseFrame::register("r".to_string(), "u".to_string(), "e".to_string(), "j".to_string());
    assert!(matches!(received(register), NetworkUpdate::Register(ref res) if res.id == "u"));
    let search = ResponseFrame::search_giphy("r".to_string(), vec![gif("a")]);
    assert!(matches!(received(search), NetworkUpdate::SearchGiphy(ref res) if res.gifs.len() == 1));
    let empty = ResponseFrame { id: "r".to_string(), response: None };
    assert!(matches!(received(empty), NetworkUpdate::Skip));
}

#[test]
fn refresh_token_messages_carry_the_token() {
    let req = RefreshTokenRequest { jwt: "old".to_string() };
    assert_eq!(req, RefreshTokenRequest { jwt: "old".to_string() });
    let res = RefreshTokenResponse { error: None, jwt: "new".to_string() };
    assert!(res.error.is_none());
    assert_eq!(res.jwt, "new");
    let mut meta = TextMap::new();
    meta.insert("token".to_string(), "expired".to_string());
    let failed = RefreshTokenResponse {
        error: Some(giphy_app::proto::api::Error {
            description: "Unauthorized.".to_string(),
            status: 401,
            code: "token_expired".to_string(),
            meta,
        }),
        jwt: String::new(),
    };
    let err = failed.error.expect("the error is carried");
    assert_eq!((err.description.as_str(), err.status, err.code.as_str()), ("Unauthorized.", 401, "token_expired"));
    assert_eq!(err.meta.get("token"), Some(&"expired".to_string()));
}
