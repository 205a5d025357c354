use giphy_app::client::api::Command;
use giphy_app::client::containers::login::{
    login, LoginContainerEvent, EMAIL_ERR, NBSP, PASSWD_ERR,
};
use giphy_app::client::router::Route;
use giphy_app::client::state::{update, Model, ModelEvent, Orders};
use giphy_app::common::{Error, LoginRequest, LoginResponse, RegisterRequest, RegisterResponse, User};

fn send(model: &mut Model, event: LoginContainerEvent) -> Orders {
    let mut orders = Orders::new();
    update(ModelEvent::Login(event), model, &mut orders);
    orders
}

fn user() -> User {
    User { id: 7, email: "a@b.com".to_string(), jwt: "token-7".to_string() }
}

fn filled() -> Model {
    let mut model = Model::default();
    send(&mut model, LoginContainerEvent::UpdateEmailField("a@b.com".to_string()));
    send(&mut model, LoginContainerEvent::UpdatePWField("secret1".to_string()));
    model
}

#[test]
fn email_field_is_validated_on_every_update() {
    let mut model = Model::default();
    let orders = send(&mut model, LoginContainerEvent::UpdateEmailField("not-an-email".to_string()));
    assert_eq!(model.login.email_error, Some(EMAIL_ERR));
    assert_eq!(model.login.email, "not-an-email");
    assert!(orders.cmds.is_empty());
    assert!(orders.msgs.is_empty());
    assert!(orders.should_render);
    send(&mut model, LoginContainerEvent::UpdateEmailField("a@b.com".to_string()));
    assert_eq!(model.login.email_error, None);
    assert_eq!(model.login.email, "a@b.com");
}

#[test]
fn empty_email_field_shows_no_error() {
    let mut model = Model::default();
    send(&mut model, LoginContainerEvent::UpdateEmailField("x".to_string()));
    assert_eq!(model.login.email_error, Some(EMAIL_ERR));
    send(&mut model, LoginContainerEvent::UpdateEmailField(String::new()));
    assert_eq!(model.login.email_error, None);
    assert_eq!(model.login.email, "");
}

#[test]
fn password_needs_six_bytes() {
    let mut model = Model::default();
    send(&mut model, LoginContainerEvent::UpdatePWField("12345".to_string()));
    assert_eq!(model.login.pw_error, Some(PASSWD_ERR));
    assert_eq!(model.login.pw, "12345");
    send(&mut model, LoginContainerEvent::UpdatePWField("123456".to_string()));
    assert_eq!(model.login.pw_error, None);
    send(&mut model, LoginContainerEvent::UpdatePWField(String::new()));
    assert_eq!(model.login.pw_error, Some(PASSWD_ERR));
    // three letters of two bytes each
    send(&mut model, LoginContainerEvent::UpdatePWField("\u{e9}\u{e9}\u{e9}".to_string()));
    assert_eq!(model.login.pw_error, None);
}

#[test]
fn a_field_update_keeps_the_error_of_the_other_field() {
    let mut model = Model::default();
    send(&mut model, LoginContainerEvent::UpdatePWField("abc".to_string()));
    send(&mut model, LoginContainerEvent::UpdateEmailField("a@b.com".to_string()));
    assert_eq!(model.login.pw_error, Some(PASSWD_ERR));
    assert_eq!(model.login.email_error, None);
}

#[test]
fn login_issues_the_command_with_the_credentials() {
    let mut model = filled();
    let orders = send(&mut model, LoginContainerEvent::Login);
    assert!(model.login.has_network_request);
    assert!(model.login.network_error.is_none());
    assert_eq!(orders.cmds.len(), 1);
    match &orders.cmds[0] {
        Command::Login(req) => assert_eq!(
            req,
            &LoginRequest { email: "a@b.com".to_string(), password: "secret1".to_string() }
        ),
        other => panic!("unexpected command {:?}", other),
    }
    assert_eq!(orders.cmds[0].path(), Some("/login"));
    assert_eq!(orders.cmds[0].authorization(), None);
    assert!(orders.msgs.is_empty());
}

#[test]
fn register_issues_the_command_with_the_credentials() {
    let mut model = filled();
    let orders = send(&mut model, LoginContainerEvent::Register);
    assert!(model.login.has_network_request);
    assert_eq!(orders.cmds.len(), 1);
    match &orders.cmds[0] {
        Command::Register(req) => assert_eq!(
            req,
            &RegisterRequest { email: "a@b.com".to_string(), password: "secret1".to_string() }
        ),
        other => panic!("unexpected command {:?}", other),
    }
    assert_eq!(orders.cmds[0].path(), Some("/register"));
}

#[test]
fn submission_is_guarded_by_the_email_error() {
    let mut model = filled();
    send(&mut model, LoginContainerEvent::UpdateEmailField("nope".to_string()));
    assert!(model.login.email_error.is_some());
    for event in [LoginContainerEvent::Login, LoginContainerEvent::Register] {
        let orders = send(&mut model, event);
        assert!(orders.cmds.is_empty());
        assert!(orders.msgs.is_empty());
        assert!(!orders.should_render);
        assert!(!model.login.has_network_request);
        assert_eq!(model.login.email, "nope");
    }
}

#[test]
fn submission_is_guarded_by_the_password_error() {
    let mut model = filled();
    send(&mut model, LoginContainerEvent::UpdatePWField("abc".to_string()));
    let orders = send(&mut model, LoginContainerEvent::Login);
    assert!(orders.cmds.is_empty());
    assert!(!model.login.has_network_request);
}

#[test]
fn submission_is_guarded_by_a_request_in_flight() {
    let mut model = filled();
    let first = send(&mut model, LoginContainerEvent::Login);
    assert_eq!(first.cmds.len(), 1);
    let second = send(&mut model, LoginContainerEvent::Login);
    assert!(second.cmds.is_empty());
    assert!(!second.should_render);
    assert!(model.login.has_network_request);
    let third = send(&mut model, LoginContainerEvent::Register);
    assert!(third.cmds.is_empty());
}

#[test]
fn login_success_stores_the_user_and_routes_to_search() {
    let mut model = filled();
    send(&mut model, LoginContainerEvent::Login);
    let orders = send(&mut model, LoginContainerEvent::LoginSuccess(LoginResponse(user())));
    assert_eq!(model.user, Some(user()));
    assert_eq!(orders.cmds.len(), 1);
    match &orders.cmds[0] {
        Command::StoreUser(stored) => assert_eq!(stored, &user()),
        other => panic!("unexpected command {:?}", other),
    }
    assert_eq!(orders.cmds[0].path(), None);
    assert_eq!(orders.msgs.len(), 1);
    assert!(matches!(orders.msgs[0], ModelEvent::Route(Route::Search)));
}

#[test]
fn register_success_stores_the_user_and_routes_to_search() {
    let mut model = filled();
    let orders =
        send(&mut model, LoginContainerEvent::RegisterSuccess(RegisterResponse(user())));
    assert_eq!(model.user, Some(user()));
    assert!(matches!(orders.cmds[0], Command::StoreUser(_)));
    assert!(matches!(orders.msgs[0], ModelEvent::Route(Route::Search)));
}

#[test]
fn login_error_is_kept_for_display() {
    let mut model = filled();
    send(&mut model, LoginContainerEvent::Login);
    let err = Error::new("Too many attempts.", 429, None);
    let orders = send(&mut model, LoginContainerEvent::LoginError(err));
    assert!(!model.login.has_network_request);
    let shown = model.login.network_error.as_ref().expect("the error is kept");
    assert_eq!(shown.description, "Too many attempts.");
    assert_eq!(shown.status, 429);
    assert!(orders.msgs.is_empty());
    assert!(orders.cmds.is_empty());
    assert_eq!(login(&model).message, "Too many attempts.");
    // typing takes the network error down
    send(&mut model, LoginContainerEvent::UpdatePWField("secret2".to_string()));
    assert!(model.login.network_error.is_none());
}

#[test]
fn register_error_is_kept_for_display() {
    let mut model = filled();
    send(&mut model, LoginContainerEvent::Register);
    let err = Error::new("That email address is already taken.", 400, None);
    send(&mut model, LoginContainerEvent::RegisterError(err));
    assert!(!model.login.has_network_request);
    assert_eq!(
        model.login.network_error.as_ref().map(|e| e.description.as_str()),
        Some("That email address is already taken.")
    );
}

#[test]
fn failure_of_a_refused_session_logs_out_in_place_of_the_error() {
    for register in [false, true] {
        let mut model = filled();
        let err = Error::new("Unauthorized. Token is expired.", 401, None);
        let event = if register {
            send(&mut model, LoginContainerEvent::Register);
            LoginContainerEvent::RegisterError(err)
        } else {
            send(&mut model, LoginContainerEvent::Login);
            LoginContainerEvent::LoginError(err)
        };
        let orders = send(&mut model, event);
        assert!(!model.login.has_network_request);
        assert!(model.login.network_error.is_none());
        assert!(orders.cmds.is_empty());
        assert_eq!(orders.msgs.len(), 1);
        assert!(matches!(orders.msgs[0], ModelEvent::Logout));
    }
}

#[test]
fn login_page_enables_the_buttons_once_both_fields_are_filled() {
    let mut model = Model::default();
    let page = login(&model);
    assert!(!page.is_submit_enabled);
    assert!(!page.is_busy);
    assert_eq!(page.message, NBSP);
    assert_eq!(page.message, "\u{a0}");
    send(&mut model, LoginContainerEvent::UpdateEmailField("a@b.com".to_string()));
    assert!(!login(&model).is_submit_enabled);
    send(&mut model, LoginContainerEvent::UpdatePWField("abc".to_string()));
    let page = login(&model);
    assert!(page.is_submit_enabled);
    assert_eq!(page.message, PASSWD_ERR);
    assert_eq!(page.email, "a@b.com");
    assert_eq!(page.pw, "abc");
    send(&mut model, LoginContainerEvent::UpdateEmailField("nope".to_string()));
    let page = login(&model);
    assert!(!page.is_submit_enabled);
    assert_eq!(page.message, EMAIL_ERR);
    send(&mut model, LoginContainerEvent::UpdateEmailField("a@b.com".to_string()));
    send(&mut model, LoginContainerEvent::UpdatePWField("abcdef".to_string()));
    send(&mut model, LoginContainerEvent::Login);
    assert!(login(&model).is_busy);
}

#[test]
fn login_pristine_empties_the_form() {
    let mut model = filled();
    send(&mut model, LoginContainerEvent::UpdateEmailField("nope".to_string()));
    send(&mut model, LoginContainerEvent::LoginError(Error::new_ise()));
    model.login.pristine();
    assert_eq!(model.login.email, "");
    assert_eq!(model.login.pw, "");
    assert_eq!(model.login.email_error, None);
    assert_eq!(model.login.pw_error, None);
    assert!(model.login.network_error.is_none());
    assert!(!model.login.has_network_request);
}
