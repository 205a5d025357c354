//! The connection to the backend over a socket, and what the frames that
//! arrive on it lead to.

use crate::proto::api::{
    AccountView, ErrorResponseType, LoginResponse, RegisterResponse, RequestFrame,
    RequestFrameView, Response, ResponseFrame, ResponseFrameView, ResponseView,
    SearchGiphyResponse, SearchResponseView, etype_number,
};
use vstd::prelude::*;

verus! {

/// The subset of the app's data model related to networking.
#[derive(Clone, Copy, Debug, PartialEq, Eq, Structural)]
pub struct NetworkState {
    /// Whether the socket is open.
    pub connected: bool,
    /// Whether there is a socket. A socket does not indicate a live
    /// connection.
    pub has_socket: bool,
}

impl Default for NetworkState {
    fn default() -> (state: Self)
        ensures
            state == (NetworkState { connected: false, has_socket: false }),
    {
        NetworkState { connected: false, has_socket: false }
    }
}

/// All network related events to be handled.
#[derive(Debug)]
pub enum NetworkEvent {
    /// The socket has opened.
    Connected,
    /// The socket has closed or failed.
    Disconnected,
    /// A socket was made.
    NewSocket,
    /// A handler was attached to the socket.
    NewClosure,
    /// A request is to be sent.
    SendRequest(RequestFrame),
    /// A frame has arrived.
    Received(ResponseFrame),
}

/// What a [`NetworkEvent`] holds.
pub enum NetworkEventView {
    Connected,
    Disconnected,
    NewSocket,
    NewClosure,
    SendRequest(RequestFrameView),
    Received(ResponseFrameView),
}

impl View for NetworkEvent {
    type V = NetworkEventView;

    open spec fn view(&self) -> NetworkEventView {
        match self {
            NetworkEvent::Connected => NetworkEventView::Connected,
            NetworkEvent::Disconnected => NetworkEventView::Disconnected,
            NetworkEvent::NewSocket => NetworkEventView::NewSocket,
            NetworkEvent::NewClosure => NetworkEventView::NewClosure,
            NetworkEvent::SendRequest(frame) => NetworkEventView::SendRequest(frame@),
            NetworkEvent::Received(frame) => NetworkEventView::Received(frame@),
        }
    }
}

/// What the runtime does after a network event.
#[derive(Debug)]
pub enum NetworkUpdate {
    /// Render.
    Render,
    /// Nothing.
    Skip,
    /// Write the frame to the socket.
    Send(RequestFrame),
    /// The session is over: log out.
    Logout,
    /// Hand the response to the login form.
    Login(LoginResponse),
    /// Hand the response to the registration form.
    Register(RegisterResponse),
    /// Hand the response to the search page.
    SearchGiphy(SearchGiphyResponse),
}

/// What a [`NetworkUpdate`] holds.
pub enum NetworkUpdateView {
    Render,
    Skip,
    Send(RequestFrameView),
    Logout,
    Login(AccountView),
    Register(AccountView),
    SearchGiphy(SearchResponseView),
}

impl View for NetworkUpdate {
    type V = NetworkUpdateView;

    open spec fn view(&self) -> NetworkUpdateView {
        match self {
            NetworkUpdate::Render => NetworkUpdateView::Render,
            NetworkUpdate::Skip => NetworkUpdateView::Skip,
            NetworkUpdate::Send(frame) => NetworkUpdateView::Send(frame@),
            NetworkUpdate::Logout => NetworkUpdateView::Logout,
            NetworkUpdate::Login(res) => NetworkUpdateView::Login(res@),
            NetworkUpdate::Register(res) => NetworkUpdateView::Register(res@),
            NetworkUpdate::SearchGiphy(res) => NetworkUpdateView::SearchGiphy(res@),
        }
    }
}

/// What a received frame leads to: a failed authentication logs the user
/// out, any other error and a frame without a response are dropped, and a
/// response goes to the container that asked for it.
pub open spec fn delivery(frame: ResponseFrameView) -> NetworkUpdateView {
    match frame.response {
        Some(ResponseView::Error(err)) => if err.etype == etype_number(
            ErrorResponseType::EtypeAuthn,
        ) {
            NetworkUpdateView::Logout
        } else {
            NetworkUpdateView::Skip
        },
        Some(ResponseView::Login(res)) => NetworkUpdateView::Login(res),
        Some(ResponseView::Register(res)) => NetworkUpdateView::Register(res),
        Some(ResponseView::SearchGiphy(res)) => NetworkUpdateView::SearchGiphy(res),
        None => NetworkUpdateView::Skip,
    }
}

/// The state after a network event.
pub open spec fn network_state(event: NetworkEventView, state: NetworkState) -> NetworkState {
    match event {
        NetworkEventView::Connected => NetworkState { connected: true, ..state },
        NetworkEventView::Disconnected => NetworkState { connected: false, has_socket: false },
        NetworkEventView::NewSocket => NetworkState { has_socket: true, ..state },
        _ => state,
    }
}

/// What the runtime does after a network event. A request is sent only
/// where there is a socket.
pub open spec fn network_update(event: NetworkEventView, state: NetworkState) -> NetworkUpdateView {
    match event {
        NetworkEventView::Connected => NetworkUpdateView::Render,
        NetworkEventView::Disconnected => NetworkUpdateView::Render,
        NetworkEventView::NewSocket => NetworkUpdateView::Render,
        NetworkEventView::NewClosure => NetworkUpdateView::Skip,
        NetworkEventView::SendRequest(frame) => if state.has_socket {
            NetworkUpdateView::Send(frame)
        } else {
            NetworkUpdateView::Skip
        },
        NetworkEventView::Received(frame) => delivery(frame),
    }
}

impl NetworkEvent {
    /// The reducer for this state model.
    pub fn reducer(event: NetworkEvent, state: &mut NetworkState) -> (update: NetworkUpdate)
        ensures
            *final(state) == network_state(event@, *old(state)),
            update@ == network_update(event@, *old(state)),
    {
        match event {
            NetworkEvent::Connected => {
                state.connected = true;
                NetworkUpdate::Render
            },
            NetworkEvent::Disconnected => {
                state.connected = false;
                state.has_socket = false;
                NetworkUpdate::Render
            },
            NetworkEvent::NewSocket => {
                state.has_socket = true;
                NetworkUpdate::Render
            },
            NetworkEvent::NewClosure => NetworkUpdate::Skip,
            NetworkEvent::SendRequest(req) => {
                if state.has_socket {
                    NetworkUpdate::Send(req)
                } else {
                    NetworkUpdate::Skip
                }
            },
            NetworkEvent::Received(frame) => match frame.response {
                Some(Response::Error(err)) => match ErrorResponseType::from_i32(err.etype) {
                    Some(ErrorResponseType::EtypeAuthn) => NetworkUpdate::Logout,
                    Some(ErrorResponseType::EtypeIse) => NetworkUpdate::Skip,
                    Some(ErrorResponseType::EtypeInvalid) => NetworkUpdate::Skip,
                    None => NetworkUpdate::Skip,
                },
                Some(Response::Login(res)) => NetworkUpdate::Login(res),
                Some(Response::Register(res)) => NetworkUpdate::Register(res),
                Some(Response::SearchGiphy(res)) => NetworkUpdate::SearchGiphy(res),
                None => NetworkUpdate::Skip,
            },
        }
    }
}

} // verus!
