//! The login and registration form.

use crate::client::api::{Command, CommandView};
use crate::client::router::Route;
use crate::client::state::{Model, ModelEvent, ModelEventView, ModelView, Orders, OrdersView, Outcome};
use crate::client::utils::{handle_common_errors, is_unauthorized};
use crate::common::error::{Error, ErrorView};
use crate::common::messages::{
    CredentialsView, LoginRequest, LoginResponse, RegisterRequest, RegisterResponse,
};
use crate::common::records::{User, UserView};
use crate::text::{byte_len, len_in_bytes};
use crate::validation::{email_is_valid, validate_email};
use vstd::prelude::*;

verus! {

/// The message shown under an email field that holds no email address.
pub const EMAIL_ERR: &'static str = "Must provide a valid email address.";

/// The message shown under a password field that holds too short a password.
pub const PASSWD_ERR: &'static str = "Password must be at least 6 characters in length.";

/// What stands in the place of a message when there is none to show: a
/// space that never breaks.
pub const NBSP: &'static str = "\u{a0}";

/// The least number of bytes of a password.
pub const MIN_PASSWORD_LEN: usize = 6;

/// The state of the login container.
#[derive(Debug)]
pub struct LoginContainer {
    pub email: String,
    pub email_error: Option<&'static str>,
    pub pw: String,
    pub pw_error: Option<&'static str>,
    pub network_error: Option<Error>,
    pub has_network_request: bool,
}

/// What a [`LoginContainer`] holds.
pub struct LoginContainerView {
    pub email: Seq<char>,
    pub email_error: Option<Seq<char>>,
    pub pw: Seq<char>,
    pub pw_error: Option<Seq<char>>,
    pub network_error: Option<ErrorView>,
    pub has_network_request: bool,
}

impl View for LoginContainer {
    type V = LoginContainerView;

    open spec fn view(&self) -> LoginContainerView {
        LoginContainerView {
            email: self.email@,
            email_error: self.email_error.deep_view(),
            pw: self.pw@,
            pw_error: self.pw_error.deep_view(),
            network_error: self.network_error.deep_view(),
            has_network_request: self.has_network_request,
        }
    }
}

/// The form before anything was typed.
pub open spec fn pristine_login() -> LoginContainerView {
    LoginContainerView {
        email: Seq::empty(),
        email_error: None,
        pw: Seq::empty(),
        pw_error: None,
        network_error: None,
        has_network_request: false,
    }
}

/// The form after `email` was typed, given whether it is an email address:
/// the field holds it, and its error is set unless the text is an email
/// address or empty. A network error on display is taken down.
pub open spec fn with_email(login: LoginContainerView, email: Seq<char>, valid: bool)
    -> LoginContainerView {
    LoginContainerView {
        email,
        email_error: if valid || email.len() == 0 {
            None
        } else {
            Some(EMAIL_ERR@)
        },
        network_error: None,
        ..login
    }
}

/// The form after `pw` was typed: the field holds it, and its error is set
/// unless the password has six bytes or more. A network error on display is
/// taken down.
pub open spec fn with_password(login: LoginContainerView, pw: Seq<char>) -> LoginContainerView {
    LoginContainerView {
        pw,
        pw_error: if byte_len(pw) >= MIN_PASSWORD_LEN {
            None
        } else {
            Some(PASSWD_ERR@)
        },
        network_error: None,
        ..login
    }
}

/// Whether the form refuses to be submitted: a field is in error, or a
/// request is already on its way.
pub open spec fn submission_blocked(login: LoginContainerView) -> bool {
    login.email_error is Some || login.pw_error is Some || login.has_network_request
}

/// The form once its request is on its way.
pub open spec fn submitted(login: LoginContainerView) -> LoginContainerView {
    LoginContainerView { has_network_request: true, network_error: None, ..login }
}

/// The form once its request has failed with `err`, which is kept for
/// display.
pub open spec fn failed(login: LoginContainerView, err: ErrorView) -> LoginContainerView {
    LoginContainerView { has_network_request: false, network_error: Some(err), ..login }
}

/// The form once its request has come back.
pub open spec fn settled(login: LoginContainerView) -> LoginContainerView {
    LoginContainerView { has_network_request: false, ..login }
}

/// The model and the orders after a submission has failed with `err`. A
/// failure with the status of a refused session sends `Logout` in place of
/// showing the error.
pub open spec fn submission_failed(err: ErrorView, model: ModelView, orders: OrdersView)
    -> Outcome {
    if is_unauthorized(err) {
        Outcome {
            model: ModelView { login: settled(model.login), ..model },
            orders: orders.send_msg(ModelEventView::Logout),
        }
    } else {
        Outcome { model: ModelView { login: failed(model.login, err), ..model }, orders }
    }
}

/// The credentials that the form holds.
pub open spec fn credentials(login: LoginContainerView) -> CredentialsView {
    CredentialsView { email: login.email, password: login.pw }
}

impl Clone for LoginContainer {
    fn clone(&self) -> (login: Self)
        ensures
            login@ == self@,
    {
        LoginContainer {
            email: self.email.clone(),
            email_error: self.email_error,
            pw: self.pw.clone(),
            pw_error: self.pw_error,
            network_error: match &self.network_error {
                Some(err) => Some(err.clone()),
                None => None,
            },
            has_network_request: self.has_network_request,
        }
    }
}

impl Default for LoginContainer {
    fn default() -> (login: Self)
        ensures
            login@ == pristine_login(),
    {
        LoginContainer {
            email: String::new(),
            email_error: None,
            pw: String::new(),
            pw_error: None,
            network_error: None,
            has_network_request: false,
        }
    }
}

impl LoginContainer {
    /// Revert this model back to a pristine state.
    pub fn pristine(&mut self)
        ensures
            final(self)@ == pristine_login(),
    {
        self.email = String::new();
        self.email_error = None;
        self.pw = String::new();
        self.pw_error = None;
        self.network_error = None;
        self.has_network_request = false;
    }

    /// Takes in what was typed into the email field, with the verdict on it.
    pub fn set_email(&mut self, email: String, is_valid: bool)
        ensures
            final(self)@ == with_email(old(self)@, email@, is_valid),
    {
        self.email_error = if is_valid || email.as_str().is_empty() {
            None
        } else {
            Some(EMAIL_ERR)
        };
        self.email = email;
        self.network_error = None;
    }

    /// Takes in what was typed into the password field.
    pub fn set_password(&mut self, pw: String)
        ensures
            final(self)@ == with_password(old(self)@, pw@),
    {
        self.pw_error = if len_in_bytes(pw.as_str()) >= MIN_PASSWORD_LEN {
            None
        } else {
            Some(PASSWD_ERR)
        };
        self.pw = pw;
        self.network_error = None;
    }

    /// Whether the form refuses to be submitted.
    pub fn is_blocked(&self) -> (blocked: bool)
        ensures
            blocked == submission_blocked(self@),
    {
        self.email_error.is_some() || self.pw_error.is_some() || self.has_network_request
    }
}

/// The set of events which may come from this container.
#[derive(Debug)]
pub enum LoginContainerEvent {
    UpdateEmailField(String),
    UpdatePWField(String),
    Login,
    LoginSuccess(LoginResponse),
    LoginError(Error),
    Register,
    RegisterSuccess(RegisterResponse),
    RegisterError(Error),
}

/// What a [`LoginContainerEvent`] holds.
pub enum LoginContainerEventView {
    UpdateEmailField(Seq<char>),
    UpdatePWField(Seq<char>),
    Login,
    LoginSuccess(UserView),
    LoginError(ErrorView),
    Register,
    RegisterSuccess(UserView),
    RegisterError(ErrorView),
}

impl View for LoginContainerEvent {
    type V = LoginContainerEventView;

    open spec fn view(&self) -> LoginContainerEventView {
        match self {
            LoginContainerEvent::UpdateEmailField(email) => LoginContainerEventView::UpdateEmailField(
                email@,
            ),
            LoginContainerEvent::UpdatePWField(pw) => LoginContainerEventView::UpdatePWField(pw@),
            LoginContainerEvent::Login => LoginContainerEventView::Login,
            LoginContainerEvent::LoginSuccess(res) => LoginContainerEventView::LoginSuccess(res@),
            LoginContainerEvent::LoginError(err) => LoginContainerEventView::LoginError(err@),
            LoginContainerEvent::Register => LoginContainerEventView::Register,
            LoginContainerEvent::RegisterSuccess(res) => LoginContainerEventView::RegisterSuccess(
                res@,
            ),
            LoginContainerEvent::RegisterError(err) => LoginContainerEventView::RegisterError(err@),
        }
    }
}

impl Clone for LoginContainerEvent {
    fn clone(&self) -> (e: Self)
        ensures
            e@ == self@,
    {
        match self {
            LoginContainerEvent::UpdateEmailField(email) => LoginContainerEvent::UpdateEmailField(
                email.clone(),
            ),
            LoginContainerEvent::UpdatePWField(pw) => LoginContainerEvent::UpdatePWField(pw.clone()),
            LoginContainerEvent::Login => LoginContainerEvent::Login,
            LoginContainerEvent::LoginSuccess(res) => LoginContainerEvent::LoginSuccess(res.clone()),
            LoginContainerEvent::LoginError(err) => LoginContainerEvent::LoginError(err.clone()),
            LoginContainerEvent::Register => LoginContainerEvent::Register,
            LoginContainerEvent::RegisterSuccess(res) => LoginContainerEvent::RegisterSuccess(
                res.clone(),
            ),
            LoginContainerEvent::RegisterError(err) => LoginContainerEvent::RegisterError(
                err.clone(),
            ),
        }
    }
}

/// The model and the orders after the credentials of `user` were accepted:
/// the user is kept in the session storage and in the model, and the
/// application goes to the search page.
pub open spec fn creds_accepted(user: UserView, model: ModelView, orders: OrdersView) -> Outcome {
    Outcome {
        model: ModelView { user: Some(user), ..model },
        orders: orders.perform_cmd(CommandView::StoreUser(user)).send_msg(
            ModelEventView::Route(Route::Search),
        ),
    }
}

/// The model and the orders after a submission, which `call` would send: a
/// blocked form stays as it is and nothing is sent.
pub open spec fn submission(call: CommandView, model: ModelView, orders: OrdersView) -> Outcome {
    if submission_blocked(model.login) {
        Outcome { model, orders: orders.skip() }
    } else {
        Outcome {
            model: ModelView { login: submitted(model.login), ..model },
            orders: orders.perform_cmd(call),
        }
    }
}

/// What an event of the login container makes of the model, and what it
/// orders.
pub open spec fn login_step(event: LoginContainerEventView, model: ModelView, orders: OrdersView)
    -> Outcome {
    match event {
        LoginContainerEventView::UpdateEmailField(email) => Outcome {
            model: ModelView {
                login: with_email(model.login, email, email_is_valid(email)),
                ..model
            },
            orders,
        },
        LoginContainerEventView::UpdatePWField(pw) => Outcome {
            model: ModelView { login: with_password(model.login, pw), ..model },
            orders,
        },
        LoginContainerEventView::Login => submission(
            CommandView::Login(credentials(model.login)),
            model,
            orders,
        ),
        LoginContainerEventView::Register => submission(
            CommandView::Register(credentials(model.login)),
            model,
            orders,
        ),
        LoginContainerEventView::LoginSuccess(user) => creds_accepted(user, model, orders),
        LoginContainerEventView::RegisterSuccess(user) => creds_accepted(user, model, orders),
        LoginContainerEventView::LoginError(err) => submission_failed(err, model, orders),
        LoginContainerEventView::RegisterError(err) => submission_failed(err, model, orders),
    }
}

impl LoginContainerEvent {
    /// The reducer for this state model.
    pub fn reducer(event: LoginContainerEvent, model: &mut Model, orders: &mut Orders)
        ensures
            final(model)@ == login_step(event@, old(model)@, old(orders)@).model,
            final(orders)@ == login_step(event@, old(model)@, old(orders)@).orders,
    {
        match event {
            LoginContainerEvent::UpdateEmailField(email) => {
                let is_valid = validate_email(email.as_str());
                model.login.set_email(email, is_valid);
            },
            LoginContainerEvent::UpdatePWField(pw) => {
                model.login.set_password(pw);
            },
            LoginContainerEvent::Login => {
                if model.login.is_blocked() {
                    orders.skip();
                    return ;
                }
                model.login.network_error = None;
                model.login.has_network_request = true;
                let payload = LoginRequest {
                    email: model.login.email.clone(),
                    password: model.login.pw.clone(),
                };
                orders.perform_cmd(Command::Login(payload));
            },
            LoginContainerEvent::Register => {
                if model.login.is_blocked() {
                    orders.skip();
                    return ;
                }
                model.login.network_error = None;
                model.login.has_network_request = true;
                let payload = RegisterRequest {
                    email: model.login.email.clone(),
                    password: model.login.pw.clone(),
                };
                orders.perform_cmd(Command::Register(payload));
            },
            LoginContainerEvent::LoginSuccess(res) => Self::handle_creds_response(
                res.0,
                model,
                orders,
            ),
            LoginContainerEvent::RegisterSuccess(res) => Self::handle_creds_response(
                res.0,
                model,
                orders,
            ),
            LoginContainerEvent::LoginError(err) => Self::handle_error(err, model, orders),
            LoginContainerEvent::RegisterError(err) => Self::handle_error(err, model, orders),
        }
    }

    fn handle_error(err: Error, model: &mut Model, orders: &mut Orders)
        ensures
            final(model)@ == submission_failed(err@, old(model)@, old(orders)@).model,
            final(orders)@ == submission_failed(err@, old(model)@, old(orders)@).orders,
    {
        model.login.has_network_request = false;
        match handle_common_errors(&err) {
            Some(event) => {
                orders.send_msg(event);
            },
            None => {
                model.login.network_error = Some(err);
            },
        }
    }

    fn handle_creds_response(user: User, model: &mut Model, orders: &mut Orders)
        ensures
            final(model)@ == creds_accepted(user@, old(model)@, old(orders)@).model,
            final(orders)@ == creds_accepted(user@, old(model)@, old(orders)@).orders,
    {
        orders.perform_cmd(Command::StoreUser(user.clone()));
        model.user = Some(user);
        orders.send_msg(ModelEvent::Route(Route::Search));
    }
}

/// What the login page shows.
#[derive(Debug, PartialEq, Eq)]
pub struct LoginPage {
    pub email: String,
    pub pw: String,
    /// Whether the buttons `Login` and `Register` can be pressed.
    pub is_submit_enabled: bool,
    /// Whether a request is on its way.
    pub is_busy: bool,
    /// The message under the form.
    pub message: String,
}

/// What a [`LoginPage`] holds.
pub struct LoginPageView {
    pub email: Seq<char>,
    pub pw: Seq<char>,
    pub is_submit_enabled: bool,
    pub is_busy: bool,
    pub message: Seq<char>,
}

impl View for LoginPage {
    type V = LoginPageView;

    open spec fn view(&self) -> LoginPageView {
        LoginPageView {
            email: self.email@,
            pw: self.pw@,
            is_submit_enabled: self.is_submit_enabled,
            is_busy: self.is_busy,
            message: self.message@,
        }
    }
}

/// The message under the form: the error of the email field, else that of
/// the password field, else that of the network, else a blank.
pub open spec fn login_message(login: LoginContainerView) -> Seq<char> {
    match login.email_error {
        Some(msg) => msg,
        None => match login.pw_error {
            Some(msg) => msg,
            None => match login.network_error {
                Some(err) => err.description,
                None => NBSP@,
            },
        },
    }
}

/// The login page of a form. The buttons can be pressed once both fields
/// hold something and the email field is not in error.
pub open spec fn login_page(login: LoginContainerView) -> LoginPageView {
    LoginPageView {
        email: login.email,
        pw: login.pw,
        is_submit_enabled: login.email.len() > 0 && login.email_error is None && login.pw.len()
            > 0,
        is_busy: login.has_network_request,
        message: login_message(login),
    }
}

/// The login view.
pub fn login(model: &Model) -> (page: LoginPage)
    ensures
        page@ == login_page(model@.login),
{
    let form = &model.login;
    let is_email_success = !form.email.as_str().is_empty() && form.email_error.is_none();
    let is_pw_success = !form.pw.as_str().is_empty();
    let message = match form.email_error {
        Some(msg) => msg.to_owned(),
        None => match form.pw_error {
            Some(msg) => msg.to_owned(),
            None => match &form.network_error {
                Some(err) => err.description.clone(),
                None => NBSP.to_owned(),
            },
        },
    };
    LoginPage {
        email: form.email.clone(),
        pw: form.pw.clone(),
        is_submit_enabled: is_email_success && is_pw_success,
        is_busy: form.has_network_request,
        message,
    }
}

} // verus!
