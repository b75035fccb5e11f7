//! Sign-in, sign-out and the guard in front of protected pages.
//!
//! Each flow is a small state machine: the web layer feeds it what arrived
//! (the callback's query, the identity provider's answers, what the session
//! holds) and performs the action it hands back.
use vstd::prelude::*;
use crate::endpoints::{
    admin_logout_url, admin_logout_url_text, admin_token_url, admin_token_url_text, auth_uri_text,
    authorization_url, authorize_url, is_base64url_char, joined_scopes, oauth_client_endpoints, origin_text,
    redirect_uri_text, token_uri_text, url_parses, KeycloakSettings,
};
use crate::user_id::{lemma_user_id_text_round_trip, parse_uuid, user_id_text, uuid_parse};

verus! {

/// The answer the dashboard sends to the browser.
#[derive(Debug, Clone, PartialEq, Eq)]
pub enum Reply {
    /// `302 Found` towards `location`.
    Redirect { location: String },
    /// `400 Bad Request` with a plain-text body.
    BadRequest { body: String },
    /// `500 Internal Server Error` with a plain-text body.
    InternalServerError { body: String },
}

/// A reply, with its texts as character sequences.
pub enum ReplyView {
    Redirect(Seq<char>),
    BadRequest(Seq<char>),
    InternalServerError(Seq<char>),
}

impl View for Reply {
    type V = ReplyView;

    open spec fn view(&self) -> ReplyView {
        match self {
            Reply::Redirect { location } => ReplyView::Redirect(location@),
            Reply::BadRequest { body } => ReplyView::BadRequest(body@),
            Reply::InternalServerError { body } => ReplyView::InternalServerError(body@),
        }
    }
}

/// The claims of a Keycloak access token that the dashboard reads.
#[derive(Debug, Clone, PartialEq, Eq)]
pub struct Claims {
    pub sub: String,
    pub exp: usize,
}

/// The user id that decoded claims name: the `sub` claim read as a UUID.
/// `None` where the token could not be decoded or `sub` is no UUID text.
pub open spec fn claims_user_id(claims: Option<Claims>) -> Option<u128> {
    match claims {
        Some(c) => uuid_parse(c.sub@),
        None => None,
    }
}

/// Reads the user id out of the claims of a decoded access token.
pub fn user_id_from_claims(claims: &Option<Claims>) -> (user_id: Option<u128>)
    ensures
        user_id == claims_user_id(*claims),
{
    match claims {
        Some(c) => parse_uuid(c.sub.as_str()),
        None => None,
    }
}

/// The parameters of a URL query string, as `actix_web::web::Query::<HashMap<String, String>>`
/// decodes them (`application/x-www-form-urlencoded`, a later duplicate key
/// replacing an earlier one); `None` where decoding fails.
pub uninterp spec fn query_params(query: Seq<char>) -> Option<Map<Seq<char>, Seq<char>>>;

/// `pairs` lists exactly the entries of `params`.
pub open spec fn lists_params(pairs: Seq<(String, String)>, params: Map<Seq<char>, Seq<char>>) -> bool {
    &&& forall|i: int| 0 <= i < pairs.len() ==> params.contains_key(#[trigger] pairs[i].0@)
        && params[pairs[i].0@] == pairs[i].1@
    &&& forall|k: Seq<char>| #[trigger] params.contains_key(k)
        ==> exists|i: int| 0 <= i < pairs.len() && pairs[i].0@ == k
}

/// Calls `actix_web::web::Query::<HashMap<String, String>>::from_query` on the
/// query string and hands back the decoded map's entries (in the map's
/// iteration order, which is not stated), or `None` on its error.
#[verifier::external_body]
fn decode_query(query: &str) -> (pairs: Option<Vec<(String, String)>>)
    ensures
        match pairs {
            Some(v) => query_params(query@) matches Some(m) && lists_params(v@, m),
            None => query_params(query@) is None,
        },
{
    match actix_web::web::Query::<std::collections::HashMap<String, String>>::from_query(query) {
        Ok(q) => Some(q.into_inner().into_iter().collect()),
        Err(_) => None,
    }
}

/// The `code` parameter of the sign-in callback's query string.
pub open spec fn callback_code(query: Seq<char>) -> Option<Seq<char>> {
    match query_params(query) {
        Some(m) => if m.contains_key("code"@) { Some(m["code"@]) } else { None },
        None => None,
    }
}

/// An optional string, by its characters.
pub open spec fn string_view_opt(s: Option<String>) -> Option<Seq<char>> {
    match s {
        Some(t) => Some(t@),
        None => None,
    }
}

/// `found` is the value of the first pair whose key is `code`, or `None`
/// where no key is `code`.
pub open spec fn first_code(pairs: Seq<(String, String)>, found: Option<String>) -> bool {
    match found {
        Some(c) => exists|i: int|
            0 <= i < pairs.len() && #[trigger] pairs[i].0@ == "code"@ && c@ == pairs[i].1@
                && forall|j: int| 0 <= j < i ==> pairs[j].0@ != "code"@,
        None => forall|i: int| 0 <= i < pairs.len() ==> #[trigger] pairs[i].0@ != "code"@,
    }
}

/// The value of the first `code` parameter among decoded query parameters.
pub fn code_from_pairs(pairs: &Vec<(String, String)>) -> (code: Option<String>)
    ensures
        first_code(pairs@, code),
{
    let key = "code".to_owned();
    let mut i: usize = 0;
    while i < pairs.len()
        invariant
            i <= pairs.len(),
            key@ == "code"@,
            forall|j: int| 0 <= j < i ==> pairs@[j].0@ != "code"@,
        decreases pairs.len() - i,
    {
        if pairs[i].0 == key {
            let code = pairs[i].1.clone();
            assert(pairs@[i as int].0@ == "code"@ && code@ == pairs@[i as int].1@);
            return Some(code);
        }
        i = i + 1;
    }
    None
}

/// The authorization code that Keycloak passed to the sign-in callback.
pub fn code_from_query(query: &str) -> (code: Option<String>)
    ensures
        string_view_opt(code) == callback_code(query@),
{
    match decode_query(query) {
        None => None,
        Some(pairs) => {
            let ghost params = query_params(query@)->0;
            let code = code_from_pairs(&pairs);
            proof {
                if code is Some {
                    let c = code->0;
                    let i = choose|i: int|
                        0 <= i < pairs@.len() && #[trigger] pairs@[i].0@ == "code"@ && c@ == pairs@[i].1@
                            && forall|j: int| 0 <= j < i ==> pairs@[j].0@ != "code"@;
                    assert(params.contains_key(pairs@[i].0@));
                } else if params.contains_key("code"@) {
                    let i = choose|i: int| 0 <= i < pairs@.len() && pairs@[i].0@ == "code"@;
                    assert(pairs@[i].0@ != "code"@);
                }
            }
            code
        },
    }
}

/// Where sign-in stands.
#[derive(Debug, PartialEq, Eq, Structural, Clone, Copy)]
pub enum LoginState {
    /// Waiting for Keycloak to call back with an authorization code.
    AwaitingCallback,
    /// The code is being exchanged for an access token.
    AwaitingToken,
    /// The browser has its answer.
    Finished,
}

/// What arrives during sign-in.
#[derive(Debug, Clone, PartialEq, Eq)]
pub enum LoginEvent {
    /// Keycloak's redirect reached `/login` with this query string.
    Callback { query: String },
    /// The token endpoint refused the code; `detail` is the error's debug text.
    TokenRejected { detail: String },
    /// The token endpoint issued an access token; `claims` is what decoding
    /// it gave (`None` where it could not be decoded).
    TokenIssued { claims: Option<Claims> },
}

/// What the web layer is to do next during sign-in.
#[derive(Debug, Clone, PartialEq, Eq)]
pub enum LoginAction {
    /// Exchange the authorization code for an access token.
    ExchangeCode { code: String },
    /// Store `user_id` in the session and redirect to `location`.
    SignIn { user_id: u128, location: String },
    /// Answer the browser.
    Respond { reply: Reply },
}

/// A sign-in action, with its texts as character sequences.
pub enum LoginActionView {
    ExchangeCode(Seq<char>),
    SignIn(u128, Seq<char>),
    Respond(ReplyView),
}

impl View for LoginAction {
    type V = LoginActionView;

    open spec fn view(&self) -> LoginActionView {
        match self {
            LoginAction::ExchangeCode { code } => LoginActionView::ExchangeCode(code@),
            LoginAction::SignIn { user_id, location } => LoginActionView::SignIn(*user_id, location@),
            LoginAction::Respond { reply } => LoginActionView::Respond(reply@),
        }
    }
}

/// Which events each sign-in state expects.
pub open spec fn login_expects(state: LoginState, event: LoginEvent) -> bool {
    match state {
        LoginState::AwaitingCallback => event is Callback,
        LoginState::AwaitingToken => event is TokenRejected || event is TokenIssued,
        LoginState::Finished => false,
    }
}

/// The next state and action of sign-in on an event it expects.
pub open spec fn login_next(event: LoginEvent) -> (LoginState, LoginActionView) {
    match event {
        LoginEvent::Callback { query } => match callback_code(query@) {
            None => (LoginState::Finished, LoginActionView::Respond(ReplyView::BadRequest("Missing code"@))),
            Some(code) => (LoginState::AwaitingToken, LoginActionView::ExchangeCode(code)),
        },
        LoginEvent::TokenRejected { detail } => (
            LoginState::Finished,
            LoginActionView::Respond(ReplyView::InternalServerError("Token error: "@ + detail@)),
        ),
        LoginEvent::TokenIssued { claims } => match claims_user_id(claims) {
            Some(id) => (LoginState::Finished, LoginActionView::SignIn(id, "/"@)),
            None => (
                LoginState::Finished,
                LoginActionView::Respond(ReplyView::InternalServerError("Failed to get user ID"@)),
            ),
        },
    }
}

/// One step of sign-in: a callback without a code is a bad request; a code
/// is exchanged for a token; a refused exchange is a server error that shows
/// the token error; an issued token signs in the user its `sub` claim names,
/// and is a server error where it names none.
pub fn login_step(state: LoginState, event: LoginEvent) -> (result: (LoginState, LoginAction))
    requires
        login_expects(state, event),
    ensures
        (result.0, result.1@) == login_next(event),
{
    match event {
        LoginEvent::Callback { query } => match code_from_query(query.as_str()) {
            None => {
                let reply = Reply::BadRequest { body: "Missing code".to_owned() };
                (LoginState::Finished, LoginAction::Respond { reply })
            },
            Some(code) => (LoginState::AwaitingToken, LoginAction::ExchangeCode { code }),
        },
        LoginEvent::TokenRejected { detail } => {
            let mut body = "Token error: ".to_owned();
            body.append(detail.as_str());
            (LoginState::Finished, LoginAction::Respond { reply: Reply::InternalServerError { body } })
        },
        LoginEvent::TokenIssued { claims } => match user_id_from_claims(&claims) {
            Some(user_id) => (
                LoginState::Finished,
                LoginAction::SignIn { user_id, location: "/".to_owned() },
            ),
            None => {
                let reply = Reply::InternalServerError { body: "Failed to get user ID".to_owned() };
                (LoginState::Finished, LoginAction::Respond { reply })
            },
        },
    }
}

/// Where sign-out stands.
#[derive(Debug, PartialEq, Eq, Structural, Clone, Copy)]
pub enum LogoutState {
    /// Nothing has been read yet.
    Start,
    /// The session was cleared; an admin token is being requested so that
    /// `user_id` can be signed out of Keycloak.
    AwaitingToken { user_id: u128 },
    /// Keycloak's admin endpoint was asked to end the user's sessions.
    AwaitingLogout,
    /// The browser has its answer.
    Finished,
}

/// What arrives during sign-out.
#[derive(Debug, Clone, PartialEq, Eq)]
pub enum LogoutEvent {
    /// What the session holds under `user_id` (`None` where nothing, or
    /// nothing that reads as a user id).
    Session { user_id: Option<u128> },
    /// The token endpoint answered with an unsuccessful status.
    TokenRejected,
    /// The token endpoint answered successfully with this access token.
    TokenIssued { access_token: String },
    /// The admin logout endpoint answered; `success` tells whether its status
    /// was a success.
    LogoutAnswered { success: bool },
}

/// What the web layer is to do next during sign-out.
#[derive(Debug, Clone, PartialEq, Eq)]
pub enum LogoutAction {
    /// Clear the session, then post the client-credentials form to `url`.
    ClearSessionAndRequestToken { url: String },
    /// Post to the admin logout endpoint `url` with `bearer` as bearer token.
    RequestLogout { url: String, bearer: String },
    /// Answer the browser.
    Respond { reply: Reply },
}

/// A sign-out action, with its texts as character sequences.
pub enum LogoutActionView {
    ClearSessionAndRequestToken(Seq<char>),
    RequestLogout(Seq<char>, Seq<char>),
    Respond(ReplyView),
}

impl View for LogoutAction {
    type V = LogoutActionView;

    open spec fn view(&self) -> LogoutActionView {
        match self {
            LogoutAction::ClearSessionAndRequestToken { url } => LogoutActionView::ClearSessionAndRequestToken(url@),
            LogoutAction::RequestLogout { url, bearer } => LogoutActionView::RequestLogout(url@, bearer@),
            LogoutAction::Respond { reply } => LogoutActionView::Respond(reply@),
        }
    }
}

/// Which events each sign-out state expects.
pub open spec fn logout_expects(state: LogoutState, event: LogoutEvent) -> bool {
    match state {
        LogoutState::Start => event is Session,
        LogoutState::AwaitingToken { .. } => event is TokenRejected || event is TokenIssued,
        LogoutState::AwaitingLogout => event is LogoutAnswered,
        LogoutState::Finished => false,
    }
}

/// The next state and action of sign-out on an event it expects.
pub open spec fn logout_next(settings: KeycloakSettings, state: LogoutState, event: LogoutEvent) -> (LogoutState, LogoutActionView) {
    match event {
        LogoutEvent::Session { user_id } => match user_id {
            None => (LogoutState::Finished, LogoutActionView::Respond(ReplyView::Redirect("/"@))),
            Some(id) => (
                LogoutState::AwaitingToken { user_id: id },
                LogoutActionView::ClearSessionAndRequestToken(admin_token_url_text(settings)),
            ),
        },
        LogoutEvent::TokenRejected => (
            LogoutState::Finished,
            LogoutActionView::Respond(ReplyView::InternalServerError("Token request error"@)),
        ),
        LogoutEvent::TokenIssued { access_token } => (
            LogoutState::AwaitingLogout,
            LogoutActionView::RequestLogout(admin_logout_url_text(settings, state->user_id), access_token@),
        ),
        LogoutEvent::LogoutAnswered { success } => if success {
            (LogoutState::Finished, LogoutActionView::Respond(ReplyView::Redirect("/"@)))
        } else {
            (LogoutState::Finished, LogoutActionView::Respond(ReplyView::InternalServerError("Admin logout error"@)))
        },
    }
}

/// One step of sign-out: without a signed-in user it only redirects home;
/// otherwise it clears the session, fetches an admin token, asks Keycloak to
/// end the user's sessions and redirects home, answering with a server
/// error where Keycloak refuses either request.
pub fn logout_step(settings: &KeycloakSettings, state: LogoutState, event: LogoutEvent) -> (result: (LogoutState, LogoutAction))
    requires
        logout_expects(state, event),
    ensures
        (result.0, result.1@) == logout_next(*settings, state, event),
{
    match event {
        LogoutEvent::Session { user_id } => match user_id {
            None => (LogoutState::Finished, LogoutAction::Respond { reply: Reply::Redirect { location: "/".to_owned() } }),
            Some(id) => (
                LogoutState::AwaitingToken { user_id: id },
                LogoutAction::ClearSessionAndRequestToken { url: admin_token_url(settings) },
            ),
        },
        LogoutEvent::TokenRejected => {
            let reply = Reply::InternalServerError { body: "Token request error".to_owned() };
            (LogoutState::Finished, LogoutAction::Respond { reply })
        },
        LogoutEvent::TokenIssued { access_token } => {
            let user_id: u128 = match state {
                LogoutState::AwaitingToken { user_id } => user_id,
                _ => 0,
            };
            (
                LogoutState::AwaitingLogout,
                LogoutAction::RequestLogout { url: admin_logout_url(settings, user_id), bearer: access_token },
            )
        },
        LogoutEvent::LogoutAnswered { success } => {
            if success {
                (LogoutState::Finished, LogoutAction::Respond { reply: Reply::Redirect { location: "/".to_owned() } })
            } else {
                let reply = Reply::InternalServerError { body: "Admin logout error".to_owned() };
                (LogoutState::Finished, LogoutAction::Respond { reply })
            }
        },
    }
}

/// Middleware that lets only signed-in users through to a page.
#[derive(Debug, Clone, Copy, Default)]
pub struct AuthRequired;

/// `AuthRequired` wrapped around the service that serves the page.
pub struct AuthRequiredMiddleWare<S> {
    pub service: S,
}

impl AuthRequired {
    /// Wraps `service` so that it is reached only by signed-in users.
    pub fn new_transform<S>(&self, service: S) -> (middleware: AuthRequiredMiddleWare<S>)
        ensures
            middleware.service == service,
    {
        AuthRequiredMiddleWare { service }
    }
}

/// The scopes that sign-in asks Keycloak for: `openid` and `profile`.
pub open spec fn is_sign_in_scopes(scopes: Seq<String>) -> bool {
    &&& scopes.len() == 2
    &&& scopes[0]@ == "openid"@
    &&& scopes[1]@ == "profile"@
}

/// The sign-in scopes as they stand in the authorization URL: `openid profile`.
pub open spec fn sign_in_scope_text() -> Seq<char> {
    "openid"@ + seq![' '] + "profile"@
}

/// The scopes that sign-in asks Keycloak for.
pub fn sign_in_scopes() -> (scopes: Vec<String>)
    ensures
        is_sign_in_scopes(scopes@),
        joined_scopes(scopes@) == sign_in_scope_text(),
{
    let mut scopes: Vec<String> = Vec::new();
    scopes.push("openid".to_owned());
    scopes.push("profile".to_owned());
    assert(scopes@.drop_last() =~= seq![scopes@[0]]);
    assert(joined_scopes(scopes@.drop_last()) == scopes@[0]@);
    assert(joined_scopes(scopes@) == joined_scopes(scopes@.drop_last()) + seq![' '] + scopes@.last()@);
    scopes
}

/// Whether Keycloak's authorization and token endpoints and the dashboard's
/// callback are addresses that the OAuth client accepts.
pub open spec fn sign_in_configured(settings: KeycloakSettings, scheme: Seq<char>, host: Seq<char>, nginx_port: u16) -> bool {
    &&& url_parses(auth_uri_text(settings))
    &&& url_parses(token_uri_text(settings))
    &&& url_parses(redirect_uri_text(scheme, host, nginx_port))
}

/// A CSRF state as the OAuth client makes it: 22 characters of the URL-safe
/// base64 alphabet.
pub open spec fn is_csrf_state(state: Seq<char>) -> bool {
    state.len() == 22 && forall|i: int| 0 <= i < 22 ==> is_base64url_char(#[trigger] state[i])
}

/// The address that sends the browser to sign in with Keycloak: the OAuth
/// client's authorization URL for the dashboard's client id, callback and
/// sign-in scopes, with the CSRF state `state`.
pub open spec fn sign_in_url(settings: KeycloakSettings, scheme: Seq<char>, host: Seq<char>, nginx_port: u16, state: Seq<char>) -> Seq<char> {
    authorization_url(
        auth_uri_text(settings),
        settings.client_id@,
        state,
        redirect_uri_text(scheme, host, nginx_port),
        sign_in_scope_text(),
    )
}

/// Where the browser is sent to sign in, with the fresh CSRF state that the
/// URL carries; `None` where the OAuth client refuses Keycloak's
/// authorization endpoint or the callback address.
pub fn sign_in_location(settings: &KeycloakSettings, scheme: &str, host: &str, nginx_port: u16) -> (request: Option<(String, String)>)
    ensures
        request is Some == sign_in_configured(*settings, scheme@, host@, nginx_port),
        request matches Some(p) ==> p.0@ == sign_in_url(*settings, scheme@, host@, nginx_port, p.1@),
        request matches Some(p) ==> is_csrf_state(p.1@),
{
    let endpoints = oauth_client_endpoints(settings, scheme, host, nginx_port);
    let scopes = sign_in_scopes();
    authorize_url(
        endpoints.auth_uri.as_str(),
        settings.client_id.as_str(),
        endpoints.token_uri.as_str(),
        endpoints.redirect_uri.as_str(),
        &scopes,
    )
}

/// Where a request for a protected page goes.
#[derive(Debug, Clone, PartialEq, Eq)]
pub enum AuthRoute {
    /// On to the wrapped service, for the signed-in `user_id`.
    Forward { user_id: u128 },
    /// To Keycloak's authorization endpoint at `location`, which carries the
    /// CSRF state `state`.
    SignInWithProvider { location: String, state: String },
    /// Nowhere: the OAuth client refuses Keycloak's authorization endpoint
    /// or the callback address.
    ProviderMisconfigured,
}

/// `route` is where a request whose session holds `session_user` goes.
pub open spec fn routes(
    route: AuthRoute,
    session_user: Option<u128>,
    settings: KeycloakSettings,
    scheme: Seq<char>,
    host: Seq<char>,
    nginx_port: u16,
) -> bool {
    match session_user {
        Some(id) => route == AuthRoute::Forward { user_id: id },
        None => match route {
            AuthRoute::SignInWithProvider { location, state } => sign_in_configured(settings, scheme, host, nginx_port)
                && location@ == sign_in_url(settings, scheme, host, nginx_port, state@)
                && is_csrf_state(state@),
            AuthRoute::ProviderMisconfigured => !sign_in_configured(settings, scheme, host, nginx_port),
            AuthRoute::Forward { .. } => false,
        },
    }
}

impl<S> AuthRequiredMiddleWare<S> {
    /// A request whose session holds a user id is forwarded for that user;
    /// any other is sent to sign in with Keycloak, asking for the `openid`
    /// and `profile` scopes and coming back to `{scheme}://{host}:{nginx_port}/login`.
    pub fn route(&self, session_user: Option<u128>, settings: &KeycloakSettings, scheme: &str, host: &str, nginx_port: u16) -> (route: AuthRoute)
        ensures
            routes(route, session_user, *settings, scheme@, host@, nginx_port),
    {
        match session_user {
            Some(user_id) => AuthRoute::Forward { user_id },
            None => match sign_in_location(settings, scheme, host, nginx_port) {
                Some((location, state)) => AuthRoute::SignInWithProvider { location, state },
                None => AuthRoute::ProviderMisconfigured,
            },
        }
    }
}

/// How far sign-in has got.
pub open spec fn login_rank(state: LoginState) -> nat {
    match state {
        LoginState::AwaitingCallback => 0,
        LoginState::AwaitingToken => 1,
        LoginState::Finished => 2,
    }
}

/// How far sign-out has got.
pub open spec fn logout_rank(state: LogoutState) -> nat {
    match state {
        LogoutState::Start => 0,
        LogoutState::AwaitingToken { .. } => 1,
        LogoutState::AwaitingLogout => 2,
        LogoutState::Finished => 3,
    }
}

/// Every sign-in step moves the flow forward, and a finished sign-in
/// expects nothing more: sign-in answers the browser after at most two events.
pub proof fn lemma_login_progress(state: LoginState, event: LoginEvent)
    ensures
        login_expects(state, event) ==> login_rank(login_next(event).0) > login_rank(state),
        !login_expects(LoginState::Finished, event),
{
}

/// Every sign-out step moves the flow forward, and a finished sign-out
/// expects nothing more: sign-out answers the browser after at most three events.
pub proof fn lemma_logout_progress(settings: KeycloakSettings, state: LogoutState, event: LogoutEvent)
    ensures
        logout_expects(state, event) ==> logout_rank(logout_next(settings, state, event).0) > logout_rank(state),
        !logout_expects(LogoutState::Finished, event),
{
}

/// Sign-out without a signed-in user neither clears anything nor contacts
/// Keycloak: it redirects home at once.
pub proof fn lemma_logout_without_session(settings: KeycloakSettings)
    ensures
        logout_next(settings, LogoutState::Start, LogoutEvent::Session { user_id: None })
            == (LogoutState::Finished, LogoutActionView::Respond(ReplyView::Redirect("/"@))),
{
}

/// The user that sign-in stores in the session is the user that sign-out
/// later asks Keycloak to sign out: when the token's `sub` claim names `id`,
/// sign-in signs in `id`; sign-out with `id` in the session then clears the
/// session and requests an admin token, and with the admin token
/// `access_token` posts to the logout endpoint of `id`, whose id segment
/// reads back as `id`.
pub proof fn lemma_sign_in_then_sign_out(
    settings: KeycloakSettings,
    claims: Option<Claims>,
    id: u128,
    access_token: String,
)
    requires
        claims_user_id(claims) == Some(id),
    ensures
        login_next(LoginEvent::TokenIssued { claims }) == (LoginState::Finished, LoginActionView::SignIn(id, "/"@)),
        logout_next(settings, LogoutState::Start, LogoutEvent::Session { user_id: Some(id) })
            == (LogoutState::AwaitingToken { user_id: id },
                LogoutActionView::ClearSessionAndRequestToken(admin_token_url_text(settings))),
        logout_next(settings, LogoutState::AwaitingToken { user_id: id }, LogoutEvent::TokenIssued { access_token })
            == (LogoutState::AwaitingLogout,
                LogoutActionView::RequestLogout(admin_logout_url_text(settings, id), access_token@)),
        admin_logout_url_text(settings, id) == origin_text(settings.external_host@, settings.external_port)
            + "/admin/realms/"@ + settings.realm@ + "/users/"@ + user_id_text(id) + "/logout"@,
        uuid_parse(user_id_text(id)) == Some(id),
{
    lemma_user_id_text_round_trip(id);
}

/// What the session holds under `user_id` once the web layer has performed
/// a sign-out action: clearing the session empties it, and no other action
/// touches it.
pub open spec fn session_after_logout_action(user: Option<u128>, action: LogoutActionView) -> Option<u128> {
    match action {
        LogoutActionView::ClearSessionAndRequestToken(_) => None,
        _ => user,
    }
}

/// Signing out twice on one session: whatever the session held, after the
/// first sign-out's first action it holds no user, so a second sign-out only
/// redirects home (no request, no secret read), and the guard sends the
/// next request for a protected page to sign in rather than forwarding it.
pub proof fn lemma_sign_out_twice(
    settings: KeycloakSettings,
    user: Option<u128>,
    route: AuthRoute,
    scheme: Seq<char>,
    host: Seq<char>,
    nginx_port: u16,
)
    ensures
        ({
            let first = logout_next(settings, LogoutState::Start, LogoutEvent::Session { user_id: user });
            let after = session_after_logout_action(user, first.1);
            &&& after is None
            &&& logout_next(settings, LogoutState::Start, LogoutEvent::Session { user_id: after })
                == (LogoutState::Finished, LogoutActionView::Respond(ReplyView::Redirect("/"@)))
            &&& routes(route, after, settings, scheme, host, nginx_port) ==> !(route is Forward)
        }),
{
}

/// A sign-in callback whose decoded query has a `code` parameter exchanges
/// exactly that parameter's value, whatever it holds; one without a `code`
/// parameter (or whose query does not decode) is a bad request.
pub proof fn lemma_callback_exchanges_code(query: String)
    ensures
        query_params(query@) matches Some(m) && m.contains_key("code"@)
            ==> login_next(LoginEvent::Callback { query }) == (
                LoginState::AwaitingToken,
                LoginActionView::ExchangeCode(query_params(query@)->0["code"@]),
            ),
        !(query_params(query@) matches Some(m) && m.contains_key("code"@))
            ==> login_next(LoginEvent::Callback { query }) == (
                LoginState::Finished,
                LoginActionView::Respond(ReplyView::BadRequest("Missing code"@)),
            ),
{
}

/// The user that decoded claims name is what `Uuid::parse_str` reads from
/// their `sub` claim, whatever their `exp`; in particular the hyphenated text
/// of any id names that id. An issued token whose `sub` is such a text signs
/// that user in and sends the browser home.
pub proof fn lemma_claims_name_sub(claims: Claims, user_id: u128)
    ensures
        claims_user_id(Some(claims)) == uuid_parse(claims.sub@),
        claims_user_id(None) is None,
        claims.sub@ == user_id_text(user_id) ==> claims_user_id(Some(claims)) == Some(user_id),
        claims.sub@ == user_id_text(user_id) ==> login_next(LoginEvent::TokenIssued { claims: Some(claims) })
            == (LoginState::Finished, LoginActionView::SignIn(user_id, "/"@)),
{
    lemma_user_id_text_round_trip(user_id);
}

/// Sign-in is possible exactly when the OAuth client accepts Keycloak's
/// authorization and token endpoints and the dashboard's callback, whatever
/// the scheme, host and port; the address it sends the browser to is the
/// client's authorization URL for the dashboard's client id, its callback,
/// the scopes `openid profile` and the CSRF state.
pub proof fn lemma_sign_in_needs_only_valid_addresses(
    settings: KeycloakSettings,
    scheme: Seq<char>,
    host: Seq<char>,
    nginx_port: u16,
    state: Seq<char>,
)
    ensures
        sign_in_configured(settings, scheme, host, nginx_port) == (url_parses(auth_uri_text(settings))
            && url_parses(token_uri_text(settings)) && url_parses(redirect_uri_text(scheme, host, nginx_port))),
        sign_in_url(settings, scheme, host, nginx_port, state) == authorization_url(
            auth_uri_text(settings),
            settings.client_id@,
            state,
            redirect_uri_text(scheme, host, nginx_port),
            "openid"@ + seq![' '] + "profile"@,
        ),
{
}

/// The guard forwards a request exactly when its session holds a user, and
/// for that user. A request without one goes to sign in exactly when the
/// OAuth client accepts the three addresses, to the authorization URL for
/// the dashboard's client id, callback and the scopes `openid profile`, with
/// a 22-character CSRF state that the URL carries.
pub proof fn lemma_guard_routes(
    route: AuthRoute,
    session_user: Option<u128>,
    settings: KeycloakSettings,
    scheme: Seq<char>,
    host: Seq<char>,
    nginx_port: u16,
)
    requires
        routes(route, session_user, settings, scheme, host, nginx_port),
    ensures
        session_user matches Some(id) ==> (route == (AuthRoute::Forward { user_id: id })),
        session_user is None ==> !(route is Forward),
        session_user is None ==> ((route is SignInWithProvider) <==> (url_parses(auth_uri_text(settings))
            && url_parses(token_uri_text(settings)) && url_parses(redirect_uri_text(scheme, host, nginx_port)))),
        (match route {
            AuthRoute::SignInWithProvider { location, state } => location@ == authorization_url(
                auth_uri_text(settings),
                settings.client_id@,
                state@,
                redirect_uri_text(scheme, host, nginx_port),
                "openid"@ + seq![' '] + "profile"@,
            ) && state@.len() == 22,
            _ => true,
        }),
{
}

/// Among decoded query parameters, the code taken is the value of the first
/// pair whose key is `code`, and there is none exactly when no key is `code`.
pub proof fn lemma_first_code_is_first(pairs: Seq<(String, String)>, found: Option<String>, i: int)
    requires
        first_code(pairs, found),
    ensures
        0 <= i < pairs.len() && pairs[i].0@ == "code"@ && (forall|j: int| 0 <= j < i ==> pairs[j].0@ != "code"@)
            ==> (found is Some && found->0@ == pairs[i].1@),
        found is None <==> (forall|j: int| 0 <= j < pairs.len() ==> pairs[j].0@ != "code"@),
{
    if found is Some {
        let k = choose|k: int|
            0 <= k < pairs.len() && #[trigger] pairs[k].0@ == "code"@ && found->0@ == pairs[k].1@
                && forall|j: int| 0 <= j < k ==> pairs[j].0@ != "code"@;
        if 0 <= i < pairs.len() && pairs[i].0@ == "code"@ && (forall|j: int| 0 <= j < i ==> pairs[j].0@ != "code"@) {
            assert(!(k < i));
            assert(!(i < k));
        }
        assert(pairs[k].0@ == "code"@);
    }
}

/// The answers of sign-in to the token endpoint: a refused exchange is a
/// server error that shows the token error after `Token error: `; an issued
/// token signs in the user its `sub` claim names, and is a server error
/// `Failed to get user ID` where it names none.
pub proof fn lemma_login_token_answers(detail: String, claims: Option<Claims>)
    ensures
        login_next(LoginEvent::TokenRejected { detail }) == (
            LoginState::Finished,
            LoginActionView::Respond(ReplyView::InternalServerError("Token error: "@ + detail@)),
        ),
        claims matches Some(c) && uuid_parse(c.sub@) is Some ==> login_next(LoginEvent::TokenIssued { claims })
            == (LoginState::Finished, LoginActionView::SignIn(uuid_parse(claims->0.sub@)->0, "/"@)),
        !(claims matches Some(c) && uuid_parse(c.sub@) is Some) ==> login_next(LoginEvent::TokenIssued { claims })
            == (LoginState::Finished, LoginActionView::Respond(ReplyView::InternalServerError("Failed to get user ID"@))),
{
}

/// The answers of sign-out once Keycloak has replied: a refused admin token
/// is the server error `Token request error`; an issued one is sent as the
/// bearer of the logout request for the session's user; a successful logout
/// redirects home and a refused one is the server error `Admin logout error`.
pub proof fn lemma_logout_answers(settings: KeycloakSettings, user_id: u128, access_token: String, success: bool)
    ensures
        logout_next(settings, LogoutState::AwaitingToken { user_id }, LogoutEvent::TokenRejected) == (
            LogoutState::Finished,
            LogoutActionView::Respond(ReplyView::InternalServerError("Token request error"@)),
        ),
        logout_next(settings, LogoutState::AwaitingToken { user_id }, LogoutEvent::TokenIssued { access_token }) == (
            LogoutState::AwaitingLogout,
            LogoutActionView::RequestLogout(
                origin_text(settings.external_host@, settings.external_port) + "/admin/realms/"@ + settings.realm@
                    + "/users/"@ + user_id_text(user_id) + "/logout"@,
                access_token@,
            ),
        ),
        success ==> logout_next(settings, LogoutState::AwaitingLogout, LogoutEvent::LogoutAnswered { success })
            == (LogoutState::Finished, LogoutActionView::Respond(ReplyView::Redirect("/"@))),
        !success ==> logout_next(settings, LogoutState::AwaitingLogout, LogoutEvent::LogoutAnswered { success })
            == (LogoutState::Finished, LogoutActionView::Respond(ReplyView::InternalServerError("Admin logout error"@))),
{
}

/// Sign-out with a user in the session clears it and asks for an admin token
/// at the realm's token endpoint over Keycloak's external address.
pub proof fn lemma_logout_starts_with_token_request(settings: KeycloakSettings, user_id: u128)
    ensures
        logout_next(settings, LogoutState::Start, LogoutEvent::Session { user_id: Some(user_id) }) == (
            LogoutState::AwaitingToken { user_id },
            LogoutActionView::ClearSessionAndRequestToken(
                origin_text(settings.external_host@, settings.external_port) + "/realms/"@ + settings.realm@
                    + "/protocol/openid-connect/"@ + "token"@,
            ),
        ),
{
}

} // verus!
