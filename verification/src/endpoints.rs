//! The addresses the dashboard hands to the browser and posts to: the OAuth
//! endpoints of the Keycloak realm, the dashboard's own callback, and the
//! admin endpoints used at sign-out.
use vstd::prelude::*;
use crate::text::{decimal, is_numeral_of, lemma_decimal_is_numeral, push_decimal, trim_str, trim_text};
use crate::user_id::{hyphenated_uuid, user_id_text};

verus! {

/// Where Keycloak is reached, from the browser (external) and from inside
/// the container network (internal), and which realm and client the
/// dashboard uses.
#[derive(Debug, Clone, PartialEq, Eq)]
pub struct KeycloakSettings {
    pub external_host: String,
    pub external_port: u16,
    pub internal_host: String,
    pub internal_port: u16,
    pub realm: String,
    pub client_id: String,
}

/// The three addresses an OAuth client of the dashboard is configured with.
#[derive(Debug, Clone, PartialEq, Eq)]
pub struct OAuthEndpoints {
    pub redirect_uri: String,
    pub auth_uri: String,
    pub token_uri: String,
}

/// `http://{host}:{port}`.
pub open spec fn origin_text(host: Seq<char>, port: u16) -> Seq<char> {
    "http://"@ + host + ":"@ + decimal(port as nat)
}

/// `http://{host}:{port}/realms/{realm}/protocol/openid-connect/{endpoint}`.
pub open spec fn openid_endpoint_text(host: Seq<char>, port: u16, realm: Seq<char>, endpoint: Seq<char>) -> Seq<char> {
    origin_text(host, port) + "/realms/"@ + realm + "/protocol/openid-connect/"@ + endpoint
}

/// The authorization endpoint, as the browser reaches it.
pub open spec fn auth_uri_text(settings: KeycloakSettings) -> Seq<char> {
    openid_endpoint_text(settings.external_host@, settings.external_port, settings.realm@, "auth"@)
}

/// The token endpoint, as the dashboard reaches it inside the container network.
pub open spec fn token_uri_text(settings: KeycloakSettings) -> Seq<char> {
    openid_endpoint_text(settings.internal_host@, settings.internal_port, settings.realm@, "token"@)
}

/// The dashboard's own `/login` callback: `{scheme}://{host}:{nginx_port}/login`.
pub open spec fn redirect_uri_text(scheme: Seq<char>, host: Seq<char>, nginx_port: u16) -> Seq<char> {
    scheme + "://"@ + host + ":"@ + decimal(nginx_port as nat) + "/login"@
}

/// The token endpoint that sign-out asks for an admin token, over the external address.
pub open spec fn admin_token_url_text(settings: KeycloakSettings) -> Seq<char> {
    openid_endpoint_text(settings.external_host@, settings.external_port, settings.realm@, "token"@)
}

/// The admin endpoint that ends every session of a user:
/// `http://{host}:{port}/admin/realms/{realm}/users/{user_id}/logout`.
pub open spec fn admin_logout_url_text(settings: KeycloakSettings, user_id: u128) -> Seq<char> {
    origin_text(settings.external_host@, settings.external_port) + "/admin/realms/"@ + settings.realm@
        + "/users/"@ + user_id_text(user_id) + "/logout"@
}

fn push_origin(out: &mut String, host: &str, port: u16)
    ensures
        final(out)@ == old(out)@ + origin_text(host@, port),
{
    out.append("http://");
    out.append(host);
    out.append(":");
    push_decimal(out, port as u64);
    assert(final(out)@ =~= old(out)@ + origin_text(host@, port));
}

fn openid_endpoint(host: &str, port: u16, realm: &str, endpoint: &str) -> (url: String)
    ensures
        url@ == openid_endpoint_text(host@, port, realm@, endpoint@),
{
    let mut url = String::new();
    push_origin(&mut url, host, port);
    url.append("/realms/");
    url.append(realm);
    url.append("/protocol/openid-connect/");
    url.append(endpoint);
    assert(url@ =~= openid_endpoint_text(host@, port, realm@, endpoint@));
    url
}

/// The Keycloak origin that sign-out talks to: `http://{external_host}:{external_port}`.
pub fn keycloak_origin(settings: &KeycloakSettings) -> (origin: String)
    ensures
        origin@ == origin_text(settings.external_host@, settings.external_port),
{
    let mut origin = String::new();
    push_origin(&mut origin, settings.external_host.as_str(), settings.external_port);
    assert(origin@ =~= origin_text(settings.external_host@, settings.external_port));
    origin
}

/// The addresses that the OAuth client is built from: the callback on the
/// host and scheme the browser used, with the proxy's port; the
/// authorization endpoint over Keycloak's external address; and the token
/// endpoint over its internal address.
pub fn oauth_client_endpoints(settings: &KeycloakSettings, scheme: &str, host: &str, nginx_port: u16) -> (endpoints: OAuthEndpoints)
    ensures
        endpoints.redirect_uri@ == redirect_uri_text(scheme@, host@, nginx_port),
        endpoints.auth_uri@ == auth_uri_text(*settings),
        endpoints.token_uri@ == token_uri_text(*settings),
{
    let mut redirect_uri = String::new();
    redirect_uri.append(scheme);
    redirect_uri.append("://");
    redirect_uri.append(host);
    redirect_uri.append(":");
    push_decimal(&mut redirect_uri, nginx_port as u64);
    redirect_uri.append("/login");
    assert(redirect_uri@ =~= redirect_uri_text(scheme@, host@, nginx_port));
    let auth_uri = openid_endpoint(settings.external_host.as_str(), settings.external_port, settings.realm.as_str(), "auth");
    let token_uri = openid_endpoint(settings.internal_host.as_str(), settings.internal_port, settings.realm.as_str(), "token");
    OAuthEndpoints { redirect_uri, auth_uri, token_uri }
}

/// The token endpoint that sign-out posts its client-credentials request to.
pub fn admin_token_url(settings: &KeycloakSettings) -> (url: String)
    ensures
        url@ == admin_token_url_text(*settings),
{
    openid_endpoint(settings.external_host.as_str(), settings.external_port, settings.realm.as_str(), "token")
}

/// The admin endpoint that signs `user_id` out of Keycloak.
pub fn admin_logout_url(settings: &KeycloakSettings, user_id: u128) -> (url: String)
    ensures
        url@ == admin_logout_url_text(*settings, user_id),
{
    let mut url = String::new();
    push_origin(&mut url, settings.external_host.as_str(), settings.external_port);
    url.append("/admin/realms/");
    url.append(settings.realm.as_str());
    url.append("/users/");
    let id_text = hyphenated_uuid(user_id);
    url.append(id_text.as_str());
    url.append("/logout");
    assert(url@ =~= admin_logout_url_text(*settings, user_id));
    url
}

/// The form of the client-credentials request that sign-out sends to the
/// token endpoint: `grant_type=client_credentials`, the client id and the
/// client secret, in that order.
pub fn token_request_form(client_id: &str, client_secret: &str) -> (form: Vec<(String, String)>)
    ensures
        form@.len() == 3,
        form@[0].0@ == "grant_type"@,
        form@[0].1@ == "client_credentials"@,
        form@[1].0@ == "client_id"@,
        form@[1].1@ == client_id@,
        form@[2].0@ == "client_secret"@,
        form@[2].1@ == client_secret@,
{
    let mut form: Vec<(String, String)> = Vec::new();
    form.push(("grant_type".to_owned(), "client_credentials".to_owned()));
    form.push(("client_id".to_owned(), client_id.to_owned()));
    form.push(("client_secret".to_owned(), client_secret.to_owned()));
    form
}

/// Whether `url::Url::parse` accepts a text, which is what `oauth2`'s
/// `AuthUrl::new`, `TokenUrl::new` and `RedirectUrl::new` require.
pub uninterp spec fn url_parses(text: Seq<char>) -> bool;

/// The URL that `oauth2`'s `authorize_url(..).add_scopes(..).url()` gives for
/// a client with authorization endpoint `auth_uri` (as text), id `client_id`
/// and redirect address `redirect_uri` (as text), with CSRF state `state`, and
/// with `scope` the requested scopes joined by single spaces.
pub uninterp spec fn authorization_url(
    auth_uri: Seq<char>,
    client_id: Seq<char>,
    state: Seq<char>,
    redirect_uri: Seq<char>,
    scope: Seq<char>,
) -> Seq<char>;

/// Scopes joined by single spaces, as `oauth2` joins them.
pub open spec fn joined_scopes(scopes: Seq<String>) -> Seq<char>
    decreases scopes.len(),
{
    if scopes.len() == 0 {
        Seq::empty()
    } else if scopes.len() == 1 {
        scopes[0]@
    } else {
        joined_scopes(scopes.drop_last()) + seq![' '] + scopes.last()@
    }
}

/// A character of the URL-safe base64 alphabet.
pub open spec fn is_base64url_char(c: char) -> bool {
    ('A' <= c <= 'Z') || ('a' <= c <= 'z') || ('0' <= c <= '9') || c == '-' || c == '_'
}

/// Builds an `oauth2` `BasicClient` with the authorization endpoint, client id,
/// token endpoint and redirect address given, and asks it for an
/// authorization URL with a fresh random CSRF state (`CsrfToken::new_random`:
/// 16 random bytes in unpadded URL-safe base64, so 22 characters of that
/// alphabet) and the scopes given. Hands back the URL's text and the state,
/// or `None` where `AuthUrl::new`, `TokenUrl::new` or `RedirectUrl::new`
/// refuses its address. Which 22 characters the state has is left open.
#[verifier::external_body]
pub(crate) fn authorize_url(
    auth_uri: &str,
    client_id: &str,
    token_uri: &str,
    redirect_uri: &str,
    scopes: &Vec<String>,
) -> (request: Option<(String, String)>)
    ensures
        request is Some == (url_parses(auth_uri@) && url_parses(token_uri@) && url_parses(redirect_uri@)),
        request matches Some(p) ==> p.0@ == authorization_url(auth_uri@, client_id@, p.1@, redirect_uri@, joined_scopes(scopes@)),
        request matches Some(p) ==> p.1@.len() == 22 && forall|i: int| 0 <= i < 22 ==> is_base64url_char(#[trigger] p.1@[i]),
{
    let (Ok(auth_url), Ok(token_url), Ok(redirect_url)) = (
        oauth2::AuthUrl::new(auth_uri.to_string()),
        oauth2::TokenUrl::new(token_uri.to_string()),
        oauth2::RedirectUrl::new(redirect_uri.to_string()),
    ) else {
        return None;
    };
    let (url, state) = oauth2::basic::BasicClient::new(oauth2::ClientId::new(client_id.to_string()))
        .set_auth_uri(auth_url)
        .set_token_uri(token_url)
        .set_redirect_uri(redirect_url)
        .authorize_url(oauth2::CsrfToken::new_random)
        .add_scopes(scopes.iter().cloned().map(oauth2::Scope::new))
        .url();
    Some((url.to_string(), state.secret().clone()))
}

/// The client secret that sign-out sends: the contents of the secret file
/// without leading and trailing whitespace.
pub fn admin_client_secret(file_contents: &str) -> (secret: String)
    ensures
        secret@ == trim_text(file_contents@),
{
    trim_str(file_contents).to_owned()
}

/// Every Keycloak origin carries the configured host and port itself:
/// `http://`, the host, `:` and the port's normal decimal numeral.
pub proof fn lemma_origin_carries_port(host: Seq<char>, port: u16)
    ensures
        exists|digits: Seq<char>|
            #[trigger] is_numeral_of(digits, port as nat) && origin_text(host, port) == "http://"@ + host + ":"@ + digits,
{
    lemma_decimal_is_numeral(port as nat);
    let digits = decimal(port as nat);
    assert(is_numeral_of(digits, port as nat) && origin_text(host, port) == "http://"@ + host + ":"@ + digits);
}

/// The dashboard's callback carries the scheme and host the browser used and
/// the proxy's port: `{scheme}://{host}:{port}/login`, the port in its normal
/// decimal numeral.
pub proof fn lemma_callback_carries_port(scheme: Seq<char>, host: Seq<char>, nginx_port: u16)
    ensures
        exists|digits: Seq<char>|
            #[trigger] is_numeral_of(digits, nginx_port as nat)
                && redirect_uri_text(scheme, host, nginx_port) == scheme + "://"@ + host + ":"@ + digits + "/login"@,
{
    lemma_decimal_is_numeral(nginx_port as nat);
    let digits = decimal(nginx_port as nat);
    assert(is_numeral_of(digits, nginx_port as nat)
        && redirect_uri_text(scheme, host, nginx_port) == scheme + "://"@ + host + ":"@ + digits + "/login"@);
}

/// Which Keycloak address each endpoint goes to: the browser reaches the
/// authorization endpoint over the external address, the OAuth client the
/// token endpoint over the internal one, and sign-out both of its endpoints
/// over the external one, all in the configured realm.
pub proof fn lemma_endpoint_addresses(settings: KeycloakSettings, user_id: u128)
    ensures
        auth_uri_text(settings) == origin_text(settings.external_host@, settings.external_port) + "/realms/"@
            + settings.realm@ + "/protocol/openid-connect/"@ + "auth"@,
        token_uri_text(settings) == origin_text(settings.internal_host@, settings.internal_port) + "/realms/"@
            + settings.realm@ + "/protocol/openid-connect/"@ + "token"@,
        admin_token_url_text(settings) == origin_text(settings.external_host@, settings.external_port)
            + "/realms/"@ + settings.realm@ + "/protocol/openid-connect/"@ + "token"@,
        admin_logout_url_text(settings, user_id) == origin_text(settings.external_host@, settings.external_port)
            + "/admin/realms/"@ + settings.realm@ + "/users/"@ + user_id_text(user_id) + "/logout"@,
{
}

/// When Keycloak's internal address is its external one, the OAuth client
/// and sign-out use the same token endpoint.
pub proof fn lemma_token_endpoints_agree(settings: KeycloakSettings)
    requires
        settings.internal_host@ == settings.external_host@,
        settings.internal_port == settings.external_port,
    ensures
        token_uri_text(settings) == admin_token_url_text(settings),
{
}

} // verus!
