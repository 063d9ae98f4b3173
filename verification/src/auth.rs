//! Sign-in with the identity provider: the consent URL, the addresses that
//! the local server and the token exchange use, and the pages that the
//! callback answers with.

use vstd::prelude::*;
use oauth2::basic::BasicClient;
use oauth2::{AuthUrl, ClientId, ClientSecret, CsrfToken, RedirectUrl, TokenUrl};

verus! {

/// `parts` joined with `sep` between each two neighbours.
pub open spec fn joined(parts: Seq<Seq<char>>, sep: Seq<char>) -> Seq<char>
    decreases parts.len(),
{
    if parts.len() == 0 {
        Seq::empty()
    } else if parts.len() == 1 {
        parts[0]
    } else {
        joined(parts.drop_last(), sep) + sep + parts.last()
    }
}

/// The permissions that sign-in asks for, in order.
pub open spec fn scopes_spec() -> Seq<Seq<char>> {
    seq![
        "https://www.googleapis.com/auth/userinfo.profile"@,
        "https://www.googleapis.com/auth/userinfo.email"@,
    ]
}

/// The consent URL: the provider's authorization endpoint asking for the
/// permissions above, separated by spaces, with offline access.
pub open spec fn auth_url_spec() -> Seq<char> {
    "https://accounts.google.com/o/oauth2/auth?prompt=consent&scope="@ + joined(
        scopes_spec(),
        " "@,
    ) + "&access_type=offline"@
}

/// The page that a completed sign-in answers with, greeting `name`.
pub open spec fn welcome_page_spec(name: Seq<char>) -> Seq<char> {
    "\n        <html>\n            <body>\n                <h1>Welcome, "@ + name
        + "!</h1>\n                <p>You are now Logged IN! you may close this page.</p>\n                <a href=\"/\">Go Back</a>\n            </body>\n        </html>\n    "@
}

fn join_with(parts: &Vec<&str>, sep: &str) -> (text: String)
    ensures
        text@ == joined(parts@.map_values(|p: &str| p@), sep@),
{
    let ghost views = parts@.map_values(|p: &str| p@);
    let mut text = String::new();
    let n = parts.len();
    for i in 0..n
        invariant
            n == parts@.len(),
            views == parts@.map_values(|p: &str| p@),
            text@ == joined(views.take(i as int), sep@),
    {
        assert(views.take(i + 1).drop_last() =~= views.take(i as int));
        if i > 0 {
            text.append(sep);
        }
        text.append(parts[i]);
        assert(views[i as int] == parts@[i as int]@);
    }
    assert(views.take(n as int) =~= views);
    text
}

/// The URL that sends the user to the provider's consent screen.
pub fn generate_auth_url() -> (url: String)
    ensures
        url@ == auth_url_spec(),
{
    let mut scopes: Vec<&str> = Vec::new();
    scopes.push("https://www.googleapis.com/auth/userinfo.profile");
    scopes.push("https://www.googleapis.com/auth/userinfo.email");
    assert(scopes@.map_values(|p: &str| p@) =~= scopes_spec());
    let scope_string = join_with(&scopes, " ");
    let mut url = String::from_str("https://accounts.google.com/o/oauth2/auth?prompt=consent&scope=");
    url.append(scope_string.as_str());
    url.append("&access_type=offline");
    url
}

/// The page that the callback answers with once the profile of `name` has
/// been fetched and saved.
pub fn welcome_page(name: &str) -> (page: String)
    ensures
        page@ == welcome_page_spec(name@),
{
    let mut page = String::from_str("\n        <html>\n            <body>\n                <h1>Welcome, ");
    page.append(name);
    page.append(
        "!</h1>\n                <p>You are now Logged IN! you may close this page.</p>\n                <a href=\"/\">Go Back</a>\n            </body>\n        </html>\n    ",
    );
    page
}

/// The body of the answer when the profile could not be fetched.
pub fn userinfo_failure_message() -> (text: String)
    ensures
        text@ == "Failed to fetch user information."@,
{
    String::from_str("Failed to fetch user information.")
}

/// The local page that starts the sign-in, opened in the user's browser.
pub fn login_page_url() -> (url: String)
    ensures
        url@ == "http://127.0.0.1:8080/auth"@,
{
    String::from_str("http://127.0.0.1:8080/auth")
}

/// The local address that the provider sends the user back to.
pub fn redirect_url() -> (url: String)
    ensures
        url@ == "http://127.0.0.1:8080/callback"@,
{
    String::from_str("http://127.0.0.1:8080/callback")
}

/// The provider's endpoint that exchanges an authorization code for a token.
pub fn token_url() -> (url: String)
    ensures
        url@ == "https://oauth2.googleapis.com/token"@,
{
    String::from_str("https://oauth2.googleapis.com/token")
}

/// The provider's endpoint that returns the signed-in user's profile.
pub fn userinfo_url() -> (url: String)
    ensures
        url@ == "https://www.googleapis.com/oauth2/v1/userinfo?alt=json"@,
{
    String::from_str("https://www.googleapis.com/oauth2/v1/userinfo?alt=json")
}

/// The body of the answer when fetching the profile did not succeed, or
/// `None` where it did and the sign-in goes on.
pub fn userinfo_failure(status_success: bool) -> (failure: Option<String>)
    ensures
        status_success <==> failure is None,
        failure matches Some(text) ==> text@ == "Failed to fetch user information."@,
{
    if status_success {
        None
    } else {
        Some(userinfo_failure_message())
    }
}

/// The settings of the sign-in client: its credentials and the provider's
/// authorization and token endpoints and the local callback address.
pub struct OAuthClientConfig {
    pub client_id: String,
    pub client_secret: String,
    pub auth_url: String,
    pub token_url: String,
    pub redirect_url: String,
}

/// The client settings for the credentials `client_id` and `client_secret`.
pub fn oauth_client_config(client_id: String, client_secret: String) -> (config: OAuthClientConfig)
    ensures
        config.client_id@ == client_id@,
        config.client_secret@ == client_secret@,
        config.auth_url@ == auth_url_spec(),
        config.token_url@ == "https://oauth2.googleapis.com/token"@,
        config.redirect_url@ == "http://127.0.0.1:8080/callback"@,
{
    OAuthClientConfig {
        client_id,
        client_secret,
        auth_url: generate_auth_url(),
        token_url: token_url(),
        redirect_url: redirect_url(),
    }
}

/// What `oauth2` makes of an authorization request: the URL that
/// `BasicClient::authorize_url(..).url()` gives for a client with these
/// endpoints, this client identifier and this `state`, or `None` where one of
/// the three endpoints is not a valid URL.
pub uninterp spec fn oauth2_authorize_url(
    auth_url: Seq<char>,
    token_url: Seq<char>,
    redirect_url: Seq<char>,
    client_id: Seq<char>,
    state: Seq<char>,
) -> Option<Seq<char>>;

/// Calls `AuthUrl::new`, `TokenUrl::new`, `RedirectUrl::new` (each parses a
/// URL and may refuse it), `BasicClient::new`, `set_redirect_uri`, and then
/// `authorize_url` with `state` as the CSRF token and `url`, turning the
/// resulting URL into text. States that the result is the named
/// authorization URL; the client secret does not enter it.
#[verifier::external_body]
fn oauth2_authorize_url_call(
    auth_url: &str,
    token_url: &str,
    redirect_url: &str,
    client_id: &str,
    client_secret: &str,
    state: &str,
) -> (url: Option<String>)
    ensures
        match url {
            Some(u) => oauth2_authorize_url(auth_url@, token_url@, redirect_url@, client_id@, state@)
                == Some(u@),
            None => oauth2_authorize_url(
                auth_url@,
                token_url@,
                redirect_url@,
                client_id@,
                state@,
            ) is None,
        },
{
    let auth = AuthUrl::new(auth_url.to_owned()).ok()?;
    let token = TokenUrl::new(token_url.to_owned()).ok()?;
    let redirect = RedirectUrl::new(redirect_url.to_owned()).ok()?;
    let secret = Some(ClientSecret::new(client_secret.to_owned()));
    let client = BasicClient::new(ClientId::new(client_id.to_owned()), secret, auth, Some(token));
    let csrf = CsrfToken::new(state.to_owned());
    let (url, _) = client.set_redirect_uri(redirect).authorize_url(move || csrf).url();
    Some(url.to_string())
}

pub open spec fn text_view(text: Option<String>) -> Option<Seq<char>> {
    match text {
        Some(t) => Some(t@),
        None => None,
    }
}

/// The consent address for the client `client_id` and the CSRF token
/// `state`, with this program's endpoints.
pub open spec fn consent_spec(client_id: Seq<char>, state: Seq<char>) -> Option<Seq<char>> {
    oauth2_authorize_url(
        auth_url_spec(),
        "https://oauth2.googleapis.com/token"@,
        "http://127.0.0.1:8080/callback"@,
        client_id,
        state,
    )
}

/// The address that sends the user to the provider's consent screen for the
/// client `client_id`, with `state` as the request's CSRF token, or `None`
/// where `oauth2` refuses one of the endpoints.
pub fn consent_redirect(client_id: &str, client_secret: &str, state: &str) -> (url: Option<String>)
    ensures
        text_view(url) == consent_spec(client_id@, state@),
{
    let config = oauth_client_config(client_id.to_owned(), client_secret.to_owned());
    oauth2_authorize_url_call(
        config.auth_url.as_str(),
        config.token_url.as_str(),
        config.redirect_url.as_str(),
        config.client_id.as_str(),
        config.client_secret.as_str(),
        state,
    )
}

/// Calls `uuid::Uuid::new_v4()` and formats it with `to_string`, which
/// writes the hyphenated form: 36 characters. The value rests on chance, so
/// nothing more is stated of it.
#[verifier::external_body]
fn new_csrf_state() -> (state: String)
    ensures
        state@.len() == 36,
{
    uuid::Uuid::new_v4().to_string()
}

/// The consent address for a new sign-in of the client `client_id`, with a
/// fresh random CSRF token.
pub fn sign_in_redirect(client_id: &str, client_secret: &str) -> (url: Option<String>)
    ensures
        exists|state: Seq<char>| state.len() == 36 && text_view(url) == #[trigger] consent_spec(client_id@, state),
{
    let state = new_csrf_state();
    consent_redirect(client_id, client_secret, state.as_str())
}

/// The consent URL asks for the profile and the e-mail permission, in that
/// order and separated by a space, and for offline access.
pub proof fn lemma_auth_url_asks_both_scopes()
    ensures
        auth_url_spec() == "https://accounts.google.com/o/oauth2/auth?prompt=consent&scope="@
            + "https://www.googleapis.com/auth/userinfo.profile"@ + " "@
            + "https://www.googleapis.com/auth/userinfo.email"@ + "&access_type=offline"@,
{
    let scopes = scopes_spec();
    assert(scopes.drop_last() =~= seq!["https://www.googleapis.com/auth/userinfo.profile"@]);
    assert(joined(scopes.drop_last(), " "@) == "https://www.googleapis.com/auth/userinfo.profile"@);
    assert(joined(scopes, " "@) == "https://www.googleapis.com/auth/userinfo.profile"@ + " "@
        + "https://www.googleapis.com/auth/userinfo.email"@);
    assert(auth_url_spec() =~= "https://accounts.google.com/o/oauth2/auth?prompt=consent&scope="@
        + "https://www.googleapis.com/auth/userinfo.profile"@ + " "@
        + "https://www.googleapis.com/auth/userinfo.email"@ + "&access_type=offline"@);
}

/// The consent redirect is what `oauth2` builds on the consent URL that asks
/// for both the profile and the e-mail permission, with the provider's token
/// endpoint and the local callback, for the given client and CSRF token.
pub proof fn lemma_consent_redirect_asks_both_scopes(client_id: Seq<char>, state: Seq<char>)
    ensures
        consent_spec(client_id, state) == oauth2_authorize_url(
            "https://accounts.google.com/o/oauth2/auth?prompt=consent&scope="@
                + "https://www.googleapis.com/auth/userinfo.profile"@ + " "@
                + "https://www.googleapis.com/auth/userinfo.email"@ + "&access_type=offline"@,
            "https://oauth2.googleapis.com/token"@,
            "http://127.0.0.1:8080/callback"@,
            client_id,
            state,
        ),
{
    lemma_auth_url_asks_both_scopes();
}

/// The welcome page holds the whole name: it is the fixed opening, then the
/// name, then the fixed closing, for a name of any length.
pub proof fn lemma_welcome_page_holds_whole_name(name: Seq<char>)
    ensures
        ({
            let opening = "\n        <html>\n            <body>\n                <h1>Welcome, "@;
            let closing = "!</h1>\n                <p>You are now Logged IN! you may close this page.</p>\n                <a href=\"/\">Go Back</a>\n            </body>\n        </html>\n    "@;
            let page = welcome_page_spec(name);
            &&& page.len() == opening.len() + name.len() + closing.len()
            &&& page.subrange(0, opening.len() as int) == opening
            &&& page.subrange(opening.len() as int, (opening.len() + name.len()) as int) == name
            &&& page.subrange((opening.len() + name.len()) as int, page.len() as int) == closing
        }),
{
    let opening = "\n        <html>\n            <body>\n                <h1>Welcome, "@;
    let closing = "!</h1>\n                <p>You are now Logged IN! you may close this page.</p>\n                <a href=\"/\">Go Back</a>\n            </body>\n        </html>\n    "@;
    let page = welcome_page_spec(name);
    assert(page.subrange(0, opening.len() as int) =~= opening);
    assert(page.subrange(opening.len() as int, (opening.len() + name.len()) as int) =~= name);
    assert(page.subrange((opening.len() + name.len()) as int, page.len() as int) =~= closing);
}

} // verus!
