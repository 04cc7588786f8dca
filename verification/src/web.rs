//! Web addresses: the instance address that a user enters, the callback
//! addresses of this service, and the addresses of the origin service's
//! authorization pages.
//!
//! Addresses are parsed and serialized by the `url` crate; the rules about
//! them are decided here, on the serialized text.

use crate::text::chars_of;
use vstd::prelude::*;
use vstd::string::*;

verus! {

#[verifier::external_type_specification]
#[verifier::external_body]
pub struct ExParseError(url::ParseError);

/// The serialization of the absolute URL that `url::Url::parse` reads from
/// `input`, or `None` where it reads none.
pub uninterp spec fn url_parse_spec(input: Seq<char>) -> Option<Seq<char>>;

/// The serialization of the absolute URL that `url::Url::parse_with_params`
/// reads from `input` and extends by the query parameters `params`, or `None`
/// where it reads none.
pub uninterp spec fn url_with_params_spec(
    input: Seq<char>,
    params: Seq<(Seq<char>, Seq<char>)>,
) -> Option<Seq<char>>;

/// Calls `url::Url::parse` and hands out the URL's serialization. The
/// result depends on `input` alone: it is the named result `url_parse_spec`.
#[verifier::external_body]
fn url_parse(input: &str) -> (r: Result<String, url::ParseError>)
    ensures
        match r {
            Ok(text) => url_parse_spec(input@) == Some(text@),
            Err(_) => url_parse_spec(input@) is None,
        },
{
    url::Url::parse(input).map(String::from)
}

/// Calls `url::Url::parse_with_params` and hands out the URL's
/// serialization. The result depends on `input` and `params` alone: it is
/// the named result `url_with_params_spec`. The call is made for the two
/// pages of the origin service only: they are short and hold no fragment,
/// so that appending the parameters cannot run into the limit that the
/// crate sets on the length of what stands before a fragment.
#[verifier::external_body]
fn url_parse_with_params(input: &str, params: &Vec<(String, String)>) -> (r: Result<
    String,
    url::ParseError,
>)
    requires
        input@ == authenticate_page() || input@ == access_token_page(),
    ensures
        match r {
            Ok(text) => url_with_params_spec(input@, params.deep_view()) == Some(text@),
            Err(_) => url_with_params_spec(input@, params.deep_view()) is None,
        },
{
    url::Url::parse_with_params(input, params.iter().map(|p| (p.0.as_str(), p.1.as_str())))
        .map(String::from)
}

/// Calls `to_string` on a `url::ParseError`: the error's message. Nothing is
/// claimed of the text.
#[verifier::external_body]
fn parse_error_message(error: &url::ParseError) -> (message: String) {
    error.to_string()
}

/// Why an instance address was refused.
#[derive(Debug)]
pub enum InstanceUrlError {
    /// The address could not be parsed; the parser's message is attached.
    Unparsable(String),
    /// The address does not use `https`.
    NotHttps,
}

/// The text `"https:"`, with which a secure address begins.
pub open spec fn https_scheme() -> Seq<char> {
    seq!['h', 't', 't', 'p', 's', ':']
}

/// The text `"https://"`, which is put before an address given without
/// scheme.
pub open spec fn https_prefix() -> Seq<char> {
    seq!['h', 't', 't', 'p', 's', ':', '/', '/']
}

/// Whether `s` begins with `prefix`.
pub open spec fn starts_with_spec(s: Seq<char>, prefix: Seq<char>) -> bool {
    prefix.len() <= s.len() && s.take(prefix.len() as int) == prefix
}

/// The address that is parsed for `input`: `input` itself where it begins
/// with `https:`, else `input` after `https://`.
pub open spec fn with_https(input: Seq<char>) -> Seq<char> {
    if starts_with_spec(input, https_scheme()) {
        input
    } else {
        https_prefix() + input
    }
}

/// Whether `s` begins with `prefix`.
pub fn starts_with(s: &str, prefix: &str) -> (b: bool)
    ensures
        b == starts_with_spec(s@, prefix@),
{
    let v = chars_of(s);
    let p = chars_of(prefix);
    if p.len() > v.len() {
        return false;
    }
    let mut i: usize = 0;
    while i < p.len()
        invariant
            i <= p.len() <= v.len(),
            v@ == s@,
            p@ == prefix@,
            forall|j: int| 0 <= j < i ==> v@[j] == p@[j],
        decreases p.len() - i,
    {
        if v[i] != p[i] {
            assert(v@.take(p@.len() as int)[i as int] == v@[i as int]);
            return false;
        }
        i += 1;
    }
    assert(v@.take(p@.len() as int) =~= p@);
    true
}

/// Puts `https://` before `input` unless it begins with `https:`.
pub fn normalize_instance_url(input: &str) -> (out: String)
    ensures
        out@ == with_https(input@),
{
    proof {
        reveal_strlit("https:");
        reveal_strlit("https://");
        assert("https:"@ =~= https_scheme());
        assert("https://"@ =~= https_prefix());
    }
    if starts_with(input, "https:") {
        String::from_str(input)
    } else {
        let mut out = String::from_str("https://");
        out.append(input);
        out
    }
}

/// Whether `parsed`, the serialization of a parsed address or `None`, is
/// accepted as an instance address: it is where it was parsed and begins with
/// `https:`.
pub open spec fn accepted_instance(parsed: Option<Seq<char>>) -> bool {
    parsed matches Some(text) && starts_with_spec(text, https_scheme())
}

/// Decides on a parsed instance address. `parsed` holds the serialization of
/// the address, or the parser's message where it could not be parsed. An
/// address that was parsed is accepted where it uses `https`.
pub fn check_instance_url(parsed: Result<String, String>) -> (r: Result<String, InstanceUrlError>)
    ensures
        match (parsed, r) {
            (Ok(text), Ok(accepted)) => starts_with_spec(text@, https_scheme()) && accepted
                == text,
            (Ok(text), Err(InstanceUrlError::NotHttps)) => !starts_with_spec(
                text@,
                https_scheme(),
            ),
            (Err(message), Err(InstanceUrlError::Unparsable(reported))) => reported == message,
            _ => false,
        },
{
    match parsed {
        Ok(text) => {
            proof {
                reveal_strlit("https:");
                assert("https:"@ =~= https_scheme());
            }
            if starts_with(text.as_str(), "https:") {
                Ok(text)
            } else {
                Err(InstanceUrlError::NotHttps)
            }
        },
        Err(message) => Err(InstanceUrlError::Unparsable(message)),
    }
}

/// Reads the instance address that a user entered: `https://` is put before
/// it where it does not begin with `https:`, it is parsed, and it is
/// accepted where it uses `https`. The accepted address is handed out in
/// its serialized form.
pub fn instance_url(input: &str) -> (r: Result<String, InstanceUrlError>)
    ensures
        r is Ok <==> accepted_instance(url_parse_spec(with_https(input@))),
        r matches Ok(text) ==> Some(text@) == url_parse_spec(with_https(input@)),
        r matches Err(InstanceUrlError::NotHttps) ==> url_parse_spec(with_https(input@)) is Some,
        r matches Err(InstanceUrlError::Unparsable(_)) ==> url_parse_spec(with_https(input@))
            is None,
{
    let candidate = normalize_instance_url(input);
    let parsed = match url_parse(candidate.as_str()) {
        Ok(text) => Ok(text),
        Err(error) => Err(parse_error_message(&error)),
    };
    check_instance_url(parsed)
}

/// The path, below this service's own address, to which the origin service
/// sends a user back.
pub open spec fn swarm_callback_path() -> Seq<char> {
    "/swarm/callback"@
}

/// The path, below this service's own address, to which the destination
/// service sends a user back.
pub open spec fn mastodon_callback_path() -> Seq<char> {
    "/mastodon/callback"@
}

/// The address to which the destination service sends a user back, for a
/// service that is reached at `base_url`.
pub fn mastodon_redirect_uri(base_url: &str) -> (uri: String)
    ensures
        uri@ == base_url@ + mastodon_callback_path(),
{
    let mut uri = String::from_str(base_url);
    uri.append("/mastodon/callback");
    uri
}

/// The address to which the origin service sends a user back, for a
/// service that is reached at `base_url`: the serialization of the parsed
/// address, or the parser's message where the address cannot be parsed.
pub fn swarm_callback_url(base_url: &str) -> (r: Result<String, String>)
    ensures
        match r {
            Ok(text) => url_parse_spec(base_url@ + swarm_callback_path()) == Some(text@),
            Err(_) => url_parse_spec(base_url@ + swarm_callback_path()) is None,
        },
{
    let mut candidate = String::from_str(base_url);
    candidate.append("/swarm/callback");
    match url_parse(candidate.as_str()) {
        Ok(text) => Ok(text),
        Err(error) => Err(parse_error_message(&error)),
    }
}

/// The origin service's page on which a user grants access.
pub open spec fn authenticate_page() -> Seq<char> {
    "https://foursquare.com/oauth2/authenticate"@
}

/// The origin service's address at which a grant is exchanged for an access
/// token.
pub open spec fn access_token_page() -> Seq<char> {
    "https://foursquare.com/oauth2/access_token"@
}

/// The query parameters of the address on which a user grants access.
pub open spec fn authenticate_params(client_id: Seq<char>, callback_url: Seq<char>) -> Seq<
    (Seq<char>, Seq<char>),
> {
    seq![
        ("client_id"@, client_id),
        ("response_type"@, "code"@),
        ("redirect_uri"@, callback_url),
    ]
}

/// The query parameters of the address at which the grant `code` is
/// exchanged for an access token.
pub open spec fn access_token_params(
    client_id: Seq<char>,
    client_secret: Seq<char>,
    callback_url: Seq<char>,
    code: Seq<char>,
) -> Seq<(Seq<char>, Seq<char>)> {
    seq![
        ("client_id"@, client_id),
        ("client_secret"@, client_secret),
        ("grant_type"@, "authorization_code"@),
        ("redirect_uri"@, callback_url),
        ("code"@, code),
    ]
}

/// This service as the origin service knows it: its client identifier and
/// secret, and the address to which the origin service sends a user back.
pub struct SwarmApi {
    client_id: String,
    client_secret: String,
    callback_url: String,
}

/// The mathematical content of a [`SwarmApi`].
pub struct SwarmApiView {
    pub client_id: Seq<char>,
    pub client_secret: Seq<char>,
    pub callback_url: Seq<char>,
}

impl View for SwarmApi {
    type V = SwarmApiView;

    closed spec fn view(&self) -> SwarmApiView {
        SwarmApiView {
            client_id: self.client_id@,
            client_secret: self.client_secret@,
            callback_url: self.callback_url@,
        }
    }
}

/// One query parameter.
fn param(name: &str, value: &str) -> (p: (String, String))
    ensures
        p.deep_view() == (name@, value@),
{
    (String::from_str(name), String::from_str(value))
}

impl SwarmApi {
    /// This service with the given identifier, secret and callback address.
    pub fn new(client_id: String, client_secret: String, callback_url: String) -> (api: SwarmApi)
        ensures
            api@ == (SwarmApiView {
                client_id: client_id@,
                client_secret: client_secret@,
                callback_url: callback_url@,
            }),
    {
        SwarmApi { client_id, client_secret, callback_url }
    }

    /// The address on which a user grants this service access to the
    /// origin service, or `None` where no address results.
    pub fn get_authenticate_url(&self) -> (r: Option<String>)
        ensures
            r.deep_view() == url_with_params_spec(
                authenticate_page(),
                authenticate_params(self@.client_id, self@.callback_url),
            ),
    {
        let mut params: Vec<(String, String)> = Vec::new();
        params.push(param("client_id", self.client_id.as_str()));
        params.push(param("response_type", "code"));
        params.push(param("redirect_uri", self.callback_url.as_str()));
        assert(params.deep_view() =~= authenticate_params(self@.client_id, self@.callback_url));
        match url_parse_with_params("https://foursquare.com/oauth2/authenticate", &params) {
            Ok(text) => Some(text),
            Err(_) => None,
        }
    }

    /// The address at which the grant `code` is exchanged for an access
    /// token, or `None` where no address results.
    pub fn get_access_token_url(&self, code: &str) -> (r: Option<String>)
        ensures
            r.deep_view() == url_with_params_spec(
                access_token_page(),
                access_token_params(
                    self@.client_id,
                    self@.client_secret,
                    self@.callback_url,
                    code@,
                ),
            ),
    {
        let mut params: Vec<(String, String)> = Vec::new();
        params.push(param("client_id", self.client_id.as_str()));
        params.push(param("client_secret", self.client_secret.as_str()));
        params.push(param("grant_type", "authorization_code"));
        params.push(param("redirect_uri", self.callback_url.as_str()));
        params.push(param("code", code));
        assert(params.deep_view() =~= access_token_params(
            self@.client_id,
            self@.client_secret,
            self@.callback_url,
            code@,
        ));
        match url_parse_with_params("https://foursquare.com/oauth2/access_token", &params) {
            Ok(text) => Some(text),
            Err(_) => None,
        }
    }
}

} // verus!
