//! Accounts: a user of the destination service, linked to a user of the
//! origin service, and the keys and texts by which an account is known.

use crate::swarm::SwarmUserApi;
use crate::text::{lemma_index_of_is, split_once, split_once_spec};
use vstd::prelude::*;
use vstd::string::*;

verus! {

/// What is needed to act for a user on the destination service.
#[derive(Debug)]
pub struct MastodonData {
    pub base: String,
    pub client_id: String,
    pub client_secret: String,
    pub redirect: String,
    pub token: String,
}

/// This service as one instance of the destination service has registered
/// it. `scopes` holds the granted scopes in their stored form.
#[derive(Debug)]
pub struct AppRegistration {
    pub base: String,
    pub client_id: String,
    pub client_secret: String,
    pub redirect_uri: String,
    pub scopes: Vec<u8>,
}

/// One account. Until the origin service is linked, `swarm_id` and
/// `swarm_access_token` are empty.
#[derive(Debug)]
pub struct User {
    pub mastodon: MastodonData,
    pub swarm_id: String,
    pub swarm_access_token: String,
}

impl User {
    /// The account of a user who has linked the destination service only.
    pub fn new(mastodon: MastodonData) -> (user: User)
        ensures
            user.mastodon == mastodon,
            user.swarm_id@ == Seq::<char>::empty(),
            user.swarm_access_token@ == Seq::<char>::empty(),
    {
        User { mastodon, swarm_id: String::new(), swarm_access_token: String::new() }
    }

    /// Links the origin service: records the user's identifier there and
    /// the access token. The destination side is left as it is.
    pub fn link_swarm(&mut self, swarm_id: String, swarm_access_token: String)
        ensures
            final(self).mastodon == old(self).mastodon,
            final(self).swarm_id == swarm_id,
            final(self).swarm_access_token == swarm_access_token,
    {
        self.swarm_id = swarm_id;
        self.swarm_access_token = swarm_access_token;
    }

    /// Access to the origin service on behalf of this account.
    pub fn get_swarm(&self) -> (api: SwarmUserApi)
        ensures
            api.access_token@ == self.swarm_access_token@,
    {
        SwarmUserApi::new(self.swarm_access_token.clone())
    }
}

/// The key of an account: the instance's address, a colon, and the user's
/// identifier on that instance.
pub open spec fn account_key_spec(instance_url: Seq<char>, mastodon_id: Seq<char>) -> Seq<char> {
    instance_url + seq![':'] + mastodon_id
}

/// The value of the cookie that names a user: the instance's address, a
/// bar, and the user's identifier on that instance.
pub open spec fn user_cookie_spec(instance_url: Seq<char>, mastodon_id: Seq<char>) -> Seq<char> {
    instance_url + seq!['|'] + mastodon_id
}

/// The attributes that every cookie of this service carries.
pub open spec fn cookie_attributes() -> Seq<char> {
    "; Path=/; HttpOnly; Max-Age=604800; Secure"@
}

/// The header line that sets the cookie `key` to `value`.
pub open spec fn set_cookie_spec(key: Seq<char>, value: Seq<char>) -> Seq<char> {
    key + seq!['='] + value + cookie_attributes()
}

/// The key under which the account of `mastodon_id` on `instance_url` is
/// stored.
pub fn account_key(instance_url: &str, mastodon_id: &str) -> (key: String)
    ensures
        key@ == account_key_spec(instance_url@, mastodon_id@),
{
    proof {
        reveal_strlit(":");
        assert(":"@ =~= seq![':']);
    }
    let mut key = String::from_str(instance_url);
    key.append(":");
    key.append(mastodon_id);
    key
}

/// The value of the cookie that names the user `mastodon_id` of
/// `instance_url`.
pub fn user_cookie_value(instance_url: &str, mastodon_id: &str) -> (value: String)
    ensures
        value@ == user_cookie_spec(instance_url@, mastodon_id@),
{
    proof {
        reveal_strlit("|");
        assert("|"@ =~= seq!['|']);
    }
    let mut value = String::from_str(instance_url);
    value.append("|");
    value.append(mastodon_id);
    value
}

/// Reads the value of the cookie that names a user: the instance's address
/// before the first bar and the user's identifier after it. A value without
/// a bar names nobody.
pub fn parse_user_cookie(value: &str) -> (r: Option<(String, String)>)
    ensures
        match r {
            Some((instance_url, mastodon_id)) => split_once_spec(value@, '|') == Some(
                (instance_url@, mastodon_id@),
            ),
            None => split_once_spec(value@, '|') is None,
        },
{
    split_once(value, '|')
}

/// The header line that sets the cookie `key` to `value`, for the whole
/// site, hidden from scripts, for a week, over secure connections only.
pub fn set_cookie_line(key: &str, value: &str) -> (line: String)
    ensures
        line@ == set_cookie_spec(key@, value@),
{
    proof {
        reveal_strlit("=");
        assert("="@ =~= seq!['=']);
    }
    let mut line = String::from_str(key);
    line.append("=");
    line.append(value);
    line.append("; Path=/; HttpOnly; Max-Age=604800; Secure");
    line
}

/// Reading the cookie value written for a user gives the user back,
/// provided the instance's address holds no bar.
pub proof fn law_user_cookie_round_trip(instance_url: Seq<char>, mastodon_id: Seq<char>)
    requires
        forall|i: int| 0 <= i < instance_url.len() ==> instance_url[i] != '|',
    ensures
        split_once_spec(user_cookie_spec(instance_url, mastodon_id), '|') == Some(
            (instance_url, mastodon_id),
        ),
{
    let value = user_cookie_spec(instance_url, mastodon_id);
    lemma_index_of_is(value, '|', instance_url.len() as int);
    assert(value.take(instance_url.len() as int) == instance_url);
    assert(value.skip(instance_url.len() as int + 1) == mastodon_id);
}

} // verus!
