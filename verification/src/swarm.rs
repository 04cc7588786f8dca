//! Checkins as the origin service reports them, how a venue's location is
//! displayed, and how a checkin's annotation is resolved against the friends
//! map.

use crate::friends::FriendsMap;
use crate::text::{
    ends_with_spec, is_whitespace_spec, join, join_spec, texts, trim, trim_end_spec, trim_spec,
    without_suffix, without_suffix_spec,
};
use vstd::prelude::*;
use vstd::string::*;

verus! {

/// A user of the origin service.
#[derive(Debug)]
pub struct SwarmUser {
    pub id: String,
    pub first_name: String,
    pub last_name: String,
    pub handle: String,
}

/// The mathematical content of a [`SwarmUser`].
pub struct SwarmUserView {
    pub id: Seq<char>,
    pub first_name: Seq<char>,
    pub last_name: Seq<char>,
    pub handle: Seq<char>,
}

impl DeepView for SwarmUser {
    type V = SwarmUserView;

    open spec fn deep_view(&self) -> SwarmUserView {
        SwarmUserView {
            id: self.id@,
            first_name: self.first_name@,
            last_name: self.last_name@,
            handle: self.handle@,
        }
    }
}

/// Where a venue lies; every level is optional.
#[derive(Debug)]
pub struct SwarmLocation {
    country: Option<String>,
    city: Option<String>,
    state: Option<String>,
}

/// The mathematical content of a [`SwarmLocation`].
pub struct SwarmLocationView {
    pub country: Option<Seq<char>>,
    pub city: Option<Seq<char>>,
    pub state: Option<Seq<char>>,
}

impl DeepView for SwarmLocation {
    type V = SwarmLocationView;

    closed spec fn deep_view(&self) -> SwarmLocationView {
        SwarmLocationView {
            country: self.country.deep_view(),
            city: self.city.deep_view(),
            state: self.state.deep_view(),
        }
    }
}

/// The separator between two levels of a location, and between two names.
pub open spec fn comma_space() -> Seq<char> {
    seq![',', ' ']
}

/// The display text of a location: city and state where both are known,
/// else state and country where both are known, else the country alone
/// where it is known, else nothing.
pub open spec fn location_display(loc: SwarmLocationView) -> Option<Seq<char>> {
    match (loc.city, loc.state, loc.country) {
        (Some(city), Some(state), _) => Some(city + comma_space() + state),
        (_, Some(state), Some(country)) => Some(state + comma_space() + country),
        (_, _, Some(country)) => Some(country),
        _ => None,
    }
}

impl SwarmLocation {
    /// A location with the given levels.
    pub fn new(country: Option<String>, city: Option<String>, state: Option<String>) -> (loc:
        SwarmLocation)
        ensures
            loc.deep_view() == (SwarmLocationView {
                country: country.deep_view(),
                city: city.deep_view(),
                state: state.deep_view(),
            }),
    {
        SwarmLocation { country, city, state }
    }

    /// The display text of this location, if it has one.
    pub fn to_string(&self) -> (r: Option<String>)
        ensures
            r.deep_view() == location_display(self.deep_view()),
    {
        proof {
            reveal_strlit(", ");
            assert(", "@ =~= comma_space());
        }
        match (&self.city, &self.state, &self.country) {
            (Some(city), Some(state), _) => {
                let mut out = city.clone();
                out.append(", ");
                out.append(state.as_str());
                Some(out)
            },
            (_, Some(state), Some(country)) => {
                let mut out = state.clone();
                out.append(", ");
                out.append(country.as_str());
                Some(out)
            },
            (_, _, Some(country)) => Some(country.clone()),
            _ => None,
        }
    }
}

/// The place of a checkin.
#[derive(Debug)]
pub struct SwarmVenue {
    pub id: String,
    pub name: String,
    pub location: SwarmLocation,
}

/// The mathematical content of a [`SwarmVenue`].
pub struct SwarmVenueView {
    pub id: Seq<char>,
    pub name: Seq<char>,
    pub location: SwarmLocationView,
}

impl DeepView for SwarmVenue {
    type V = SwarmVenueView;

    open spec fn deep_view(&self) -> SwarmVenueView {
        SwarmVenueView {
            id: self.id@,
            name: self.name@,
            location: self.location.deep_view(),
        }
    }
}

/// One checkin event. `kind` is the event's type as the origin service
/// names it; `with` lists the companions in the order they were given.
#[derive(Debug)]
pub struct SwarmCheckin {
    pub id: String,
    pub kind: String,
    pub private: Option<bool>,
    pub shout: Option<String>,
    pub user: Option<SwarmUser>,
    pub venue: SwarmVenue,
    pub with: Vec<SwarmUser>,
}

/// The mathematical content of a [`SwarmCheckin`].
pub struct SwarmCheckinView {
    pub id: Seq<char>,
    pub kind: Seq<char>,
    pub private: Option<bool>,
    pub shout: Option<Seq<char>>,
    pub user: Option<SwarmUserView>,
    pub venue: SwarmVenueView,
    pub with: Seq<SwarmUserView>,
}

impl DeepView for SwarmCheckin {
    type V = SwarmCheckinView;

    open spec fn deep_view(&self) -> SwarmCheckinView {
        SwarmCheckinView {
            id: self.id@,
            kind: self.kind@,
            private: self.private,
            shout: self.shout.deep_view(),
            user: self.user.deep_view(),
            venue: self.venue.deep_view(),
            with: self.with.deep_view(),
        }
    }
}

impl SwarmCheckin {
    /// Whether the checkin is marked private; an absent mark means public.
    pub open spec fn is_private_spec(&self) -> bool {
        self.private == Some(true)
    }

    /// Whether the checkin is marked private; an absent mark means public.
    #[verifier::when_used_as_spec(is_private_spec)]
    pub fn is_private(&self) -> (b: bool)
        ensures
            b == self.is_private_spec(),
    {
        match self.private {
            Some(p) => p,
            None => false,
        }
    }
}

/// A checkin together with its short link.
#[derive(Debug)]
pub struct SwarmCheckinDetail {
    pub basic: SwarmCheckin,
    pub checkin_short_url: String,
}

/// What the origin service pushes: a checkin in its wire form, and the
/// shared secret.
#[derive(Debug)]
pub struct SwarmPush {
    pub checkin: String,
    pub secret: String,
}

/// Access to the origin service on behalf of one user.
#[derive(Debug)]
pub struct SwarmUserApi {
    pub access_token: String,
}

/// The address of the origin service's interface, up to the method.
pub open spec fn api_base() -> Seq<char> {
    "https://api.foursquare.com/v2"@
}

/// The query that follows the method: the version of the interface, and the
/// name of the parameter that carries the access token.
pub open spec fn api_query() -> Seq<char> {
    "?v=20220722&oauth_token="@
}

/// The method that gives the user's own profile.
pub open spec fn me_method() -> Seq<char> {
    "/users/self"@
}

/// The method that gives the user's recent checkins.
pub open spec fn checkins_method() -> Seq<char> {
    "/users/self/checkins"@
}

/// The method that gives the detail of the checkin `checkin_id`.
pub open spec fn checkin_method(checkin_id: Seq<char>) -> Seq<char> {
    "/checkins/"@ + checkin_id
}

/// The message that says that the user `swarm_id` has no checkin.
pub open spec fn no_checkins_message(swarm_id: Seq<char>) -> Seq<char> {
    "no checkins found for user "@ + swarm_id
}

impl SwarmUserApi {
    /// Access with the given token.
    pub fn new(access_token: String) -> (api: SwarmUserApi)
        ensures
            api.access_token == access_token,
    {
        SwarmUserApi { access_token }
    }

    /// The address to fetch for `method`, with the interface's version and
    /// the access token as its query.
    pub fn endpoint(&self, method: &str) -> (url: String)
        ensures
            url@ == api_base() + method@ + api_query() + self.access_token@,
    {
        let mut url = String::from_str("https://api.foursquare.com/v2");
        url.append(method);
        url.append("?v=20220722&oauth_token=");
        url.append(self.access_token.as_str());
        url
    }

    /// The address that gives the user's own profile.
    pub fn me_endpoint(&self) -> (url: String)
        ensures
            url@ == api_base() + me_method() + api_query() + self.access_token@,
    {
        self.endpoint("/users/self")
    }

    /// The address that gives the user's recent checkins.
    pub fn checkins_endpoint(&self) -> (url: String)
        ensures
            url@ == api_base() + checkins_method() + api_query() + self.access_token@,
    {
        self.endpoint("/users/self/checkins")
    }

    /// The address that gives the detail of the checkin `checkin_id`.
    pub fn checkin_endpoint(&self, checkin_id: &str) -> (url: String)
        ensures
            url@ == api_base() + checkin_method(checkin_id@) + api_query() + self.access_token@,
    {
        let mut method = String::from_str("/checkins/");
        method.append(checkin_id);
        self.endpoint(method.as_str())
    }
}

/// The identifier of the newest checkin of `latest`, a feed listed newest
/// first; where the feed is empty, the message that says so of the user
/// `swarm_id`.
pub fn get_last_checkin(latest: &Vec<SwarmCheckin>, swarm_id: &str) -> (r: Result<String, String>)
    ensures
        match r {
            Ok(id) => latest@.len() > 0 && id@ == latest@[0].id@,
            Err(message) => latest@.len() == 0 && message@ == no_checkins_message(swarm_id@),
        },
{
    if latest.len() > 0 {
        Ok(latest[0].id.clone())
    } else {
        let mut message = String::from_str("no checkins found for user ");
        message.append(swarm_id);
        Err(message)
    }
}

/// The text `"with "`, which introduces the companions of an annotation.
pub open spec fn with_prefix() -> Seq<char> {
    seq!['w', 'i', 't', 'h', ' ']
}

/// The text `" with "`, which joins an annotation and its companions.
pub open spec fn with_infix() -> Seq<char> {
    seq![' ', 'w', 'i', 't', 'h', ' ']
}

/// The first names of the companions, in order.
pub open spec fn first_names(with: Seq<SwarmUserView>) -> Seq<Seq<char>> {
    Seq::new(with.len(), |i: int| with[i].first_name)
}

/// How one companion is named in a post: as a mention of the destination
/// identifier that the friends map has for the companion's handle, else by
/// first name.
pub open spec fn mention(user: SwarmUserView, friends: Map<Seq<char>, Seq<char>>) -> Seq<char> {
    if friends.contains_key(user.handle) {
        seq!['@'] + friends[user.handle]
    } else {
        user.first_name
    }
}

/// The mentions of the companions, in order.
pub open spec fn mentions(with: Seq<SwarmUserView>, friends: Map<Seq<char>, Seq<char>>) -> Seq<
    Seq<char>,
> {
    Seq::new(with.len(), |i: int| mention(with[i], friends))
}

/// The listing of the companions as an annotation ends with it: `"with "`
/// and their first names, separated by commas.
pub open spec fn companion_listing(with: Seq<SwarmUserView>) -> Seq<char> {
    with_prefix() + join_spec(first_names(with), comma_space())
}

/// What is left of an annotation once the listing of the companions is
/// taken from its end, once, with the whitespace around what remains.
pub open spec fn independent_content(shout: Seq<char>, with: Seq<SwarmUserView>) -> Seq<char> {
    trim_spec(without_suffix_spec(shout, companion_listing(with)))
}

/// The annotation that a post carries for a checkin. Without companions it
/// is the checkin's own annotation. With companions, an absent annotation or
/// one that only lists them gives none; otherwise the listing is rewritten
/// with mentions.
pub open spec fn resolve_annotation(
    shout: Option<Seq<char>>,
    with: Seq<SwarmUserView>,
    friends: Map<Seq<char>, Seq<char>>,
) -> Option<Seq<char>> {
    if with.len() == 0 {
        shout
    } else {
        match shout {
            None => None,
            Some(text) => {
                let content = independent_content(text, with);
                if content.len() == 0 {
                    None
                } else {
                    Some(content + with_infix() + join_spec(mentions(with, friends), comma_space()))
                }
            },
        }
    }
}

/// An annotation that already has the resolved form comes back as it is:
/// where `content` is not empty and has no whitespace around it, and the
/// friends map knows none of the companions, the annotation made of
/// `content`, `" with "` and the companions' first names resolves to
/// itself.
pub proof fn law_resolved_annotation_is_kept(
    content: Seq<char>,
    with: Seq<SwarmUserView>,
    friends: Map<Seq<char>, Seq<char>>,
)
    requires
        with.len() > 0,
        content.len() > 0,
        trim_spec(content) == content,
        forall|i: int| 0 <= i < with.len() ==> !friends.contains_key(#[trigger] with[i].handle),
    ensures
        resolve_annotation(
            Some(content + with_infix() + join_spec(first_names(with), comma_space())),
            with,
            friends,
        ) == Some(content + with_infix() + join_spec(first_names(with), comma_space())),
{
    let names = join_spec(first_names(with), comma_space());
    let listing = companion_listing(with);
    let shout = content + with_infix() + names;
    let spaced = content + seq![' '];
    assert(with_infix() =~= seq![' '] + with_prefix());
    assert(shout =~= spaced + listing);
    assert(shout.subrange(shout.len() - listing.len(), shout.len() as int) =~= listing);
    assert(ends_with_spec(shout, listing));
    assert(shout.take(shout.len() - listing.len()) =~= spaced);
    assert(is_whitespace_spec(' '));
    assert(spaced.last() == ' ');
    assert(spaced.drop_last() =~= content);
    assert(trim_end_spec(spaced) == trim_end_spec(content));
    assert(independent_content(shout, with) == content);
    assert(mentions(with, friends) =~= first_names(with));
}

/// The first names of `with`, each as a string of its own.
fn collect_first_names(with: &Vec<SwarmUser>) -> (names: Vec<String>)
    ensures
        texts(names@) == first_names(with.deep_view()),
{
    let mut names: Vec<String> = Vec::new();
    let mut i: usize = 0;
    while i < with.len()
        invariant
            i <= with.len(),
            names.len() == i,
            forall|j: int| 0 <= j < i ==> names@[j]@ == with@[j].first_name@,
        decreases with.len() - i,
    {
        names.push(with[i].first_name.clone());
        i += 1;
    }
    assert(texts(names@) =~= first_names(with.deep_view()));
    names
}

/// The mentions of `with` under `friends`, each as a string of its own.
fn collect_mentions(with: &Vec<SwarmUser>, friends: &FriendsMap) -> (names: Vec<String>)
    ensures
        texts(names@) == mentions(with.deep_view(), friends@),
{
    let mut names: Vec<String> = Vec::new();
    let mut i: usize = 0;
    while i < with.len()
        invariant
            i <= with.len(),
            names.len() == i,
            forall|j: int|
                0 <= j < i ==> names@[j]@ == mention(#[trigger] with@[j].deep_view(), friends@),
        decreases with.len() - i,
    {
        let user = &with[i];
        let name = match friends.get(user.handle.as_str()) {
            Some(mastodon_id) => {
                proof {
                    reveal_strlit("@");
                    assert("@"@ =~= seq!['@']);
                }
                let mut m = String::from_str("@");
                m.append(mastodon_id.as_str());
                m
            },
            None => user.first_name.clone(),
        };
        names.push(name);
        i += 1;
    }
    assert(texts(names@) =~= mentions(with.deep_view(), friends@));
    names
}

/// Resolves the annotation of `checkin` against `friends_map`: the text that
/// a post carries for it, or `None` where the checkin says nothing of its
/// own.
pub fn get_shout(checkin: &SwarmCheckin, friends_map: &FriendsMap) -> (r: Option<String>)
    ensures
        r.deep_view() == resolve_annotation(
            checkin.deep_view().shout,
            checkin.deep_view().with,
            friends_map@,
        ),
        checkin.with@.len() == 0 ==> r.deep_view() == checkin.shout.deep_view(),
{
    let shout = match &checkin.shout {
        Some(shout) => shout,
        None => {
            return None;
        },
    };
    if checkin.with.len() == 0 {
        return Some(shout.clone());
    }
    proof {
        reveal_strlit("with ");
        reveal_strlit(" with ");
        reveal_strlit(", ");
        assert("with "@ =~= with_prefix());
        assert(" with "@ =~= with_infix());
        assert(", "@ =~= comma_space());
    }
    let names = join(&collect_first_names(&checkin.with), ", ");
    let mut with_names = String::from_str("with ");
    with_names.append(names.as_str());

    let unlisted = without_suffix(shout.as_str(), with_names.as_str());
    let stripped = trim(unlisted.as_str());
    if stripped.as_str().is_empty() {
        None
    } else {
        let mut out = stripped;
        out.append(" with ");
        out.append(join(&collect_mentions(&checkin.with, friends_map), ", ").as_str());
        Some(out)
    }
}

} // verus!
