//! The relay dispatcher: what a post for a checkin says, and the steps by
//! which one checkin is relayed.
//!
//! Relaying a checkin takes two calls to the outside world, one for the
//! checkin's short link and one that sends the post. The dispatcher decides
//! what to do next from where it stands and what came back; whoever drives it
//! makes the calls.

use crate::friends::FriendsMap;
use crate::swarm::{
    get_shout, location_display, resolve_annotation, SwarmCheckin, SwarmCheckinDetail,
    SwarmCheckinView, SwarmVenueView,
};
use vstd::prelude::*;
use vstd::string::*;

verus! {

/// What to do with a checkin whose annotation resolves to nothing.
#[derive(Debug, Clone, Copy, PartialEq, Eq, Structural)]
pub enum NoAnnotationPolicy {
    /// Relay nothing for it.
    Skip,
    /// Relay a post that only says where the user is.
    Announce,
}

/// The channel by which a checkin arrived.
#[derive(Debug, Clone, Copy, PartialEq, Eq, Structural)]
pub enum Channel {
    /// The origin service pushed it to the webhook.
    Push,
    /// A round of polling found it.
    Poll,
}

/// The policy of each channel: a pushed checkin without annotation is
/// announced, a polled one is skipped.
pub open spec fn default_policy_spec(channel: Channel) -> NoAnnotationPolicy {
    match channel {
        Channel::Push => NoAnnotationPolicy::Announce,
        Channel::Poll => NoAnnotationPolicy::Skip,
    }
}

/// The policy that applies to checkins of `channel` unless another is
/// configured.
pub fn default_policy(channel: Channel) -> (policy: NoAnnotationPolicy)
    ensures
        policy == default_policy_spec(channel),
{
    match channel {
        Channel::Push => NoAnnotationPolicy::Announce,
        Channel::Poll => NoAnnotationPolicy::Skip,
    }
}

/// How relaying one checkin ended.
#[derive(Debug)]
pub enum DispatchOutcome {
    /// The post was sent.
    Posted,
    /// There was nothing to say; no post was sent.
    Skipped,
    /// A call failed; the reason is attached.
    Failed(String),
}

/// Where the relaying of one checkin stands.
#[derive(Debug, Clone, Copy, PartialEq, Eq, Structural)]
pub enum DispatchState {
    /// Nothing has been done yet.
    Ready,
    /// The checkin's short link has been asked for.
    AwaitingDetail,
    /// The post has been handed over for sending.
    AwaitingPost,
    /// The outcome has been reported.
    Finished,
}

/// What came back from the outside world.
#[derive(Debug)]
pub enum DispatchEvent {
    /// Relaying is to begin.
    Begin,
    /// The checkin's detail arrived, or fetching it failed for the given
    /// reason.
    Detail(Result<SwarmCheckinDetail, String>),
    /// The post was sent, or sending it failed for the given reason.
    PostResult(Result<(), String>),
}

/// What the driver is to do next.
#[derive(Debug)]
pub enum DispatchAction {
    /// Fetch the detail of the checkin with this identifier.
    FetchDetail(String),
    /// Send a post with this text.
    Post(String),
    /// Stop; relaying ended with this outcome.
    Finish(DispatchOutcome),
}

/// The mathematical content of a [`DispatchOutcome`].
pub enum DispatchOutcomeView {
    Posted,
    Skipped,
    Failed(Seq<char>),
}

impl DeepView for DispatchOutcome {
    type V = DispatchOutcomeView;

    open spec fn deep_view(&self) -> DispatchOutcomeView {
        match self {
            DispatchOutcome::Posted => DispatchOutcomeView::Posted,
            DispatchOutcome::Skipped => DispatchOutcomeView::Skipped,
            DispatchOutcome::Failed(reason) => DispatchOutcomeView::Failed(reason@),
        }
    }
}

/// The mathematical content of a [`DispatchAction`].
pub enum DispatchActionView {
    FetchDetail(Seq<char>),
    Post(Seq<char>),
    Finish(DispatchOutcomeView),
}

impl DeepView for DispatchAction {
    type V = DispatchActionView;

    open spec fn deep_view(&self) -> DispatchActionView {
        match self {
            DispatchAction::FetchDetail(id) => DispatchActionView::FetchDetail(id@),
            DispatchAction::Post(text) => DispatchActionView::Post(text@),
            DispatchAction::Finish(outcome) => DispatchActionView::Finish(outcome.deep_view()),
        }
    }
}

/// The text `" in "`, which introduces a venue's location.
pub open spec fn in_infix() -> Seq<char> {
    seq![' ', 'i', 'n', ' ']
}

/// The text `" (@ "`, which opens the venue of an annotated post.
pub open spec fn venue_open() -> Seq<char> {
    seq![' ', '(', '@', ' ']
}

/// The text `") "`, which closes the venue of an annotated post.
pub open spec fn venue_close() -> Seq<char> {
    seq![')', ' ']
}

/// The text `"I'm at "`, which opens a post without annotation.
pub open spec fn announce_prefix() -> Seq<char> {
    seq!['I', '\'', 'm', ' ', 'a', 't', ' ']
}

/// The reason reported when an event arrives that the state does not expect.
pub open spec fn out_of_turn() -> Seq<char> {
    seq!['o', 'u', 't', ' ', 'o', 'f', ' ', 't', 'u', 'r', 'n']
}

/// A venue as a post names it: its name, followed by `" in "` and the display
/// text of its location where the location has one.
pub open spec fn place_text(venue: SwarmVenueView) -> Seq<char> {
    match location_display(venue.location) {
        Some(display) => venue.name + in_infix() + display,
        None => venue.name,
    }
}

/// The text of the post for a checkin, or `None` where nothing is posted.
/// With an annotation the post is the annotation, the venue in brackets and
/// the short link; without one it is, under the `Announce` policy, the plain
/// statement of where the user is.
pub open spec fn status_text(
    annotation: Option<Seq<char>>,
    venue: SwarmVenueView,
    permalink: Seq<char>,
    policy: NoAnnotationPolicy,
) -> Option<Seq<char>> {
    match annotation {
        Some(text) => Some(text + venue_open() + place_text(venue) + venue_close() + permalink),
        None => match policy {
            NoAnnotationPolicy::Skip => None,
            NoAnnotationPolicy::Announce => Some(
                announce_prefix() + place_text(venue) + seq![' '] + permalink,
            ),
        },
    }
}

/// Composes the post for `checkin`: its annotation resolved against
/// `friends_map`, its venue and `permalink`.
pub fn compose_status(
    checkin: &SwarmCheckin,
    friends_map: &FriendsMap,
    permalink: &str,
    policy: NoAnnotationPolicy,
) -> (r: Option<String>)
    ensures
        r.deep_view() == status_text(
            resolve_annotation(
                checkin.deep_view().shout,
                checkin.deep_view().with,
                friends_map@,
            ),
            checkin.deep_view().venue,
            permalink@,
            policy,
        ),
{
    proof {
        reveal_strlit(" in ");
        reveal_strlit(" (@ ");
        reveal_strlit(") ");
        reveal_strlit("I'm at ");
        reveal_strlit(" ");
        assert(" in "@ =~= in_infix());
        assert(" (@ "@ =~= venue_open());
        assert(") "@ =~= venue_close());
        assert("I'm at "@ =~= announce_prefix());
        assert(" "@ =~= seq![' ']);
    }
    let mut place = checkin.venue.name.clone();
    match checkin.venue.location.to_string() {
        Some(display) => {
            place.append(" in ");
            place.append(display.as_str());
        },
        None => {},
    }
    match get_shout(checkin, friends_map) {
        Some(shout) => {
            let mut status = shout;
            status.append(" (@ ");
            status.append(place.as_str());
            status.append(") ");
            status.append(permalink);
            Some(status)
        },
        None => match policy {
            NoAnnotationPolicy::Skip => None,
            NoAnnotationPolicy::Announce => {
                let mut status = String::from_str("I'm at ");
                status.append(place.as_str());
                status.append(" ");
                status.append(permalink);
                Some(status)
            },
        },
    }
}

/// The dispatcher's rule: the state that follows `state` on `event`, and the
/// action that goes with it.
///
/// From `Ready`, `Begin` asks for the checkin's detail. When the detail
/// arrives, the post is composed and handed over, or relaying ends as skipped
/// where there is nothing to post; when fetching it failed, relaying ends as
/// failed. The result of sending ends relaying as posted or failed. An event
/// that the state does not expect ends relaying as failed.
pub open spec fn dispatch_step_spec(
    state: DispatchState,
    event: DispatchEvent,
    checkin: SwarmCheckinView,
    friends: Map<Seq<char>, Seq<char>>,
    policy: NoAnnotationPolicy,
) -> (DispatchState, DispatchActionView) {
    match (state, event) {
        (DispatchState::Ready, DispatchEvent::Begin) => (
            DispatchState::AwaitingDetail,
            DispatchActionView::FetchDetail(checkin.id),
        ),
        (DispatchState::AwaitingDetail, DispatchEvent::Detail(Ok(detail))) => match status_text(
            resolve_annotation(checkin.shout, checkin.with, friends),
            checkin.venue,
            detail.checkin_short_url@,
            policy,
        ) {
            Some(text) => (DispatchState::AwaitingPost, DispatchActionView::Post(text)),
            None => (
                DispatchState::Finished,
                DispatchActionView::Finish(DispatchOutcomeView::Skipped),
            ),
        },
        (DispatchState::AwaitingDetail, DispatchEvent::Detail(Err(reason))) => (
            DispatchState::Finished,
            DispatchActionView::Finish(DispatchOutcomeView::Failed(reason@)),
        ),
        (DispatchState::AwaitingPost, DispatchEvent::PostResult(Ok(_))) => (
            DispatchState::Finished,
            DispatchActionView::Finish(DispatchOutcomeView::Posted),
        ),
        (DispatchState::AwaitingPost, DispatchEvent::PostResult(Err(reason))) => (
            DispatchState::Finished,
            DispatchActionView::Finish(DispatchOutcomeView::Failed(reason@)),
        ),
        _ => (
            DispatchState::Finished,
            DispatchActionView::Finish(DispatchOutcomeView::Failed(out_of_turn())),
        ),
    }
}

/// Takes one step in relaying `checkin`: from `state` and `event` to the next
/// state and the action that the driver performs.
pub fn dispatch_step(
    state: DispatchState,
    event: DispatchEvent,
    checkin: &SwarmCheckin,
    friends_map: &FriendsMap,
    policy: NoAnnotationPolicy,
) -> (r: (DispatchState, DispatchAction))
    ensures
        (r.0, r.1.deep_view()) == dispatch_step_spec(
            state,
            event,
            checkin.deep_view(),
            friends_map@,
            policy,
        ),
{
    match (state, event) {
        (DispatchState::Ready, DispatchEvent::Begin) => (
            DispatchState::AwaitingDetail,
            DispatchAction::FetchDetail(checkin.id.clone()),
        ),
        (DispatchState::AwaitingDetail, DispatchEvent::Detail(Ok(detail))) => {
            match compose_status(
                checkin,
                friends_map,
                detail.checkin_short_url.as_str(),
                policy,
            ) {
                Some(text) => (DispatchState::AwaitingPost, DispatchAction::Post(text)),
                None => (DispatchState::Finished, DispatchAction::Finish(DispatchOutcome::Skipped)),
            }
        },
        (DispatchState::AwaitingDetail, DispatchEvent::Detail(Err(reason))) => (
            DispatchState::Finished,
            DispatchAction::Finish(DispatchOutcome::Failed(reason)),
        ),
        (DispatchState::AwaitingPost, DispatchEvent::PostResult(Ok(_))) => (
            DispatchState::Finished,
            DispatchAction::Finish(DispatchOutcome::Posted),
        ),
        (DispatchState::AwaitingPost, DispatchEvent::PostResult(Err(reason))) => (
            DispatchState::Finished,
            DispatchAction::Finish(DispatchOutcome::Failed(reason)),
        ),
        _ => {
            proof {
                reveal_strlit("out of turn");
                assert("out of turn"@ =~= out_of_turn());
            }
            (
                DispatchState::Finished,
                DispatchAction::Finish(DispatchOutcome::Failed(String::from_str("out of turn"))),
            )
        },
    }
}

/// The number of posts that are sent when the dispatcher, standing at
/// `state`, is driven through `events` in order.
pub open spec fn posts_sent(
    state: DispatchState,
    events: Seq<DispatchEvent>,
    checkin: SwarmCheckinView,
    friends: Map<Seq<char>, Seq<char>>,
    policy: NoAnnotationPolicy,
) -> nat
    decreases events.len(),
{
    if events.len() == 0 {
        0
    } else {
        let (next, action) = dispatch_step_spec(state, events[0], checkin, friends, policy);
        let rest = posts_sent(next, events.drop_first(), checkin, friends, policy);
        if action is Post {
            1 + rest
        } else {
            rest
        }
    }
}

/// However the dispatcher is driven, it sends at most one post for a
/// checkin, and none once a post has been handed over or relaying has ended.
pub proof fn law_at_most_one_post(
    state: DispatchState,
    events: Seq<DispatchEvent>,
    checkin: SwarmCheckinView,
    friends: Map<Seq<char>, Seq<char>>,
    policy: NoAnnotationPolicy,
)
    ensures
        posts_sent(state, events, checkin, friends, policy) <= 1,
        state is AwaitingPost || state is Finished ==> posts_sent(
            state,
            events,
            checkin,
            friends,
            policy,
        ) == 0,
    decreases events.len(),
{
    if events.len() > 0 {
        let (next, action) = dispatch_step_spec(state, events[0], checkin, friends, policy);
        law_at_most_one_post(next, events.drop_first(), checkin, friends, policy);
    }
}

/// A checkin whose annotation resolves to nothing is never posted under the
/// `Skip` policy, however the dispatcher is driven.
pub proof fn law_skip_sends_nothing(
    state: DispatchState,
    events: Seq<DispatchEvent>,
    checkin: SwarmCheckinView,
    friends: Map<Seq<char>, Seq<char>>,
)
    requires
        resolve_annotation(checkin.shout, checkin.with, friends) is None,
    ensures
        posts_sent(state, events, checkin, friends, NoAnnotationPolicy::Skip) == 0,
    decreases events.len(),
{
    if events.len() > 0 {
        let (next, action) = dispatch_step_spec(
            state,
            events[0],
            checkin,
            friends,
            NoAnnotationPolicy::Skip,
        );
        law_skip_sends_nothing(next, events.drop_first(), checkin, friends);
    }
}

} // verus!
