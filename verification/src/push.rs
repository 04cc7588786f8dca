//! The push path: what becomes of one checkin that the origin service pushes
//! to the webhook.
//!
//! A push is checked, resolved to the account that owns it, relayed, and the
//! account's watermark is set to it. Whatever happens, the sender gets the
//! same empty answer; the verdict is for the log alone.

use crate::dispatch::DispatchOutcome;
use crate::swarm::{SwarmCheckin, SwarmPush};
use crate::text::same_text;
use vstd::prelude::*;

verus! {

/// Why a push ended as it did.
#[derive(Debug, Clone, Copy, PartialEq, Eq, Structural)]
pub enum PushVerdict {
    /// The checkin was handed to the dispatcher and the watermark advanced.
    Relayed,
    /// The shared secret did not match.
    BadSecret,
    /// The checkin could not be read.
    Unparsable,
    /// The checkin is private.
    Private,
    /// The checkin names no author.
    NoAuthor,
    /// No account is linked to the author.
    UnknownAuthor,
    /// The linked account has no record.
    UnknownAccount,
    /// An event arrived that the state did not expect.
    OutOfTurn,
}

/// What the driver reports to the handler.
#[derive(Debug)]
pub enum PushEvent {
    /// A push arrived.
    Received(SwarmPush),
    /// The checkin was read from its wire form, or could not be read.
    Parsed(Option<SwarmCheckin>),
    /// The key of the account linked to the author, if there is one.
    Owner(Option<String>),
    /// Whether the account has a record.
    Account(bool),
    /// The checkin has been handled by the dispatcher, with this outcome.
    Dispatched(DispatchOutcome),
    /// The watermark has been stored.
    Advanced,
}

/// What the driver is to do next.
#[derive(Debug)]
pub enum PushAction {
    /// Read a checkin from this text, then report `Parsed`.
    Parse(String),
    /// Look up the account linked to this author, then report `Owner`.
    FindOwner(String),
    /// Look up the record of this account, then report `Account`.
    FindAccount(String),
    /// Relay the checkin that the handler holds for this account, then
    /// report `Dispatched`.
    Dispatch { account: String },
    /// Store `checkin_id` as the watermark of `account`, then report
    /// `Advanced`.
    Advance { account: String, checkin_id: String },
    /// Answer the sender; the push ended with this verdict.
    Respond(PushVerdict),
}

/// The mathematical content of a [`PushAction`].
pub enum PushActionView {
    Parse(Seq<char>),
    FindOwner(Seq<char>),
    FindAccount(Seq<char>),
    Dispatch { account: Seq<char> },
    Advance { account: Seq<char>, checkin_id: Seq<char> },
    Respond(PushVerdict),
}

impl View for PushAction {
    type V = PushActionView;

    open spec fn view(&self) -> PushActionView {
        match self {
            PushAction::Parse(text) => PushActionView::Parse(text@),
            PushAction::FindOwner(author) => PushActionView::FindOwner(author@),
            PushAction::FindAccount(account) => PushActionView::FindAccount(account@),
            PushAction::Dispatch { account } => PushActionView::Dispatch { account: account@ },
            PushAction::Advance { account, checkin_id } => PushActionView::Advance {
                account: account@,
                checkin_id: checkin_id@,
            },
            PushAction::Respond(verdict) => PushActionView::Respond(*verdict),
        }
    }
}

/// The state of the handler.
pub enum PushStateView {
    /// Nothing has arrived yet.
    Ready,
    /// A push with the right secret is being read.
    Parsing,
    /// The account linked to the checkin's author is being looked up.
    FindingOwner(SwarmCheckin),
    /// The record of the account is being looked up.
    FindingAccount { checkin: SwarmCheckin, account: Seq<char> },
    /// The checkin is being relayed.
    Dispatching { checkin: SwarmCheckin, account: Seq<char> },
    /// The watermark is being stored.
    Advancing,
    /// The sender has been answered.
    Done,
}

impl PushStateView {
    /// What holds of every state that the handler reaches: a checkin that
    /// it holds is not private and names its author.
    pub open spec fn inv(self) -> bool {
        match self {
            PushStateView::FindingOwner(checkin) => !checkin.is_private_spec() && checkin.user is Some,
            PushStateView::FindingAccount { checkin, .. } => !checkin.is_private_spec()
                && checkin.user is Some,
            PushStateView::Dispatching { checkin, .. } => !checkin.is_private_spec()
                && checkin.user is Some,
            _ => true,
        }
    }
}

/// The action that ends a push with `verdict`.
pub open spec fn respond(verdict: PushVerdict) -> (PushStateView, PushActionView) {
    (PushStateView::Done, PushActionView::Respond(verdict))
}

/// The handler's rule: the state that follows `state` on `event` where the
/// configured secret is `secret`, and the action that goes with it.
///
/// A push is rejected where its secret is not the configured one, where its
/// checkin cannot be read, is private or names no author, and where no
/// account is linked to the author or the account has no record. Otherwise
/// it is relayed, and whatever the outcome, the account's watermark is set
/// to the checkin.
pub open spec fn push_step_spec(state: PushStateView, event: PushEvent, secret: Seq<char>) -> (
    PushStateView,
    PushActionView,
) {
    match (state, event) {
        (PushStateView::Ready, PushEvent::Received(push)) => {
            if push.secret@ == secret {
                (PushStateView::Parsing, PushActionView::Parse(push.checkin@))
            } else {
                respond(PushVerdict::BadSecret)
            }
        },
        (PushStateView::Parsing, PushEvent::Parsed(None)) => respond(PushVerdict::Unparsable),
        (PushStateView::Parsing, PushEvent::Parsed(Some(checkin))) => {
            if checkin.is_private_spec() {
                respond(PushVerdict::Private)
            } else {
                match checkin.user {
                    None => respond(PushVerdict::NoAuthor),
                    Some(author) => (
                        PushStateView::FindingOwner(checkin),
                        PushActionView::FindOwner(author.id@),
                    ),
                }
            }
        },
        (PushStateView::FindingOwner(_), PushEvent::Owner(None)) => respond(
            PushVerdict::UnknownAuthor,
        ),
        (PushStateView::FindingOwner(checkin), PushEvent::Owner(Some(account))) => (
            PushStateView::FindingAccount { checkin, account: account@ },
            PushActionView::FindAccount(account@),
        ),
        (PushStateView::FindingAccount { checkin, account }, PushEvent::Account(found)) => {
            if found {
                (
                    PushStateView::Dispatching { checkin, account },
                    PushActionView::Dispatch { account },
                )
            } else {
                respond(PushVerdict::UnknownAccount)
            }
        },
        (PushStateView::Dispatching { checkin, account }, PushEvent::Dispatched(_)) => (
            PushStateView::Advancing,
            PushActionView::Advance { account, checkin_id: checkin.id@ },
        ),
        (PushStateView::Advancing, PushEvent::Advanced) => respond(PushVerdict::Relayed),
        _ => respond(PushVerdict::OutOfTurn),
    }
}

/// The handler's rule keeps the invariant of states, and asks to relay only
/// a checkin that is not private: a private checkin never reaches the
/// dispatcher.
pub proof fn law_push_step_keeps_inv(state: PushStateView, event: PushEvent, secret: Seq<char>)
    requires
        state.inv(),
    ensures
        push_step_spec(state, event, secret).0.inv(),
        push_step_spec(state, event, secret).1 is Dispatch ==> {
            &&& push_step_spec(state, event, secret).0 matches PushStateView::Dispatching {
                checkin,
                ..
            }
            &&& !checkin.is_private_spec()
        },
        event matches PushEvent::Parsed(Some(checkin)) && checkin.is_private_spec()
            ==> push_step_spec(state, event, secret).0 is Done,
{
}

/// The number of times that the handler, standing at `state`, asks for a
/// checkin to be relayed when it is driven through `events` in order.
pub open spec fn relays_asked(state: PushStateView, events: Seq<PushEvent>, secret: Seq<char>) -> nat
    decreases events.len(),
{
    if events.len() == 0 {
        0
    } else {
        let (next, action) = push_step_spec(state, events[0], secret);
        let rest = relays_asked(next, events.drop_first(), secret);
        if action is Dispatch {
            1 + rest
        } else {
            rest
        }
    }
}

/// Whether no event of `events` brings a checkin that is not private.
pub open spec fn only_private_checkins(events: Seq<PushEvent>) -> bool {
    forall|i: int|
        0 <= i < events.len() ==> match #[trigger] events[i] {
            PushEvent::Parsed(Some(checkin)) => checkin.is_private_spec(),
            _ => true,
        }
}

/// Private checkins never reach the dispatcher: a handler that holds no
/// checkin and is brought private checkins only never asks for one to be
/// relayed, however it is driven.
pub proof fn law_private_push_is_never_relayed(
    state: PushStateView,
    events: Seq<PushEvent>,
    secret: Seq<char>,
)
    requires
        state is Ready || state is Parsing || state is Advancing || state is Done,
        only_private_checkins(events),
    ensures
        relays_asked(state, events, secret) == 0,
    decreases events.len(),
{
    if events.len() > 0 {
        let (next, action) = push_step_spec(state, events[0], secret);
        let rest = events.drop_first();
        assert forall|i: int| 0 <= i < rest.len() implies match #[trigger] rest[i] {
            PushEvent::Parsed(Some(checkin)) => checkin.is_private_spec(),
            _ => true,
        } by {
            assert(rest[i] == events[i + 1]);
        }
        law_private_push_is_never_relayed(next, rest, secret);
    }
}

/// A push is relayed at most once, however the handler is driven.
pub proof fn law_push_relays_at_most_once(
    state: PushStateView,
    events: Seq<PushEvent>,
    secret: Seq<char>,
)
    ensures
        relays_asked(state, events, secret) <= 1,
        state is Dispatching || state is Advancing || state is Done ==> relays_asked(
            state,
            events,
            secret,
        ) == 0,
    decreases events.len(),
{
    if events.len() > 0 {
        let (next, action) = push_step_spec(state, events[0], secret);
        law_push_relays_at_most_once(next, events.drop_first(), secret);
    }
}

/// Where the handler stands.
#[derive(Debug, Clone, Copy, PartialEq, Eq, Structural)]
enum PushPhase {
    Ready,
    Parsing,
    FindingOwner,
    FindingAccount,
    Dispatching,
    Advancing,
    Done,
}

/// The handler of one push. Its view is its state.
pub struct PushHandler {
    secret: String,
    phase: PushPhase,
    checkin: Option<SwarmCheckin>,
    account: String,
}

impl View for PushHandler {
    type V = PushStateView;

    closed spec fn view(&self) -> PushStateView {
        match (self.phase, self.checkin) {
            (PushPhase::Ready, _) => PushStateView::Ready,
            (PushPhase::Parsing, _) => PushStateView::Parsing,
            (PushPhase::FindingOwner, Some(checkin)) => PushStateView::FindingOwner(checkin),
            (PushPhase::FindingAccount, Some(checkin)) => PushStateView::FindingAccount {
                checkin,
                account: self.account@,
            },
            (PushPhase::Dispatching, Some(checkin)) => PushStateView::Dispatching {
                checkin,
                account: self.account@,
            },
            (PushPhase::Advancing, _) => PushStateView::Advancing,
            _ => PushStateView::Done,
        }
    }
}

impl PushHandler {
    #[verifier::type_invariant]
    closed spec fn well_formed(&self) -> bool {
        &&& self@.inv()
        &&& (self.phase == PushPhase::FindingOwner || self.phase == PushPhase::FindingAccount
            || self.phase == PushPhase::Dispatching) ==> self.checkin is Some
    }

    /// The secret that a push must carry.
    pub closed spec fn secret(&self) -> Seq<char> {
        self.secret@
    }

    /// A handler that waits for a push carrying `secret`.
    pub fn new(secret: String) -> (handler: PushHandler)
        ensures
            handler@ == PushStateView::Ready,
            handler.secret() == secret@,
    {
        PushHandler { secret, phase: PushPhase::Ready, checkin: None, account: String::new() }
    }

    /// The checkin that is being relayed, if the handler has asked for it to
    /// be relayed and not yet heard of it.
    pub fn current(&self) -> (r: Option<&SwarmCheckin>)
        ensures
            match self@ {
                PushStateView::Dispatching { checkin, .. } => r matches Some(held) && *held
                    == checkin,
                _ => r is None,
            },
            r matches Some(held) ==> !held.is_private_spec(),
    {
        proof {
            use_type_invariant(self);
        }
        match self.phase {
            PushPhase::Dispatching => self.checkin.as_ref(),
            _ => None,
        }
    }

    /// Takes one step: from the state and `event` to the next state and the
    /// action that the driver performs.
    pub fn step(&mut self, event: PushEvent) -> (action: PushAction)
        ensures
            (final(self)@, action@) == push_step_spec(old(self)@, event, old(self).secret()),
            final(self)@.inv(),
            final(self).secret() == old(self).secret(),
    {
        let mut taken = PushHandler::new(String::new());
        std::mem::swap(self, &mut taken);
        proof {
            use_type_invariant(&taken);
        }
        let PushHandler { secret, phase, checkin, account } = taken;
        let mut next_phase = PushPhase::Done;
        let mut next_checkin: Option<SwarmCheckin> = None;
        let mut next_account = String::new();
        let mut action = PushAction::Respond(PushVerdict::OutOfTurn);
        match (phase, event) {
            (PushPhase::Ready, PushEvent::Received(push)) => {
                if same_text(push.secret.as_str(), secret.as_str()) {
                    next_phase = PushPhase::Parsing;
                    action = PushAction::Parse(push.checkin);
                } else {
                    action = PushAction::Respond(PushVerdict::BadSecret);
                }
            },
            (PushPhase::Parsing, PushEvent::Parsed(None)) => {
                action = PushAction::Respond(PushVerdict::Unparsable);
            },
            (PushPhase::Parsing, PushEvent::Parsed(Some(parsed))) => {
                if parsed.is_private() {
                    action = PushAction::Respond(PushVerdict::Private);
                } else {
                    match &parsed.user {
                        None => {
                            action = PushAction::Respond(PushVerdict::NoAuthor);
                        },
                        Some(author) => {
                            action = PushAction::FindOwner(author.id.clone());
                            next_phase = PushPhase::FindingOwner;
                            next_checkin = Some(parsed);
                        },
                    }
                }
            },
            (PushPhase::FindingOwner, PushEvent::Owner(None)) => {
                action = PushAction::Respond(PushVerdict::UnknownAuthor);
            },
            (PushPhase::FindingOwner, PushEvent::Owner(Some(owner))) => {
                action = PushAction::FindAccount(owner.clone());
                next_phase = PushPhase::FindingAccount;
                next_checkin = checkin;
                next_account = owner;
            },
            (PushPhase::FindingAccount, PushEvent::Account(found)) => {
                if found {
                    action = PushAction::Dispatch { account: account.clone() };
                    next_phase = PushPhase::Dispatching;
                    next_checkin = checkin;
                    next_account = account;
                } else {
                    action = PushAction::Respond(PushVerdict::UnknownAccount);
                }
            },
            (PushPhase::Dispatching, PushEvent::Dispatched(_)) => {
                match checkin {
                    Some(held) => {
                        action = PushAction::Advance { account, checkin_id: held.id };
                        next_phase = PushPhase::Advancing;
                    },
                    None => {},
                }
            },
            (PushPhase::Advancing, PushEvent::Advanced) => {
                action = PushAction::Respond(PushVerdict::Relayed);
            },
            _ => {},
        }
        *self = PushHandler {
            secret,
            phase: next_phase,
            checkin: next_checkin,
            account: next_account,
        };
        action
    }
}

} // verus!
