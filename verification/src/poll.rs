//! The poll scheduler: one round of polling takes the watermarks of all
//! accounts, fetches every account's feed, reconciles each feed with its
//! watermark, relays what is new oldest first, and advances the watermarks.
//!
//! The scheduler decides; whoever drives it sleeps, fetches, relays and
//! stores, and reports back what happened.

use crate::dispatch::DispatchOutcome;
use crate::engine::{
    lemma_public_checkins, lemma_watermark_index, public_checkins, public_checkins_spec,
    select_new, select_new_spec, watermark_index,
};
use crate::swarm::SwarmCheckin;
use crate::watermark::Watermark;
use vstd::prelude::*;

verus! {

/// The seconds between two rounds of polling.
pub const POLL_INTERVAL_SECS: u64 = 300;

/// What fetching the feed of one account gave: the account's key, the
/// watermark it had when the round began, and the feed, newest first, or the
/// reason why it could not be had.
#[derive(Debug)]
pub struct AccountFeed {
    pub account: String,
    pub watermark: String,
    pub feed: Result<Vec<SwarmCheckin>, String>,
}

/// The new checkins of one account, oldest first.
#[derive(Debug)]
pub struct Batch {
    pub account: String,
    pub checkins: Vec<SwarmCheckin>,
}

/// The mathematical content of a [`Batch`].
pub struct BatchView {
    pub account: Seq<char>,
    pub checkins: Seq<SwarmCheckin>,
}

impl View for Batch {
    type V = BatchView;

    open spec fn view(&self) -> BatchView {
        BatchView { account: self.account@, checkins: self.checkins@ }
    }
}

/// The contents of `batches`, in order.
pub open spec fn batch_views(batches: Seq<Batch>) -> Seq<BatchView> {
    Seq::new(batches.len(), |i: int| batches[i]@)
}

/// The checkins of one account that a round relays: the public checkins of
/// its feed that are newer than its watermark, oldest first. An account
/// whose feed could not be fetched has none.
pub open spec fn fresh_checkins(feed: AccountFeed) -> Seq<SwarmCheckin> {
    match feed.feed {
        Ok(list) => select_new_spec(feed.watermark@, public_checkins_spec(list@)),
        Err(_) => Seq::empty(),
    }
}

/// The batches of a round: one for each account that has new checkins, in
/// the order of `feeds`.
pub open spec fn reconcile_spec(feeds: Seq<AccountFeed>) -> Seq<BatchView>
    decreases feeds.len(),
{
    if feeds.len() == 0 {
        Seq::empty()
    } else if fresh_checkins(feeds.last()).len() == 0 {
        reconcile_spec(feeds.drop_last())
    } else {
        reconcile_spec(feeds.drop_last()).push(
            BatchView {
                account: feeds.last().account@,
                checkins: fresh_checkins(feeds.last()),
            },
        )
    }
}

/// Whether every batch holds at least one checkin and no private one.
pub open spec fn batches_relayable(batches: Seq<BatchView>) -> bool {
    forall|b: int|
        0 <= b < batches.len() ==> {
            &&& (#[trigger] batches[b]).checkins.len() > 0
            &&& forall|i: int|
                0 <= i < batches[b].checkins.len() ==> !(#[trigger] batches[b].checkins[i]).is_private_spec()
        }
}

/// No checkin that a round relays is private.
pub proof fn lemma_fresh_checkins_public(feed: AccountFeed)
    ensures
        forall|i: int|
            0 <= i < fresh_checkins(feed).len() ==> !(#[trigger] fresh_checkins(
                feed,
            )[i]).is_private_spec(),
{
    match feed.feed {
        Ok(list) => {
            let public = public_checkins_spec(list@);
            lemma_public_checkins(list@);
            lemma_watermark_index(feed.watermark@, public);
            let cut = watermark_index(feed.watermark@, public);
            assert forall|i: int| 0 <= i < fresh_checkins(feed).len() implies !(
            #[trigger] fresh_checkins(feed)[i]).is_private_spec() by {
                assert(fresh_checkins(feed)[i] == public[cut - 1 - i]);
            }
        },
        Err(_) => {},
    }
}

/// Every batch of a round holds at least one checkin and no private one.
pub proof fn lemma_reconcile_relayable(feeds: Seq<AccountFeed>)
    ensures
        batches_relayable(reconcile_spec(feeds)),
    decreases feeds.len(),
{
    if feeds.len() > 0 {
        lemma_reconcile_relayable(feeds.drop_last());
        lemma_fresh_checkins_public(feeds.last());
    }
}

/// Reconciling distributes over concatenation: the batches of two lists of
/// feeds, one after the other, are the batches of the first followed by the
/// batches of the second.
pub proof fn lemma_reconcile_concat(a: Seq<AccountFeed>, b: Seq<AccountFeed>)
    ensures
        reconcile_spec(a + b) == reconcile_spec(a) + reconcile_spec(b),
    decreases b.len(),
{
    if b.len() == 0 {
        assert(a + b == a);
    } else {
        lemma_reconcile_concat(a, b.drop_last());
        assert((a + b).drop_last() == a + b.drop_last());
        assert((a + b).last() == b.last());
    }
}

/// An account with new checkins gets its batch whatever became of the other
/// accounts' feeds in the same round.
pub proof fn law_reconcile_isolated(feeds: Seq<AccountFeed>, i: int)
    requires
        0 <= i < feeds.len(),
        fresh_checkins(feeds[i]).len() > 0,
    ensures
        reconcile_spec(feeds).contains(
            BatchView { account: feeds[i].account@, checkins: fresh_checkins(feeds[i]) },
        ),
    decreases feeds.len(),
{
    let batch = BatchView { account: feeds[i].account@, checkins: fresh_checkins(feeds[i]) };
    let front = reconcile_spec(feeds.drop_last());
    if i == feeds.len() - 1 {
        assert(reconcile_spec(feeds).last() == batch);
    } else {
        law_reconcile_isolated(feeds.drop_last(), i);
        let k = choose|k: int| 0 <= k < front.len() && front[k] == batch;
        assert(reconcile_spec(feeds)[k] == batch);
    }
}

/// An account whose feed could not be fetched changes nothing for the
/// others: the round's batches are those of the round without it.
pub proof fn law_failed_fetch_is_isolated(
    before: Seq<AccountFeed>,
    failed: AccountFeed,
    after: Seq<AccountFeed>,
)
    requires
        failed.feed is Err,
    ensures
        reconcile_spec(before + seq![failed] + after) == reconcile_spec(before + after),
{
    lemma_reconcile_concat(before + seq![failed], after);
    lemma_reconcile_concat(before, seq![failed]);
    lemma_reconcile_concat(before, after);
    let single = seq![failed];
    assert(single.last() == failed);
    assert(fresh_checkins(failed).len() == 0);
    assert(single.drop_last() == Seq::<AccountFeed>::empty());
    assert(reconcile_spec(single.drop_last()) == Seq::<BatchView>::empty());
    assert(reconcile_spec(single) == Seq::<BatchView>::empty());
    assert(reconcile_spec(before) + Seq::<BatchView>::empty() == reconcile_spec(before));
}

/// Reconciles the feeds of a round with their watermarks: for every account
/// whose feed was fetched and holds public checkins newer than the
/// watermark, a batch of those checkins, oldest first. An account whose feed
/// could not be fetched is left out and does not affect the others.
pub fn reconcile(feeds: Vec<AccountFeed>) -> (batches: Vec<Batch>)
    ensures
        batch_views(batches@) == reconcile_spec(feeds@),
        batches_relayable(batch_views(batches@)),
{
    let ghost all = feeds@;
    let mut batches: Vec<Batch> = Vec::new();
    for entry in it: feeds
        invariant
            it.seq() == all,
            batch_views(batches@) == reconcile_spec(all.take(it.index())),
    {
        proof {
            let seen = all.take(it.index() + 1);
            assert(seen.drop_last() == all.take(it.index()));
            assert(seen.last() == entry);
        }
        let ghost before = batch_views(batches@);
        let AccountFeed { account, watermark, feed } = entry;
        match feed {
            Ok(list) => {
                let fresh = select_new(watermark.as_str(), public_checkins(list));
                if fresh.len() > 0 {
                    let ghost batch = BatchView { account: account@, checkins: fresh@ };
                    batches.push(Batch { account, checkins: fresh });
                    assert(batch_views(batches@) =~= before.push(batch));
                }
            },
            Err(_) => {},
        }
    }
    proof {
        assert(all.take(all.len() as int) == all);
        lemma_reconcile_relayable(all);
    }
    batches
}

/// The phase of a round.
#[derive(Debug, Clone, Copy, PartialEq, Eq, Structural)]
pub enum PollPhase {
    /// Between two rounds.
    Idle,
    /// The feeds of all accounts are being fetched.
    Fetching,
    /// The feeds have arrived and are to be reconciled.
    Reconciling,
    /// The new checkins are being relayed, account by account.
    Dispatching,
}

/// What the driver reports to the scheduler.
#[derive(Debug)]
pub enum PollEvent {
    /// The interval is over; these are the watermarks of all accounts.
    Tick(Vec<Watermark>),
    /// The feeds were fetched; one entry for each account.
    Fetched(Vec<AccountFeed>),
    /// The scheduler may go on.
    Proceed,
    /// The checkin that was to be relayed has been handled, with this
    /// outcome.
    Dispatched(DispatchOutcome),
    /// The checkin that was to be relayed has not been touched, because the
    /// record of its account is missing or cannot be read.
    Unavailable,
    /// The watermark that was to be advanced has been stored.
    Advanced,
}

/// What the driver is to do next.
#[derive(Debug)]
pub enum PollAction {
    /// Wait this many seconds, then report `Tick` with the watermarks.
    Sleep(u64),
    /// Fetch the feed of each of these accounts, then report `Fetched`.
    FetchFeeds(Vec<Watermark>),
    /// Report `Proceed`.
    Reconcile,
    /// Relay the checkin `checkin_id` of `account`, which the scheduler
    /// holds as its current checkin, then report `Dispatched`; or report
    /// `Unavailable` where the account has no record to relay with.
    Dispatch { account: String, checkin_id: String },
    /// Store `checkin_id` as the watermark of `account`, then report
    /// `Advanced`.
    Advance { account: String, checkin_id: String },
}

/// The mathematical content of a [`PollAction`].
pub enum PollActionView {
    Sleep(u64),
    FetchFeeds(Seq<Watermark>),
    Reconcile,
    Dispatch { account: Seq<char>, checkin_id: Seq<char> },
    Advance { account: Seq<char>, checkin_id: Seq<char> },
}

impl View for PollAction {
    type V = PollActionView;

    open spec fn view(&self) -> PollActionView {
        match self {
            PollAction::Sleep(secs) => PollActionView::Sleep(*secs),
            PollAction::FetchFeeds(accounts) => PollActionView::FetchFeeds(accounts@),
            PollAction::Reconcile => PollActionView::Reconcile,
            PollAction::Dispatch { account, checkin_id } => PollActionView::Dispatch {
                account: account@,
                checkin_id: checkin_id@,
            },
            PollAction::Advance { account, checkin_id } => PollActionView::Advance {
                account: account@,
                checkin_id: checkin_id@,
            },
        }
    }
}

/// The state of the scheduler. While it relays, `batch` is the position of
/// the account in hand and `next` that of the checkin being relayed; `next`
/// equal to the number of the account's checkins means that all of them
/// have been handled and the watermark is being advanced.
pub enum PollStateView {
    Idle,
    Fetching,
    Reconciling(Seq<AccountFeed>),
    Dispatching { batches: Seq<BatchView>, batch: int, next: int },
}

impl PollStateView {
    /// What holds of every state that the scheduler reaches: while it
    /// relays, the positions lie within bounds, every batch holds a checkin,
    /// and none holds a private one.
    pub open spec fn inv(self) -> bool {
        match self {
            PollStateView::Dispatching { batches, batch, next } => {
                &&& batches_relayable(batches)
                &&& 0 <= batch < batches.len()
                &&& 0 <= next <= batches[batch].checkins.len()
            },
            _ => true,
        }
    }

    /// The phase of this state.
    pub open spec fn phase(self) -> PollPhase {
        match self {
            PollStateView::Idle => PollPhase::Idle,
            PollStateView::Fetching => PollPhase::Fetching,
            PollStateView::Reconciling(_) => PollPhase::Reconciling,
            PollStateView::Dispatching { .. } => PollPhase::Dispatching,
        }
    }
}

/// The action that asks for the checkin at `next` of the batch at `batch`.
pub open spec fn dispatch_of(batches: Seq<BatchView>, batch: int, next: int) -> PollActionView {
    PollActionView::Dispatch {
        account: batches[batch].account,
        checkin_id: batches[batch].checkins[next].id@,
    }
}

/// The action that advances the watermark of the account at `batch` to its
/// newest checkin, which is the last of its batch.
pub open spec fn advance_of(batches: Seq<BatchView>, batch: int) -> PollActionView {
    PollActionView::Advance {
        account: batches[batch].account,
        checkin_id: batches[batch].checkins.last().id@,
    }
}

/// The action that advances the watermark of the account at `batch` to the
/// checkin before `next`, the last that was handled.
pub open spec fn advance_to_handled(batches: Seq<BatchView>, batch: int, next: int) -> PollActionView {
    PollActionView::Advance {
        account: batches[batch].account,
        checkin_id: batches[batch].checkins[next - 1].id@,
    }
}

/// The state and action with which the scheduler turns to the account after
/// the one at `batch`, or ends the round where that was the last.
pub open spec fn next_account(batches: Seq<BatchView>, batch: int) -> (
    PollStateView,
    PollActionView,
) {
    if batch + 1 < batches.len() {
        (
            PollStateView::Dispatching { batches, batch: batch + 1, next: 0 },
            dispatch_of(batches, batch + 1, 0),
        )
    } else {
        (PollStateView::Idle, sleep())
    }
}

/// The action that ends a round.
pub open spec fn sleep() -> PollActionView {
    PollActionView::Sleep(POLL_INTERVAL_SECS)
}

/// The scheduler's rule: the state that follows `state` on `event`, and the
/// action that goes with it.
///
/// A round goes from `Idle` through `Fetching` and `Reconciling` to
/// `Dispatching` and back. Reconciling yields the batches; a round without
/// batches ends at once. While relaying, each report of a handled checkin,
/// whatever its outcome, moves on to the account's next checkin; after the
/// last, the account's watermark is advanced to that checkin, and the next
/// account follows. An account that turns out to be unavailable is left:
/// its watermark stays where none of its checkins has been handled, and
/// else is advanced to the checkin handled last. An event that the state
/// does not expect ends the round.
pub open spec fn poll_step_spec(state: PollStateView, event: PollEvent) -> (
    PollStateView,
    PollActionView,
) {
    match (state, event) {
        (PollStateView::Idle, PollEvent::Tick(accounts)) => (
            PollStateView::Fetching,
            PollActionView::FetchFeeds(accounts@),
        ),
        (PollStateView::Fetching, PollEvent::Fetched(feeds)) => (
            PollStateView::Reconciling(feeds@),
            PollActionView::Reconcile,
        ),
        (PollStateView::Reconciling(feeds), PollEvent::Proceed) => {
            let batches = reconcile_spec(feeds);
            if batches.len() == 0 {
                (PollStateView::Idle, sleep())
            } else {
                (
                    PollStateView::Dispatching { batches, batch: 0, next: 0 },
                    dispatch_of(batches, 0, 0),
                )
            }
        },
        (PollStateView::Dispatching { batches, batch, next }, PollEvent::Dispatched(_)) => {
            if next + 1 < batches[batch].checkins.len() {
                (
                    PollStateView::Dispatching { batches, batch, next: next + 1 },
                    dispatch_of(batches, batch, next + 1),
                )
            } else if next + 1 == batches[batch].checkins.len() {
                (
                    PollStateView::Dispatching { batches, batch, next: next + 1 },
                    advance_of(batches, batch),
                )
            } else {
                (PollStateView::Idle, sleep())
            }
        },
        (PollStateView::Dispatching { batches, batch, next }, PollEvent::Unavailable) => {
            if next == 0 {
                next_account(batches, batch)
            } else if next < batches[batch].checkins.len() {
                (
                    PollStateView::Dispatching {
                        batches,
                        batch,
                        next: batches[batch].checkins.len() as int,
                    },
                    advance_to_handled(batches, batch, next),
                )
            } else {
                (PollStateView::Idle, sleep())
            }
        },
        (PollStateView::Dispatching { batches, batch, next }, PollEvent::Advanced) => {
            if next == batches[batch].checkins.len() {
                next_account(batches, batch)
            } else {
                (PollStateView::Idle, sleep())
            }
        },
        _ => (PollStateView::Idle, sleep()),
    }
}

/// The scheduler's rule keeps the invariant of states. With it, whatever the
/// driver reports and in whatever order, a checkin that the scheduler asks to
/// relay is one of a batch, and so never a private one.
pub proof fn law_poll_step_keeps_inv(state: PollStateView, event: PollEvent)
    requires
        state.inv(),
    ensures
        poll_step_spec(state, event).0.inv(),
        poll_step_spec(state, event).1 is Dispatch ==> {
            &&& poll_step_spec(state, event).0 matches PollStateView::Dispatching {
                batches,
                batch,
                next,
            }
            &&& next < batches[batch].checkins.len()
            &&& !batches[batch].checkins[next].is_private_spec()
            &&& poll_step_spec(state, event).1 == dispatch_of(batches, batch, next)
        },
{
    match (state, event) {
        (PollStateView::Reconciling(feeds), PollEvent::Proceed) => {
            lemma_reconcile_relayable(feeds);
        },
        _ => {},
    }
}

/// The poll scheduler. Its view is its state.
pub struct PollScheduler {
    phase: PollPhase,
    feeds: Vec<AccountFeed>,
    batches: Vec<Batch>,
    batch: usize,
    next: usize,
}

impl View for PollScheduler {
    type V = PollStateView;

    closed spec fn view(&self) -> PollStateView {
        match self.phase {
            PollPhase::Idle => PollStateView::Idle,
            PollPhase::Fetching => PollStateView::Fetching,
            PollPhase::Reconciling => PollStateView::Reconciling(self.feeds@),
            PollPhase::Dispatching => PollStateView::Dispatching {
                batches: batch_views(self.batches@),
                batch: self.batch as int,
                next: self.next as int,
            },
        }
    }
}

impl PollScheduler {
    #[verifier::type_invariant]
    closed spec fn well_formed(&self) -> bool {
        self@.inv()
    }

    /// A scheduler between two rounds.
    pub fn new() -> (scheduler: PollScheduler)
        ensures
            scheduler@ == PollStateView::Idle,
    {
        PollScheduler {
            phase: PollPhase::Idle,
            feeds: Vec::new(),
            batches: Vec::new(),
            batch: 0,
            next: 0,
        }
    }

    /// The phase in which the scheduler stands.
    pub fn phase(&self) -> (phase: PollPhase)
        ensures
            phase == self@.phase(),
    {
        self.phase
    }

    /// The checkin that is being relayed, if the scheduler has asked for one
    /// to be relayed and not yet heard of it.
    pub fn current(&self) -> (r: Option<&SwarmCheckin>)
        ensures
            match self@ {
                PollStateView::Dispatching { batches, batch, next } => if next
                    < batches[batch].checkins.len() {
                    r matches Some(checkin) && *checkin == batches[batch].checkins[next]
                } else {
                    r is None
                },
                _ => r is None,
            },
            r matches Some(checkin) ==> !checkin.is_private_spec(),
    {
        proof {
            use_type_invariant(self);
        }
        match self.phase {
            PollPhase::Dispatching => {
                if self.next < self.batches[self.batch].checkins.len() {
                    Some(&self.batches[self.batch].checkins[self.next])
                } else {
                    None
                }
            },
            _ => None,
        }
    }

    /// Takes one step: from the state and `event` to the next state and the
    /// action that the driver performs.
    pub fn step(&mut self, event: PollEvent) -> (action: PollAction)
        ensures
            (final(self)@, action@) == poll_step_spec(old(self)@, event),
            final(self)@.inv(),
    {
        let mut taken = PollScheduler::new();
        std::mem::swap(self, &mut taken);
        proof {
            use_type_invariant(&taken);
        }
        let ghost before = taken@;
        let PollScheduler { phase, feeds, batches, batch, next } = taken;
        assert(phase == PollPhase::Dispatching ==> before == (PollStateView::Dispatching {
            batches: batch_views(batches@),
            batch: batch as int,
            next: next as int,
        }));
        match (phase, event) {
            (PollPhase::Idle, PollEvent::Tick(accounts)) => {
                *self = PollScheduler {
                    phase: PollPhase::Fetching,
                    feeds: Vec::new(),
                    batches: Vec::new(),
                    batch: 0,
                    next: 0,
                };
                PollAction::FetchFeeds(accounts)
            },
            (PollPhase::Fetching, PollEvent::Fetched(fetched)) => {
                *self = PollScheduler {
                    phase: PollPhase::Reconciling,
                    feeds: fetched,
                    batches: Vec::new(),
                    batch: 0,
                    next: 0,
                };
                PollAction::Reconcile
            },
            (PollPhase::Reconciling, PollEvent::Proceed) => {
                let batches = reconcile(feeds);
                if batches.len() == 0 {
                    PollAction::Sleep(POLL_INTERVAL_SECS)
                } else {
                    assert(batch_views(batches@)[0].checkins.len() > 0);
                    let action = PollAction::Dispatch {
                        account: batches[0].account.clone(),
                        checkin_id: batches[0].checkins[0].id.clone(),
                    };
                    *self = PollScheduler {
                        phase: PollPhase::Dispatching,
                        feeds: Vec::new(),
                        batches,
                        batch: 0,
                        next: 0,
                    };
                    action
                }
            },
            (PollPhase::Dispatching, PollEvent::Dispatched(_)) => {
                assert(batch_views(batches@)[batch as int] == batches@[batch as int]@);
                let size = batches[batch].checkins.len();
                if next < size {
                    let action = if next + 1 < size {
                        PollAction::Dispatch {
                            account: batches[batch].account.clone(),
                            checkin_id: batches[batch].checkins[next + 1].id.clone(),
                        }
                    } else {
                        PollAction::Advance {
                            account: batches[batch].account.clone(),
                            checkin_id: batches[batch].checkins[size - 1].id.clone(),
                        }
                    };
                    *self = PollScheduler {
                        phase: PollPhase::Dispatching,
                        feeds: Vec::new(),
                        batches,
                        batch,
                        next: next + 1,
                    };
                    action
                } else {
                    PollAction::Sleep(POLL_INTERVAL_SECS)
                }
            },
            (PollPhase::Dispatching, PollEvent::Unavailable) => {
                assert(batch_views(batches@)[batch as int] == batches@[batch as int]@);
                assert(batch < batches.len());
                let size = batches[batch].checkins.len();
                if next == 0 {
                    if batch + 1 < batches.len() {
                        assert(batch_views(batches@)[batch + 1].checkins.len() > 0);
                        let action = PollAction::Dispatch {
                            account: batches[batch + 1].account.clone(),
                            checkin_id: batches[batch + 1].checkins[0].id.clone(),
                        };
                        *self = PollScheduler {
                            phase: PollPhase::Dispatching,
                            feeds: Vec::new(),
                            batches,
                            batch: batch + 1,
                            next: 0,
                        };
                        action
                    } else {
                        PollAction::Sleep(POLL_INTERVAL_SECS)
                    }
                } else if next < size {
                    let action = PollAction::Advance {
                        account: batches[batch].account.clone(),
                        checkin_id: batches[batch].checkins[next - 1].id.clone(),
                    };
                    *self = PollScheduler {
                        phase: PollPhase::Dispatching,
                        feeds: Vec::new(),
                        batches,
                        batch,
                        next: size,
                    };
                    action
                } else {
                    PollAction::Sleep(POLL_INTERVAL_SECS)
                }
            },
            (PollPhase::Dispatching, PollEvent::Advanced) => {
                assert(batch_views(batches@)[batch as int] == batches@[batch as int]@);
                assert(batch < batches.len());
                if next == batches[batch].checkins.len() && batch + 1 < batches.len() {
                    assert(batch_views(batches@)[batch + 1].checkins.len() > 0);
                    let action = PollAction::Dispatch {
                        account: batches[batch + 1].account.clone(),
                        checkin_id: batches[batch + 1].checkins[0].id.clone(),
                    };
                    *self = PollScheduler {
                        phase: PollPhase::Dispatching,
                        feeds: Vec::new(),
                        batches,
                        batch: batch + 1,
                        next: 0,
                    };
                    action
                } else {
                    PollAction::Sleep(POLL_INTERVAL_SECS)
                }
            },
            _ => PollAction::Sleep(POLL_INTERVAL_SECS),
        }
    }
}

} // verus!
