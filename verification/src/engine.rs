//! Deduplication and ordering: which checkins of a feed are newer than the
//! watermark, and in what order they are relayed.
//!
//! A feed lists checkins newest first. Identifiers are compared for equality
//! only; what is newer is decided by position in the feed.

use crate::swarm::SwarmCheckin;
use crate::text::same_text;
use vstd::prelude::*;

verus! {

/// The position of the first checkin of `feed` whose identifier is
/// `watermark`, or the length of `feed` where there is none.
pub open spec fn watermark_index(watermark: Seq<char>, feed: Seq<SwarmCheckin>) -> int
    decreases feed.len(),
{
    if feed.len() == 0 || feed[0].id@ == watermark {
        0
    } else {
        1 + watermark_index(watermark, feed.drop_first())
    }
}

/// The checkins of `feed` that come before the watermark, oldest first.
pub open spec fn select_new_spec(watermark: Seq<char>, feed: Seq<SwarmCheckin>) -> Seq<
    SwarmCheckin,
> {
    feed.take(watermark_index(watermark, feed)).reverse()
}

/// `watermark_index` is the least position that holds the watermark: it lies
/// within the feed's bounds, no checkin before it has the watermark's
/// identifier, and the checkin at it, if there is one, has.
pub proof fn lemma_watermark_index(watermark: Seq<char>, feed: Seq<SwarmCheckin>)
    ensures
        0 <= watermark_index(watermark, feed) <= feed.len(),
        forall|j: int| 0 <= j < watermark_index(watermark, feed) ==> feed[j].id@ != watermark,
        watermark_index(watermark, feed) < feed.len() ==> feed[watermark_index(
            watermark,
            feed,
        )].id@ == watermark,
    decreases feed.len(),
{
    if feed.len() == 0 || feed[0].id@ == watermark {
    } else {
        let rest = feed.drop_first();
        lemma_watermark_index(watermark, rest);
        assert forall|j: int| 0 <= j < watermark_index(watermark, feed) implies feed[j].id@
            != watermark by {
            if j > 0 {
                assert(feed[j] == rest[j - 1]);
            }
        }
        if watermark_index(watermark, feed) < feed.len() {
            assert(feed[watermark_index(watermark, feed)] == rest[watermark_index(watermark, rest)]);
        }
    }
}

/// A position `i` that holds the watermark, with none before it, is the
/// watermark's index.
pub proof fn lemma_watermark_index_is(watermark: Seq<char>, feed: Seq<SwarmCheckin>, i: int)
    requires
        0 <= i <= feed.len(),
        forall|j: int| 0 <= j < i ==> feed[j].id@ != watermark,
        i < feed.len() ==> feed[i].id@ == watermark,
    ensures
        watermark_index(watermark, feed) == i,
{
    lemma_watermark_index(watermark, feed);
    let k = watermark_index(watermark, feed);
    if k < i {
        assert(feed[k].id@ != watermark);
    } else if i < k {
        assert(feed[i].id@ != watermark);
    }
}

/// The checkins of `feed` that are not private, in the feed's order.
pub open spec fn public_checkins_spec(feed: Seq<SwarmCheckin>) -> Seq<SwarmCheckin>
    decreases feed.len(),
{
    if feed.len() == 0 {
        feed
    } else if feed.last().is_private_spec() {
        public_checkins_spec(feed.drop_last())
    } else {
        public_checkins_spec(feed.drop_last()).push(feed.last())
    }
}

/// No private checkin is among the public checkins of a feed, and every
/// public checkin is one of the feed.
pub proof fn lemma_public_checkins(feed: Seq<SwarmCheckin>)
    ensures
        public_checkins_spec(feed).len() <= feed.len(),
        forall|i: int|
            0 <= i < public_checkins_spec(feed).len() ==> {
                &&& !(#[trigger] public_checkins_spec(feed)[i]).is_private_spec()
                &&& feed.contains(public_checkins_spec(feed)[i])
            },
        forall|j: int|
            0 <= j < feed.len() && !feed[j].is_private_spec() ==> public_checkins_spec(
                feed,
            ).contains(#[trigger] feed[j]),
    decreases feed.len(),
{
    if feed.len() > 0 {
        let front = feed.drop_last();
        let kept = public_checkins_spec(feed);
        lemma_public_checkins(front);
        assert forall|i: int| 0 <= i < kept.len() implies {
            &&& !(#[trigger] kept[i]).is_private_spec()
            &&& feed.contains(kept[i])
        } by {
            if i < public_checkins_spec(front).len() {
                let k = choose|k: int|
                    0 <= k < front.len() && front[k] == public_checkins_spec(front)[i];
                assert(feed[k] == kept[i]);
            } else {
                assert(feed[feed.len() - 1] == kept[i]);
            }
        }
        assert forall|j: int| 0 <= j < feed.len() && !feed[j].is_private_spec() implies kept.contains(
            #[trigger] feed[j],
        ) by {
            if j < front.len() {
                assert(front[j] == feed[j]);
                let k = choose|k: int|
                    0 <= k < public_checkins_spec(front).len() && public_checkins_spec(front)[k]
                        == front[j];
                assert(kept[k] == feed[j]);
            } else {
                assert(kept[kept.len() - 1] == feed[j]);
            }
        }
    }
}

/// Drops the private checkins from `feed` and keeps the order of the rest.
pub fn public_checkins(feed: Vec<SwarmCheckin>) -> (public: Vec<SwarmCheckin>)
    ensures
        public@ == public_checkins_spec(feed@),
        forall|i: int| 0 <= i < public.len() ==> !public@[i].is_private_spec(),
{
    let ghost all = feed@;
    let mut public: Vec<SwarmCheckin> = Vec::new();
    for checkin in it: feed
        invariant
            it.seq() == all,
            public@ == public_checkins_spec(all.take(it.index())),
    {
        proof {
            let seen = all.take(it.index() + 1);
            assert(seen.drop_last() == all.take(it.index()));
            assert(seen.last() == checkin);
        }
        if !checkin.is_private() {
            public.push(checkin);
        }
    }
    proof {
        assert(all.take(all.len() as int) == all);
        lemma_public_checkins(all);
    }
    public
}

/// Selects from `candidates`, a feed listed newest first, the checkins that
/// are newer than `watermark`, and returns them oldest first. Where no
/// candidate has the watermark's identifier, all of them are new.
pub fn select_new(watermark: &str, candidates: Vec<SwarmCheckin>) -> (fresh: Vec<SwarmCheckin>)
    ensures
        fresh@ == select_new_spec(watermark@, candidates@),
{
    let mut candidates = candidates;
    let ghost feed = candidates@;
    let mut cut: usize = 0;
    while cut < candidates.len() && !same_text(candidates[cut].id.as_str(), watermark)
        invariant
            cut <= candidates.len(),
            candidates@ == feed,
            forall|j: int| 0 <= j < cut ==> feed[j].id@ != watermark@,
        decreases candidates.len() - cut,
    {
        cut += 1;
    }
    proof {
        lemma_watermark_index_is(watermark@, feed, cut as int);
    }
    candidates.truncate(cut);
    let mut fresh: Vec<SwarmCheckin> = Vec::new();
    while candidates.len() > 0
        invariant
            cut <= feed.len(),
            candidates@ == feed.take(candidates.len() as int),
            candidates.len() + fresh.len() == cut,
            forall|p: int| 0 <= p < fresh.len() ==> fresh@[p] == feed[cut - 1 - p],
        decreases candidates.len(),
    {
        let checkin = candidates.pop().unwrap();
        fresh.push(checkin);
    }
    assert(fresh@ =~= feed.take(cut as int).reverse());
    fresh
}

/// Where the watermark stands at position `i` of the feed, and nowhere
/// before it, the selection is the first `i` checkins, oldest first.
pub proof fn law_select_new_at_watermark(watermark: Seq<char>, feed: Seq<SwarmCheckin>, i: int)
    requires
        0 <= i < feed.len(),
        feed[i].id@ == watermark,
        forall|j: int| 0 <= j < i ==> feed[j].id@ != watermark,
    ensures
        select_new_spec(watermark, feed) == feed.take(i).reverse(),
{
    lemma_watermark_index_is(watermark, feed, i);
}

/// Where no checkin of the feed has the watermark's identifier, the
/// selection is the whole feed, oldest first.
pub proof fn law_select_new_without_watermark(watermark: Seq<char>, feed: Seq<SwarmCheckin>)
    requires
        forall|j: int| 0 <= j < feed.len() ==> feed[j].id@ != watermark,
    ensures
        select_new_spec(watermark, feed) == feed.reverse(),
{
    lemma_watermark_index_is(watermark, feed, feed.len() as int);
    assert(feed.take(feed.len() as int) == feed);
}

/// The selection never holds more than the feed, holds no checkin with the
/// watermark's identifier, and lists the feed's first checkins in reverse:
/// its member at `p` is the feed's member at `len - 1 - p`.
pub proof fn law_select_new_shape(watermark: Seq<char>, feed: Seq<SwarmCheckin>)
    ensures
        select_new_spec(watermark, feed).len() == watermark_index(watermark, feed),
        select_new_spec(watermark, feed).len() <= feed.len(),
        forall|p: int|
            0 <= p < select_new_spec(watermark, feed).len() ==> {
                &&& #[trigger] select_new_spec(watermark, feed)[p] == feed[select_new_spec(
                    watermark,
                    feed,
                ).len() - 1 - p]
                &&& select_new_spec(watermark, feed)[p].id@ != watermark
            },
{
    lemma_watermark_index(watermark, feed);
}

/// Once the watermark stands at position `k` of a feed, no checkin at `k`
/// or after it is selected again: the selection is drawn from the
/// positions before `k` alone.
pub proof fn law_watermark_excludes_handled(watermark: Seq<char>, feed: Seq<SwarmCheckin>, k: int)
    requires
        0 <= k < feed.len(),
        feed[k].id@ == watermark,
    ensures
        select_new_spec(watermark, feed).len() <= k,
        select_new_spec(watermark, feed) == feed.take(k).take(
            watermark_index(watermark, feed),
        ).reverse(),
{
    lemma_watermark_index(watermark, feed);
    let i = watermark_index(watermark, feed);
    if k < i {
        assert(feed[k].id@ != watermark);
    }
    assert(feed.take(k).take(i) == feed.take(i));
}

/// Relaying a batch and advancing the watermark to the identifier of the
/// newest checkin relayed leaves nothing of the same feed to relay: a second
/// selection with the advanced watermark is empty.
pub proof fn law_select_new_idempotent(watermark: Seq<char>, feed: Seq<SwarmCheckin>)
    requires
        select_new_spec(watermark, feed).len() > 0,
    ensures
        select_new_spec(watermark, feed).last() == feed[0],
        select_new_spec(select_new_spec(watermark, feed).last().id@, feed) == Seq::<
            SwarmCheckin,
        >::empty(),
{
    lemma_watermark_index(watermark, feed);
    lemma_watermark_index_is(feed[0].id@, feed, 0);
    assert(feed.take(0).reverse() == Seq::<SwarmCheckin>::empty());
}

/// When newer checkins `newer` arrive in front of a feed whose newest
/// checkin has been relayed and made the watermark, exactly the newer ones
/// are selected, provided none of them bears the watermark's identifier.
pub proof fn law_select_new_after_advance(newer: Seq<SwarmCheckin>, feed: Seq<SwarmCheckin>)
    requires
        feed.len() > 0,
        forall|j: int| 0 <= j < newer.len() ==> newer[j].id@ != feed[0].id@,
    ensures
        select_new_spec(feed[0].id@, newer + feed) == newer.reverse(),
{
    let all = newer + feed;
    lemma_watermark_index_is(feed[0].id@, all, newer.len() as int);
    assert(all.take(newer.len() as int) == newer);
}

} // verus!
