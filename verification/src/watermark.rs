//! The watermark of every account: the identifier of the checkin that was
//! relayed last.

use vstd::hash_map::StringHashMap;
use vstd::prelude::*;

verus! {

/// The watermark of one account, as a snapshot of the store holds it.
#[derive(Debug)]
pub struct Watermark {
    pub account: String,
    pub checkin_id: String,
}

impl Watermark {
    /// The watermark of an account for which nothing has been relayed yet:
    /// the empty identifier.
    pub fn unset(account: String) -> (watermark: Watermark)
        ensures
            watermark.account == account,
            watermark.checkin_id@ == Seq::<char>::empty(),
    {
        Watermark { account, checkin_id: String::new() }
    }
}

/// The watermarks of all accounts. Its view is the finite map from account
/// key to checkin identifier.
pub struct WatermarkStore {
    accounts: Vec<String>,
    latest: StringHashMap<String>,
}

impl View for WatermarkStore {
    type V = Map<Seq<char>, Seq<char>>;

    closed spec fn view(&self) -> Map<Seq<char>, Seq<char>> {
        Map::new(|k: Seq<char>| self.latest@.contains_key(k), |k: Seq<char>| self.latest@[k]@)
    }
}

/// Whether a snapshot lists exactly the entries of `store`, each account
/// once.
pub open spec fn is_snapshot_of(snapshot: Seq<Watermark>, store: Map<Seq<char>, Seq<char>>) -> bool {
    &&& forall|i: int|
        0 <= i < snapshot.len() ==> store.contains_key(#[trigger] snapshot[i].account@)
            && store[snapshot[i].account@] == snapshot[i].checkin_id@
    &&& forall|k: Seq<char>|
        store.contains_key(k) ==> exists|i: int|
            0 <= i < snapshot.len() && #[trigger] snapshot[i].account@ == k
    &&& forall|i: int, j: int|
        0 <= i < j < snapshot.len() ==> snapshot[i].account@ != snapshot[j].account@
}

/// The map that results from recording `entries` in order.
pub open spec fn recorded(entries: Seq<Watermark>) -> Map<Seq<char>, Seq<char>>
    decreases entries.len(),
{
    if entries.len() == 0 {
        Map::empty()
    } else {
        recorded(entries.drop_last()).insert(entries.last().account@, entries.last().checkin_id@)
    }
}

/// Advancing is idempotent, and the last writer wins: advancing an account
/// twice leaves the store as advancing it once to the second identifier
/// does.
pub proof fn law_advance_last_writer_wins(
    store: Map<Seq<char>, Seq<char>>,
    account: Seq<char>,
    first: Seq<char>,
    second: Seq<char>,
)
    ensures
        store.insert(account, first).insert(account, first) == store.insert(account, first),
        store.insert(account, first).insert(account, second) == store.insert(account, second),
        store.insert(account, second)[account] == second,
{
    assert(store.insert(account, first).insert(account, first) =~= store.insert(account, first));
    assert(store.insert(account, first).insert(account, second) =~= store.insert(account, second));
}

/// Advancing one account leaves the watermark of every other account as it
/// was.
pub proof fn law_advance_leaves_others(
    store: Map<Seq<char>, Seq<char>>,
    account: Seq<char>,
    checkin_id: Seq<char>,
    other: Seq<char>,
)
    requires
        other != account,
    ensures
        store.insert(account, checkin_id).contains_key(other) == store.contains_key(other),
        store.contains_key(other) ==> store.insert(account, checkin_id)[other] == store[other],
{
}

/// Whether `accounts` lists exactly the keys of `latest`, each once.
spec fn lists_keys(accounts: Seq<String>, latest: Map<Seq<char>, String>) -> bool {
    &&& forall|i: int| 0 <= i < accounts.len() ==> latest.contains_key(#[trigger] accounts[i]@)
    &&& forall|k: Seq<char>|
        latest.contains_key(k) ==> exists|i: int|
            0 <= i < accounts.len() && #[trigger] accounts[i]@ == k
    &&& forall|i: int, j: int|
        0 <= i < j < accounts.len() ==> #[trigger] accounts[i]@ != #[trigger] accounts[j]@
}

impl WatermarkStore {
    #[verifier::type_invariant]
    closed spec fn well_formed(&self) -> bool {
        lists_keys(self.accounts@, self.latest@)
    }

    /// A store without watermarks.
    pub fn new() -> (store: WatermarkStore)
        ensures
            store@ == Map::<Seq<char>, Seq<char>>::empty(),
    {
        let store = WatermarkStore { accounts: Vec::new(), latest: StringHashMap::new() };
        assert(store@ =~= Map::<Seq<char>, Seq<char>>::empty());
        store
    }

    /// The store that results from recording `entries` in order; a later
    /// entry for an account overrides an earlier one.
    pub fn from_entries(entries: &Vec<Watermark>) -> (store: WatermarkStore)
        ensures
            store@ == recorded(entries@),
    {
        let mut store = WatermarkStore::new();
        let mut i: usize = 0;
        assert(entries@.take(0) == Seq::<Watermark>::empty());
        while i < entries.len()
            invariant
                i <= entries.len(),
                store@ == recorded(entries@.take(i as int)),
            decreases entries.len() - i,
        {
            proof {
                let seen = entries@.take(i + 1);
                assert(seen.drop_last() == entries@.take(i as int));
                assert(seen.last() == entries@[i as int]);
            }
            store.advance(entries[i].account.as_str(), entries[i].checkin_id.as_str());
            i += 1;
        }
        assert(entries@.take(entries@.len() as int) == entries@);
        store
    }

    /// The watermark of `account`, if it has one.
    pub fn get(&self, account: &str) -> (r: Option<&String>)
        ensures
            r is Some <==> self@.contains_key(account@),
            r matches Some(id) ==> id@ == self@[account@],
    {
        self.latest.get(account)
    }

    /// Sets the watermark of `account` to `checkin_id`, whatever it was
    /// before; the other accounts keep theirs.
    pub fn advance(&mut self, account: &str, checkin_id: &str)
        ensures
            final(self)@ == old(self)@.insert(account@, checkin_id@),
    {
        proof {
            use_type_invariant(&*self);
        }
        let ghost before = self@;
        let known = self.latest.contains_key(account);
        let mut taken = WatermarkStore::new();
        std::mem::swap(self, &mut taken);
        proof {
            use_type_invariant(&taken);
        }
        let WatermarkStore { mut accounts, mut latest } = taken;
        let ghost old_accounts = accounts@;
        let ghost old_latest = latest@;
        if !known {
            accounts.push(String::from_str(account));
        }
        latest.insert(String::from_str(account), String::from_str(checkin_id));
        proof {
            assert forall|i: int| 0 <= i < accounts@.len() implies latest@.contains_key(
                #[trigger] accounts@[i]@,
            ) by {
                if i < old_accounts.len() {
                    assert(old_latest.contains_key(old_accounts[i]@));
                }
            }
            assert forall|i: int, j: int| 0 <= i < j < accounts@.len() implies #[trigger] accounts@[i]@
                != #[trigger] accounts@[j]@ by {
                if j < old_accounts.len() {
                    assert(old_accounts[i]@ != old_accounts[j]@);
                } else {
                    assert(old_latest.contains_key(old_accounts[i]@));
                }
            }
            assert forall|k: Seq<char>| latest@.contains_key(k) implies exists|i: int|
                0 <= i < accounts@.len() && #[trigger] accounts@[i]@ == k by {
                if k == account@ && !known {
                    assert(accounts@[accounts@.len() - 1]@ == k);
                } else {
                    let i = choose|i: int|
                        0 <= i < old_accounts.len() && #[trigger] old_accounts[i]@ == k;
                    assert(accounts@[i]@ == k);
                }
            }
        }
        assert(lists_keys(accounts@, latest@));
        *self = WatermarkStore { accounts, latest };
        assert(self@ =~= before.insert(account@, checkin_id@));
    }

    /// The watermarks of all accounts, each account once.
    pub fn snapshot(&self) -> (snapshot: Vec<Watermark>)
        ensures
            is_snapshot_of(snapshot@, self@),
    {
        proof {
            use_type_invariant(self);
        }
        let mut snapshot: Vec<Watermark> = Vec::new();
        let mut i: usize = 0;
        while i < self.accounts.len()
            invariant
                i <= self.accounts.len(),
                snapshot.len() == i,
                self.well_formed(),
                forall|j: int|
                    0 <= j < i ==> (#[trigger] snapshot@[j]).account@ == self.accounts@[j]@
                        && snapshot@[j].checkin_id@ == self.latest@[self.accounts@[j]@]@,
            decreases self.accounts.len() - i,
        {
            let account = &self.accounts[i];
            assert(self.latest@.contains_key(self.accounts@[i as int]@));
            match self.latest.get(account.as_str()) {
                Some(checkin_id) => {
                    snapshot.push(
                        Watermark { account: account.clone(), checkin_id: checkin_id.clone() },
                    );
                },
                None => {},
            }
            i += 1;
        }
        proof {
            assert forall|k: Seq<char>| self@.contains_key(k) implies exists|j: int|
                0 <= j < snapshot@.len() && #[trigger] snapshot@[j].account@ == k by {
                let j = choose|j: int|
                    0 <= j < self.accounts@.len() && #[trigger] self.accounts@[j]@ == k;
                assert(snapshot@[j].account@ == k);
            }
        }
        snapshot
    }
}

} // verus!
