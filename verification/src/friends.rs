//! The friends map: from a companion's handle on the origin service to that
//! companion's identifier on the destination service.

use crate::text::{lines_spec, split_lines, split_once, split_once_spec, texts};
use vstd::hash_map::StringHashMap;
use vstd::prelude::*;

verus! {

/// A lookup table from origin-service handles to destination-service
/// identifiers. Its view is the finite map from handle to identifier.
pub struct FriendsMap {
    entries: StringHashMap<String>,
}

impl View for FriendsMap {
    type V = Map<Seq<char>, Seq<char>>;

    closed spec fn view(&self) -> Map<Seq<char>, Seq<char>> {
        Map::new(|k: Seq<char>| self.entries@.contains_key(k), |k: Seq<char>| self.entries@[k]@)
    }
}

impl FriendsMap {
    /// An empty friends map.
    pub fn new() -> (m: FriendsMap)
        ensures
            m@ == Map::<Seq<char>, Seq<char>>::empty(),
    {
        let m = FriendsMap { entries: StringHashMap::new() };
        assert(m@ =~= Map::<Seq<char>, Seq<char>>::empty());
        m
    }

    /// Records that `handle` is known as `mastodon_id`; an earlier entry for
    /// the same handle is replaced.
    pub fn insert(&mut self, handle: String, mastodon_id: String)
        ensures
            final(self)@ == old(self)@.insert(handle@, mastodon_id@),
    {
        let ghost before = self@;
        let ghost h = handle@;
        let ghost id = mastodon_id@;
        self.entries.insert(handle, mastodon_id);
        assert(self@ =~= before.insert(h, id));
    }

    /// The destination identifier recorded for `handle`, if any.
    pub fn get(&self, handle: &str) -> (r: Option<&String>)
        ensures
            r is Some <==> self@.contains_key(handle@),
            r matches Some(id) ==> id@ == self@[handle@],
    {
        self.entries.get(handle)
    }

    /// Whether `handle` has an entry.
    pub fn contains_key(&self, handle: &str) -> (b: bool)
        ensures
            b == self@.contains_key(handle@),
    {
        self.entries.contains_key(handle)
    }
}

/// Why the text of a friends map could not be read.
#[derive(Debug, Clone, Copy, PartialEq, Eq, Structural)]
pub enum FriendsMapError {
    /// The line at this position, counted from zero, holds no `=`.
    InvalidLine(usize),
}

/// The position of the first of `lines` that holds no `=`, or the number
/// of lines where each holds one.
pub open spec fn first_invalid_line(lines: Seq<Seq<char>>) -> int
    decreases lines.len(),
{
    if lines.len() == 0 {
        0
    } else {
        let front = first_invalid_line(lines.drop_last());
        if front < lines.len() - 1 {
            front
        } else if split_once_spec(lines.last(), '=') is None {
            lines.len() - 1
        } else {
            lines.len() as int
        }
    }
}

/// The map that `lines` spell out: each line gives the handle before its
/// first `=` the identifier after it, and a later line overrides an earlier
/// one for the same handle. A line without `=` gives nothing.
pub open spec fn entries_of(lines: Seq<Seq<char>>) -> Map<Seq<char>, Seq<char>>
    decreases lines.len(),
{
    if lines.len() == 0 {
        Map::empty()
    } else {
        match split_once_spec(lines.last(), '=') {
            Some((handle, id)) => entries_of(lines.drop_last()).insert(handle, id),
            None => entries_of(lines.drop_last()),
        }
    }
}

/// Reads a friends map from `content`, which holds one entry per line in
/// the form `handle=identifier`. Every line must hold a `=`; the first that
/// does not is reported.
pub fn parse_friends_map(content: &str) -> (r: Result<FriendsMap, FriendsMapError>)
    ensures
        match r {
            Ok(map) => first_invalid_line(lines_spec(content@)) == lines_spec(content@).len()
                && map@ == entries_of(lines_spec(content@)),
            Err(FriendsMapError::InvalidLine(at)) => at == first_invalid_line(
                lines_spec(content@),
            ) && at < lines_spec(content@).len(),
        },
{
    let lines = split_lines(content);
    let ghost all = texts(lines@);
    let mut map = FriendsMap::new();
    let mut i: usize = 0;
    assert(all.take(0) == Seq::<Seq<char>>::empty());
    while i < lines.len()
        invariant
            i <= lines.len(),
            all == texts(lines@),
            all == lines_spec(content@),
            first_invalid_line(all.take(i as int)) == i,
            map@ == entries_of(all.take(i as int)),
        decreases lines.len() - i,
    {
        proof {
            let seen = all.take(i + 1);
            assert(seen.drop_last() == all.take(i as int));
            assert(seen.last() == lines@[i as int]@);
        }
        match split_once(lines[i].as_str(), '=') {
            Some((handle, id)) => {
                map.insert(handle, id);
            },
            None => {
                proof {
                    let seen = all.take(i + 1);
                    assert(split_once_spec(seen.last(), '=') is None);
                    assert(first_invalid_line(seen.drop_last()) == i);
                    assert(first_invalid_line(seen) == i);
                    lemma_first_invalid_line_prefix(all, i + 1);
                }
                return Err(FriendsMapError::InvalidLine(i));
            },
        }
        i += 1;
    }
    assert(all.take(lines@.len() as int) == all);
    Ok(map)
}

/// An invalid line among the first `n` lines is the first invalid line of
/// the whole.
pub proof fn lemma_first_invalid_line_prefix(lines: Seq<Seq<char>>, n: int)
    requires
        0 <= n <= lines.len(),
        first_invalid_line(lines.take(n)) < n,
    ensures
        first_invalid_line(lines) == first_invalid_line(lines.take(n)),
    decreases lines.len() - n,
{
    if n < lines.len() {
        assert(lines.take(n + 1).drop_last() == lines.take(n));
        lemma_first_invalid_line_prefix(lines, n + 1);
    } else {
        assert(lines.take(n) == lines);
    }
}

} // verus!
