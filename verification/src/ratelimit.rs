//! Time-windowed throttling, keyed by endpoint. One map serves both the
//! millisecond-scale aggregate-query rate limit and the second-scale
//! extra-info cooldown; only the window differs.

use vstd::prelude::*;
use vstd::string::*;

verus! {

/// The stamp recorded for `key`: the first matching entry's time, if any.
pub open spec fn spec_last_of(s: Seq<(String, u64)>, key: Seq<char>) -> Option<u64>
    decreases s.len(),
{
    if s.len() == 0 {
        None
    } else if s[0].0@ == key {
        Some(s[0].1)
    } else {
        spec_last_of(s.skip(1), key)
    }
}

/// Replacing the first entry of `key` records the new stamp for `key` and
/// changes no other key's stamp.
proof fn lemma_last_of_update_first(s: Seq<(String, u64)>, i: int, e: (String, u64), key: Seq<char>)
    requires
        0 <= i < s.len(),
        s[i].0@ == key,
        e.0@ == key,
        forall|j: int| 0 <= j < i ==> (#[trigger] s[j]).0@ != key,
    ensures
        spec_last_of(s.update(i, e), key) == Some(e.1),
        forall|k: Seq<char>| k != key ==> spec_last_of(s.update(i, e), k) == spec_last_of(s, k),
    decreases i,
{
    if i == 0 {
        assert(s.update(0, e)[0] == e);
        assert(s.update(0, e).skip(1) =~= s.skip(1));
        assert forall|k: Seq<char>| k != key implies spec_last_of(s.update(0, e), k)
            == spec_last_of(s, k) by {
            assert(spec_last_of(s.update(0, e).skip(1), k) == spec_last_of(s.skip(1), k));
        }
    } else {
        assert(s.update(i, e)[0] == s[0]);
        assert(s.update(i, e).skip(1) =~= s.skip(1).update(i - 1, e));
        assert(forall|j: int| 0 <= j < i - 1 ==> (#[trigger] s.skip(1)[j]).0@ != key);
        lemma_last_of_update_first(s.skip(1), i - 1, e, key);
        assert forall|k: Seq<char>| k != key implies spec_last_of(s.update(i, e), k)
            == spec_last_of(s, k) by {
            assert(spec_last_of(s.skip(1).update(i - 1, e), k) == spec_last_of(s.skip(1), k));
        }
    }
}

/// Appending an entry for an unrecorded key records its stamp and changes no
/// other key's stamp.
proof fn lemma_last_of_push(s: Seq<(String, u64)>, e: (String, u64))
    requires
        spec_last_of(s, e.0@) is None,
    ensures
        spec_last_of(s.push(e), e.0@) == Some(e.1),
        forall|k: Seq<char>| k != e.0@ ==> spec_last_of(s.push(e), k) == spec_last_of(s, k),
    decreases s.len(),
{
    if s.len() == 0 {
        assert(s.push(e)[0] == e);
        assert(s.push(e).skip(1) =~= Seq::<(String, u64)>::empty());
        assert forall|k: Seq<char>| k != e.0@ implies spec_last_of(s.push(e), k) == spec_last_of(
            s,
            k,
        ) by {
            assert(spec_last_of(s.push(e).skip(1), k) == None::<u64>);
        }
    } else {
        assert(s.push(e)[0] == s[0]);
        assert(s.push(e).skip(1) =~= s.skip(1).push(e));
        lemma_last_of_push(s.skip(1), e);
        assert forall|k: Seq<char>| k != e.0@ implies spec_last_of(s.push(e), k) == spec_last_of(
            s,
            k,
        ) by {
            assert(spec_last_of(s.skip(1).push(e), k) == spec_last_of(s.skip(1), k));
        }
    }
}

/// A set of per-key timestamps with window-based admission: a request for a
/// key is let through only if no request for that key was let through within
/// the window before it. Entries are never removed, matching the protocol
/// design of few, long-lived endpoints.
pub struct ThrottleMap {
    entries: Vec<(String, u64)>,
}

impl ThrottleMap {
    /// The stamp this map records for `key`, if any.
    pub closed spec fn spec_last(&self, key: Seq<char>) -> Option<u64> {
        spec_last_of(self.entries@, key)
    }

    /// Whether a request at `now` is let through against a recorded stamp:
    /// always for an unseen key, otherwise only once the window has passed.
    pub open spec fn spec_permits(last: Option<u64>, now: u64, window: u64) -> bool {
        match last {
            None => true,
            Some(t) => now >= t + window,
        }
    }

    /// An empty map: every key is unseen.
    pub fn new() -> (r: Self)
        ensures
            forall|k: Seq<char>| r.spec_last(k) is None,
    {
        ThrottleMap { entries: Vec::new() }
    }

    /// The index of the first entry for `key`, if one exists.
    fn find_first(&self, key: &String) -> (r: Option<usize>)
        ensures
            match r {
                Some(i) => i < self.entries@.len() && self.entries@[i as int].0@ == key@ && (forall|
                    j: int,
                |
                    0 <= j < i ==> (#[trigger] self.entries@[j]).0@ != key@) && self.spec_last(key@)
                    == Some(self.entries@[i as int].1),
                None => self.spec_last(key@) is None,
            },
    {
        let n = self.entries.len();
        let mut i: usize = 0;
        proof {
            assert(self.entries@.skip(0) =~= self.entries@);
        }
        while i < n
            invariant
                i <= n,
                n == self.entries@.len(),
                forall|j: int| 0 <= j < i ==> (#[trigger] self.entries@[j]).0@ != key@,
                spec_last_of(self.entries@, key@) == spec_last_of(
                    self.entries@.skip(i as int),
                    key@,
                ),
            decreases n - i,
        {
            proof {
                assert(self.entries@.skip(i as int)[0] == self.entries@[i as int]);
            }
            if self.entries[i].0 == *key {
                return Some(i);
            }
            proof {
                assert(self.entries@.skip(i as int).skip(1) =~= self.entries@.skip(i as int + 1));
            }
            i = i + 1;
        }
        None
    }

    /// Admits or rejects a request for `key` at time `now`. An admitted
    /// request records `now` as the key's stamp; a rejected one records
    /// nothing. No other key's stamp changes either way, and the recorded
    /// stamp of a key never decreases.
    pub fn permit(&mut self, key: &String, now: u64, window: u64) -> (r: bool)
        requires
            old(self).spec_last(key@) matches Some(t) ==> now >= t,
        ensures
            r == Self::spec_permits(old(self).spec_last(key@), now, window),
            r ==> final(self).spec_last(key@) == Some(now),
            !r ==> final(self).spec_last(key@) == old(self).spec_last(key@),
            forall|k: Seq<char>|
                k != key@ ==> final(self).spec_last(k) == old(self).spec_last(k),
            old(self).spec_last(key@) matches Some(t) ==> (final(self).spec_last(key@) matches
                Some(t2) && t2 >= t),
    {
        match self.find_first(key) {
            Some(i) => {
                let t = self.entries[i].1;
                if now - t < window {
                    false
                } else {
                    let ghost pre = self.entries@;
                    self.entries[i] = (key.clone(), now);
                    proof {
                        assert(self.entries@ =~= pre.update(i as int, self.entries@[i as int]));
                        lemma_last_of_update_first(pre, i as int, self.entries@[i as int], key@);
                    }
                    true
                }
            },
            None => {
                let ghost pre = self.entries@;
                self.entries.push((key.clone(), now));
                proof {
                    lemma_last_of_push(pre, self.entries@.last());
                    assert(self.entries@ =~= pre.push(self.entries@.last()));
                }
                true
            },
        }
    }
}

/// Once a request for a key has been admitted at `t1`, a second request at
/// `t2` is admitted if and only if a full window separates the two. With the
/// rate-limit window this is the aggregate-query rule; with the cooldown
/// window it is the extra-info rule.
pub proof fn lemma_second_request_window(m: ThrottleMap, key: Seq<char>, t1: u64, t2: u64, window: u64)
    requires
        m.spec_last(key) == Some(t1),
        t1 <= t2,
    ensures
        ThrottleMap::spec_permits(m.spec_last(key), t2, window) <==> t2 >= t1 + window,
{
}

} // verus!
