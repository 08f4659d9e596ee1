//! The connection registry: a mapping from connection id to a handle,
//! holding at most one entry per id.
//!
//! The payload type is generic: the listener files connection handles here,
//! whatever engine reference they carry.

use vstd::prelude::*;

verus! {

/// Compares two byte strings by content.
pub fn bytes_eq(a: &Vec<u8>, b: &Vec<u8>) -> (r: bool)
    ensures
        r == (a@ == b@),
{
    if a.len() != b.len() {
        proof {
            assert(a@ != b@);
        }
        return false;
    }
    let mut i: usize = 0;
    while i < a.len()
        invariant
            i <= a@.len(),
            a@.len() == b@.len(),
            forall|j: int| 0 <= j < i ==> a@[j] == b@[j],
        decreases a@.len() - i,
    {
        if a[i] != b[i] {
            return false;
        }
        i = i + 1;
    }
    proof {
        assert(a@ =~= b@);
    }
    true
}

/// Copies a byte string.
pub fn clone_bytes(a: &Vec<u8>) -> (r: Vec<u8>)
    ensures
        r@ == a@,
{
    let mut out: Vec<u8> = Vec::new();
    let mut i: usize = 0;
    while i < a.len()
        invariant
            i <= a@.len(),
            out@ == a@.take(i as int),
        decreases a@.len() - i,
    {
        out.push(a[i]);
        i = i + 1;
        proof {
            assert(out@ == a@.take(i as int));
        }
    }
    proof {
        assert(a@.take(a@.len() as int) =~= a@);
    }
    out
}

/// A registry of connections keyed by connection id. Keys are unique; lookup
/// is by content.
pub struct Registry<H> {
    entries: Vec<(Vec<u8>, H)>,
}

impl<H> Registry<H> {
    /// The key/handle pairs, in filing order.
    pub closed spec fn entries_seq(self) -> Seq<(Vec<u8>, H)> {
        self.entries@
    }

    /// At most one entry per connection id.
    pub closed spec fn wf(self) -> bool {
        forall|i: int, j: int|
            0 <= i < j < self.entries@.len() ==> self.entries@[i].0@ != self.entries@[j].0@
    }

    /// Whether an entry is filed under `k`.
    pub closed spec fn has_key(self, k: Seq<u8>) -> bool {
        exists|i: int| 0 <= i < self.entries@.len() && self.entries@[i].0@ == k
    }

    /// The index of the entry filed under `k` (meaningful when `has_key`).
    pub closed spec fn index_of(self, k: Seq<u8>) -> int {
        choose|i: int| 0 <= i < self.entries@.len() && self.entries@[i].0@ == k
    }

    /// The handle filed under `k` (meaningful when `has_key`).
    pub closed spec fn value_at(self, k: Seq<u8>) -> H {
        self.entries@[self.index_of(k)].1
    }

    /// How many connections are filed.
    pub closed spec fn spec_len(self) -> nat {
        self.entries@.len()
    }

    /// An empty registry.
    pub fn new() -> (r: Self)
        ensures
            r.wf(),
            r.spec_len() == 0,
            forall|k: Seq<u8>| !r.has_key(k),
    {
        Registry { entries: Vec::new() }
    }

    /// The number of filed connections.
    pub fn len(&self) -> (r: usize)
        ensures
            r == self.spec_len(),
    {
        self.entries.len()
    }

    /// Finds the index of the entry filed under `cid`.
    fn find(&self, cid: &Vec<u8>) -> (r: Option<usize>)
        requires
            self.wf(),
        ensures
            (r is Some) == self.has_key(cid@),
            r matches Some(i) ==> (i < self.entries_seq().len() && self.entries_seq()[i as int].0@
                == cid@ && i as int == self.index_of(cid@)),
    {
        let mut i: usize = 0;
        while i < self.entries.len()
            invariant
                self.wf(),
                i <= self.entries@.len(),
                forall|j: int| 0 <= j < i ==> self.entries@[j].0@ != cid@,
            decreases self.entries@.len() - i,
        {
            if bytes_eq(&self.entries[i].0, cid) {
                proof {
                    assert(self.entries@[i as int].0@ == cid@);
                    assert(self.has_key(cid@));
                    let w = self.index_of(cid@);
                    assert(0 <= w < self.entries@.len() && self.entries@[w].0@ == cid@);
                    assert(w == i as int);
                }
                return Some(i);
            }
            i = i + 1;
        }
        proof {
            assert(!self.has_key(cid@));
        }
        None
    }

    /// Looks up the handle filed under `cid`.
    pub fn get(&self, cid: &Vec<u8>) -> (r: Option<&H>)
        requires
            self.wf(),
        ensures
            (r is Some) == self.has_key(cid@),
            r matches Some(h) ==> *h == self.value_at(cid@),
    {
        match self.find(cid) {
            Some(i) => Some(&self.entries[i].1),
            None => None,
        }
    }

    /// Files `h` under the fresh id `cid`.
    pub fn insert(&mut self, cid: Vec<u8>, h: H)
        requires
            old(self).wf(),
            !old(self).has_key(cid@),
        ensures
            final(self).wf(),
            final(self).has_key(cid@),
            final(self).value_at(cid@) == h,
            final(self).spec_len() == old(self).spec_len() + 1,
            forall|k: Seq<u8>|
                k != cid@ ==> final(self).has_key(k) == old(self).has_key(k),
            forall|k: Seq<u8>|
                k != cid@ && old(self).has_key(k) ==> final(self).value_at(k) == old(
                    self,
                ).value_at(k),
    {
        let ghost old_entries = self.entries@;
        let ghost key = cid@;
        self.entries.push((cid, h));
        proof {
            let n = old_entries.len() as int;
            assert(self.entries@ == old_entries.push((cid, h)));
            assert(self.entries@[n].0@ == key);
            assert forall|i: int, j: int|
                0 <= i < j < self.entries@.len() implies self.entries@[i].0@
                != self.entries@[j].0@ by {
                if j < n {
                    assert(old(self).wf());
                } else {
                    assert(j == n);
                    assert(self.entries@[i].0@ != key) by {
                        if self.entries@[i].0@ == key {
                            assert(old(self).has_key(key));
                        }
                    }
                }
            }
            assert(self.has_key(key));
            assert(self.index_of(key) == n) by {
                let w = self.index_of(key);
                if w != n {
                    assert(old_entries[w].0@ == key);
                    assert(old(self).has_key(key));
                }
            }
            assert forall|k: Seq<u8>| k != key implies self.has_key(k) == old(
                self,
            ).has_key(k) by {
                if old(self).has_key(k) {
                    let w = old(self).index_of(k);
                    assert(self.entries@[w].0@ == k);
                }
                if self.has_key(k) {
                    let w = self.index_of(k);
                    assert(w != n);
                    assert(old_entries[w].0@ == k);
                }
            }
            assert forall|k: Seq<u8>| k != key && old(self).has_key(k) implies self.value_at(k) == old(self).value_at(k) by {
                let w0 = old(self).index_of(k);
                assert(old_entries[w0].0@ == k);
                assert(self.entries@[w0].0@ == k);
                let w1 = self.index_of(k);
                assert(self.entries@[w1].0@ == k);
                assert(w1 == w0);
            }
        }
    }

    /// Removes and returns the handle filed under `cid`, if any.
    pub fn remove(&mut self, cid: &Vec<u8>) -> (r: Option<H>)
        requires
            old(self).wf(),
        ensures
            final(self).wf(),
            (r is Some) == old(self).has_key(cid@),
            r matches Some(h) ==> h == old(self).value_at(cid@),
            !final(self).has_key(cid@),
            r is Some ==> final(self).spec_len() == old(self).spec_len() - 1,
            r is None ==> *final(self) == *old(self),
            forall|k: Seq<u8>|
                k != cid@ ==> final(self).has_key(k) == old(self).has_key(k),
            forall|k: Seq<u8>|
                k != cid@ && old(self).has_key(k) ==> final(self).value_at(k) == old(
                    self,
                ).value_at(k),
    {
        let i = match self.find(cid) {
            Some(i) => i,
            None => {
                return None;
            },
        };
        let ghost old_entries = self.entries@;
        let ghost key = cid@;
        let ghost iw = i as int;
        let entry = self.entries.remove(i);
        proof {
            let n = old_entries.len() as int;
            assert(self.entries@ == old_entries.subrange(0, iw) + old_entries.subrange(iw + 1, n));
            assert forall|j: int| 0 <= j < self.entries@.len() implies (self.entries@[j] == (if j
                < iw {
                old_entries[j]
            } else {
                old_entries[j + 1]
            })) by {}
            assert(self.wf());
            assert(!self.has_key(key)) by {
                if self.has_key(key) {
                    let w = self.index_of(key);
                    if w < iw {
                        assert(old_entries[w].0@ == key && old_entries[iw].0@ == key);
                    } else {
                        assert(old_entries[w + 1].0@ == key && old_entries[iw].0@ == key);
                    }
                }
            }
            assert forall|k: Seq<u8>| k != key implies self.has_key(k) == old(
                self,
            ).has_key(k) by {
                if old(self).has_key(k) {
                    let w = old(self).index_of(k);
                    assert(old_entries[w].0@ == k);
                    assert(w != iw);
                    if w < iw {
                        assert(self.entries@[w].0@ == k);
                    } else {
                        assert(self.entries@[w - 1].0@ == k);
                    }
                }
                if self.has_key(k) {
                    let w = self.index_of(k);
                    if w < iw {
                        assert(old_entries[w].0@ == k);
                    } else {
                        assert(old_entries[w + 1].0@ == k);
                    }
                }
            }
            assert forall|k: Seq<u8>| k != key && old(self).has_key(k) implies self.value_at(k) == old(self).value_at(k) by {
                let w0 = old(self).index_of(k);
                assert(old_entries[w0].0@ == k);
                assert(w0 != iw);
                let w1 = self.index_of(k);
                if w0 < iw {
                    assert(self.entries@[w0].0@ == k);
                    assert(w1 == w0);
                } else {
                    assert(self.entries@[w0 - 1].0@ == k);
                    assert(w1 == w0 - 1);
                }
            }
        }
        Some(entry.1)
    }

}

} // verus!
