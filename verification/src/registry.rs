//! The per-control registration records and the registry mapping native
//! handles to them.  The surrounding UI runtime owns the registry; the
//! dispatch engine borrows it for exactly one dispatch and hands it back
//! untouched.

use vstd::prelude::*;

use crate::events::{ControlType, Event};

verus! {

/// Per-control record: owning identifier, control type tag, and the ordered
/// callback registrations.  Each registration is a (event, registration-key)
/// pair; the keys registered under one event keep registration order.
pub struct ControlTreeEntry {
    pub id: u64,
    pub control_type: ControlType,
    pub callbacks: Vec<(Event, u64)>,
}

impl ControlTreeEntry {
    /// No callback is ever registered under `Unknown`: it is the silent
    /// no-op classification and carries no registrable callbacks.
    pub open spec fn wf(self) -> bool {
        forall|i: int| 0 <= i < self.callbacks@.len() ==> !((#[trigger] self.callbacks@[i]).0 is Unknown)
    }

    /// The registration keys recorded under one event, in registration order.
    pub open spec fn keys_for(self, e: Event) -> Seq<u64> {
        regs_matching(self.callbacks@, e).map_values(|p: (Event, u64)| p.1)
    }

    pub fn new(id: u64, control_type: ControlType) -> (r: ControlTreeEntry)
        ensures
            r.wf(),
            r.id == id,
            r.control_type == control_type,
            forall|e: Event| #[trigger] r.keys_for(e) =~= Seq::<u64>::empty(),
    {
        let r = ControlTreeEntry { id, control_type, callbacks: Vec::new() };
        proof {
            reveal(Seq::filter);
            assert forall|e: Event| #[trigger] r.keys_for(e) =~= Seq::<u64>::empty() by {
                assert(r.callbacks@.filter(|p: (Event, u64)| p.0 == e) =~= Seq::<(Event, u64)>::empty());
            }
        }
        r
    }

    /// Register one callback key under an event.  `Unknown` is refused: it
    /// carries no registrable callbacks.
    pub fn register_callback(&mut self, e: Event, key: u64) -> (ok: bool)
        requires
            old(self).wf(),
        ensures
            final(self).wf(),
            final(self).id == old(self).id,
            final(self).control_type == old(self).control_type,
            ok == !(e is Unknown),
            ok ==> final(self).keys_for(e) =~= old(self).keys_for(e).push(key),
            ok ==> forall|e2: Event| e2 != e ==> #[trigger] final(self).keys_for(e2)
                =~= old(self).keys_for(e2),
            !ok ==> *final(self) == *old(self),
    {
        if let Event::Unknown = e {
            return false;
        }
        self.callbacks.push((e, key));
        proof {
            broadcast use vstd::seq_lib::group_filter_ensures;

            let olds = old(self).callbacks@;
            assert forall|e2: Event| #[trigger] self.keys_for(e2) =~= (if e2 == e {
                old(self).keys_for(e2).push(key)
            } else {
                old(self).keys_for(e2)
            }) by {
                let pred = |p: (Event, u64)| p.0 == e2;
                olds.lemma_filter_push((e, key), pred);
                assert(olds.push((e, key)).filter(pred) == if pred((e, key)) {
                    olds.filter(pred).push((e, key))
                } else {
                    olds.filter(pred)
                });
            }
        }
        true
    }
}

/// The registrations recorded under one event, in registration order.
pub open spec fn regs_matching(regs: Seq<(Event, u64)>, e: Event) -> Seq<(Event, u64)> {
    regs.filter(|p: (Event, u64)| p.0 == e)
}

/// No registration matches an event that occurs nowhere in the list.
pub proof fn lemma_regs_matching_none(regs: Seq<(Event, u64)>, e: Event)
    requires
        forall|i: int| 0 <= i < regs.len() ==> (#[trigger] regs[i]).0 != e,
    ensures
        regs_matching(regs, e).len() == 0,
    decreases regs.len(),
{
    reveal(Seq::filter);
    if regs.len() > 0 {
        lemma_regs_matching_none(regs.drop_last(), e);
    }
}

/// An entry found under a handle is one of the registry's pairs.
proof fn lemma_lookup_pairs_in(s: Seq<(u64, ControlTreeEntry)>, h: u64)
    requires
        lookup_pairs(s, h) is Some,
    ensures
        exists|i: int| 0 <= i < s.len() && #[trigger] s[i] == (h, lookup_pairs(s, h).unwrap()),
    decreases s.len(),
{
    if s[0].0 == h {
        assert(s[0] == (h, lookup_pairs(s, h).unwrap()));
    } else {
        lemma_lookup_pairs_in(s.drop_first(), h);
        let i = choose|i: int|
            0 <= i < s.drop_first().len() && #[trigger] s.drop_first()[i] == (
            h,
            lookup_pairs(s.drop_first(), h).unwrap(),
            );
        assert(s[i + 1] == (h, lookup_pairs(s, h).unwrap()));
    }
}

/// In a well-formed registry every entry a lookup finds is well formed.
pub proof fn lemma_lookup_wf(reg: ControlRegistry, h: u64)
    requires
        reg.wf(),
        reg.spec_lookup(h) is Some,
    ensures
        reg.spec_lookup(h).unwrap().wf(),
{
    lemma_lookup_pairs_in(reg.entries@, h);
}

/// First-match lookup of a handle in a sequence of (handle, entry) pairs.
pub open spec fn lookup_pairs(s: Seq<(u64, ControlTreeEntry)>, handle: u64) -> Option<
    ControlTreeEntry,
>
    decreases s.len(),
{
    if s.len() == 0 {
        None
    } else if s[0].0 == handle {
        Some(s[0].1)
    } else {
        lookup_pairs(s.drop_first(), handle)
    }
}

/// The registry of all live controls, keyed by native handle.  The UI
/// runtime creates an entry when a control is registered and removes it at
/// teardown; the dispatch engine only reads it.
pub struct ControlRegistry {
    pub entries: Vec<(u64, ControlTreeEntry)>,
}

impl ControlRegistry {
    /// Handles are unique and every entry is well formed.
    pub open spec fn wf(self) -> bool {
        &&& forall|i: int, j: int|
            0 <= i < j < self.entries@.len() ==> (#[trigger] self.entries@[i]).0 != (
            #[trigger] self.entries@[j]).0
        &&& forall|i: int| 0 <= i < self.entries@.len() ==> (#[trigger] self.entries@[i]).1.wf()
    }

    pub open spec fn spec_lookup(self, handle: u64) -> Option<ControlTreeEntry> {
        lookup_pairs(self.entries@, handle)
    }

    pub fn new() -> (r: ControlRegistry)
        ensures
            r.wf(),
            forall|h: u64| #[trigger] r.spec_lookup(h) is None,
    {
        ControlRegistry { entries: Vec::new() }
    }

    /// Register a control under its native handle.  A handle already present
    /// is refused and the registry is left unchanged.
    pub fn insert(&mut self, handle: u64, entry: ControlTreeEntry) -> (ok: bool)
        requires
            old(self).wf(),
            entry.wf(),
        ensures
            final(self).wf(),
            ok == (old(self).spec_lookup(handle) is None),
            ok ==> final(self).spec_lookup(handle) == Some(entry),
            ok ==> forall|h2: u64| h2 != handle ==> #[trigger] final(self).spec_lookup(h2)
                == old(self).spec_lookup(h2),
            !ok ==> *final(self) == *old(self),
    {
        let existing = self.lookup(handle);
        if existing.is_some() {
            return false;
        }
        proof {
            lemma_lookup_none_no_match(self.entries@, handle);
        }
        self.entries.push((handle, entry));
        proof {
            assert forall|h2: u64| #[trigger] self.spec_lookup(h2) == (if h2 == handle {
                Some(entry)
            } else {
                old(self).spec_lookup(h2)
            }) by {
                lemma_lookup_push(old(self).entries@, (handle, entry), h2);
            }
        }
        true
    }

    /// Look a handle up; `None` is the normal path for messages on controls
    /// whose data was never initialized or was already freed.
    pub fn lookup(&self, handle: u64) -> (r: Option<&ControlTreeEntry>)
        ensures
            match r {
                Some(e) => self.spec_lookup(handle) == Some(*e),
                None => self.spec_lookup(handle) is None,
            },
    {
        let n = self.entries.len();
        proof {
            assert(self.entries@.skip(0) =~= self.entries@);
        }
        let mut i: usize = 0;
        while i < n
            invariant
                n == self.entries@.len(),
                i <= n,
                lookup_pairs(self.entries@.skip(i as int), handle) == self.spec_lookup(handle),
            decreases n - i,
        {
            let ghost pre = self.entries@.skip(i as int);
            if self.entries[i].0 == handle {
                proof {
                    assert(pre[0] == self.entries@[i as int]);
                }
                return Some(&self.entries[i].1);
            }
            proof {
                assert(pre[0] == self.entries@[i as int]);
                assert(pre.drop_first() =~= self.entries@.skip(i + 1));
            }
            i += 1;
        }
        proof {
            assert(self.entries@.skip(n as int) =~= Seq::<(u64, ControlTreeEntry)>::empty());
        }
        None
    }
}

/// Appending a pair only changes lookups of its own handle, and only where
/// that handle was absent.
proof fn lemma_lookup_push(s: Seq<(u64, ControlTreeEntry)>, p: (u64, ControlTreeEntry), h: u64)
    ensures
        lookup_pairs(s.push(p), h) == (if lookup_pairs(s, h) is Some {
            lookup_pairs(s, h)
        } else if p.0 == h {
            Some(p.1)
        } else {
            None::<ControlTreeEntry>
        }),
    decreases s.len(),
{
    if s.len() == 0 {
        assert(s.push(p)[0] == p);
        assert(s.push(p).drop_first() =~= Seq::<(u64, ControlTreeEntry)>::empty());
        if p.0 != h {
            assert(lookup_pairs(s.push(p), h) == lookup_pairs(s.push(p).drop_first(), h));
        }
    } else {
        assert(s.push(p)[0] == s[0]);
        assert(s.push(p).drop_first() =~= s.drop_first().push(p));
        lemma_lookup_push(s.drop_first(), p, h);
        if s[0].0 != h {
            assert(lookup_pairs(s.push(p), h) == lookup_pairs(s.drop_first().push(p), h));
            assert(lookup_pairs(s, h) == lookup_pairs(s.drop_first(), h));
        }
    }
}

/// A failed lookup means no pair carries the handle.
proof fn lemma_lookup_none_no_match(s: Seq<(u64, ControlTreeEntry)>, h: u64)
    requires
        lookup_pairs(s, h) is None,
    ensures
        forall|i: int| 0 <= i < s.len() ==> (#[trigger] s[i]).0 != h,
    decreases s.len(),
{
    if s.len() > 0 {
        lemma_lookup_none_no_match(s.drop_first(), h);
        assert forall|i: int| 0 <= i < s.len() implies (#[trigger] s[i]).0 != h by {
            if i > 0 {
                assert(s.drop_first()[i - 1] == s[i]);
            }
        }
    }
}

} // verus!
