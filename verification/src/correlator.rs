//! The pending map: request identifiers and the completion slots that wait
//! for their replies.
//!
//! A slot is whatever the caller fulfils to unblock a waiter; the correlator
//! only keeps it and hands it back, once. An identifier has at most one slot
//! at any time, and a slot leaves the map exactly once: by the resolve that
//! matches it, by a later registration under its identifier, or by
//! cancellation.

use vstd::prelude::*;
use crate::text::str_eq;

verus! {

/// The slot registered under `id`, if there is one.
pub open spec fn slot_of<S>(entries: Seq<(Seq<char>, S)>, id: Seq<char>) -> Option<S>
    decreases entries.len(),
{
    if entries.len() == 0 {
        None
    } else if entries.last().0 == id {
        Some(entries.last().1)
    } else {
        slot_of(entries.drop_last(), id)
    }
}

/// The entries without those registered under `id`.
pub open spec fn without<S>(entries: Seq<(Seq<char>, S)>, id: Seq<char>) -> Seq<(Seq<char>, S)> {
    entries.filter(|e: (Seq<char>, S)| e.0 != id)
}

/// Whether no identifier occurs twice.
pub open spec fn distinct_ids<S>(entries: Seq<(Seq<char>, S)>) -> bool {
    forall|i: int, j: int|
        0 <= i < j < entries.len() ==> (#[trigger] entries[i]).0 != (#[trigger] entries[j]).0
}

/// The slots of the entries, in order.
pub open spec fn slots<S>(entries: Seq<(Seq<char>, S)>) -> Seq<S> {
    entries.map_values(|e: (Seq<char>, S)| e.1)
}

/// What became of a reply.
#[derive(Debug)]
pub enum Resolution<S, R> {
    /// A waiter was found: the caller fulfils `slot` with `result`.
    Deliver { slot: S, result: R },
    /// Nobody waits under this identifier: the reply is dropped.
    Orphaned { result: R },
}

/// Maps request identifiers to completion slots.
#[derive(Debug)]
pub struct Correlator<S> {
    pending: Vec<(String, S)>,
}

impl<S> Correlator<S> {
    /// The pending entries, oldest first.
    pub closed spec fn entries(&self) -> Seq<(Seq<char>, S)> {
        self.pending@.map_values(|e: (String, S)| (e.0@, e.1))
    }

    #[verifier::type_invariant]
    spec fn one_slot_per_id(&self) -> bool {
        distinct_ids(self.entries())
    }

    /// A correlator with nothing pending.
    pub fn new() -> (c: Self)
        ensures
            c.entries() == Seq::<(Seq<char>, S)>::empty(),
    {
        let c = Correlator { pending: Vec::new() };
        proof {
            assert(c.entries() =~= Seq::<(Seq<char>, S)>::empty());
        }
        c
    }

    /// How many requests are pending.
    pub fn len(&self) -> (n: usize)
        ensures
            n == self.entries().len(),
            distinct_ids(self.entries()),
    {
        proof {
            use_type_invariant(self);
        }
        self.pending.len()
    }

    /// The position of `id` among the pending entries.
    fn position(&self, id: &str) -> (r: Option<usize>)
        ensures
            match r {
                Some(i) => i < self.entries().len() && self.entries()[i as int].0 == id@,
                None => forall|k: int| 0 <= k < self.entries().len() ==> self.entries()[k].0 != id@,
            },
    {
        let mut i: usize = 0;
        while i < self.pending.len()
            invariant
                i <= self.pending.len(),
                self.entries().len() == self.pending.len(),
                forall|k: int| 0 <= k < i ==> self.entries()[k].0 != id@,
            decreases self.pending.len() - i,
        {
            if str_eq(self.pending[i].0.as_str(), id) {
                return Some(i);
            }
            i += 1;
        }
        None
    }

    /// Whether a request is pending under `id`.
    pub fn is_pending(&self, id: &str) -> (r: bool)
        ensures
            r == (slot_of(self.entries(), id@) is Some),
    {
        let found = self.position(id);
        proof {
            use_type_invariant(self);
            match found {
                Some(i) => lemma_slot_at(self.entries(), i as int),
                None => lemma_slot_absent(self.entries(), id@),
            }
        }
        found.is_some()
    }

    /// Removes the entry under `id`, if there is one, and returns its slot.
    fn take(&mut self, id: &str) -> (r: Option<S>)
        ensures
            r == slot_of(old(self).entries(), id@),
            final(self).entries() == without(old(self).entries(), id@),
    {
        let found = self.position(id);
        proof {
            use_type_invariant(&*self);
        }
        match found {
            Some(i) => {
                let ghost before = self.entries();
                let mut pending: Vec<(String, S)> = Vec::new();
                std::mem::swap(&mut self.pending, &mut pending);
                let (_, slot) = pending.remove(i);
                proof {
                    assert(distinct_ids(before.remove(i as int)));
                    assert(pending@.map_values(|e: (String, S)| (e.0@, e.1)) =~= before.remove(
                        i as int,
                    ));
                }
                self.pending = pending;
                proof {
                    lemma_slot_at(before, i as int);
                    lemma_without_at(before, i as int);
                    assert(self.entries() =~= before.remove(i as int));
                }
                Some(slot)
            },
            None => {
                proof {
                    lemma_slot_absent(self.entries(), id@);
                    lemma_without_absent(self.entries(), id@);
                }
                None
            },
        }
    }

    /// Registers `slot` under `id`. This must happen before the request is
    /// handed on, or its reply may arrive first and be dropped. A slot that
    /// was pending under the same identifier is replaced and returned: its
    /// waiter can no longer be answered.
    pub fn register(&mut self, id: String, slot: S) -> (replaced: Option<S>)
        ensures
            replaced == slot_of(old(self).entries(), id@),
            final(self).entries() == without(old(self).entries(), id@).push((id@, slot)),
            slot_of(final(self).entries(), id@) == Some(slot),
            distinct_ids(final(self).entries()),
    {
        let replaced = self.take(id.as_str());
        let ghost rest = self.entries();
        proof {
            use_type_invariant(&*self);
            lemma_without_has_not(old(self).entries(), id@);
        }
        let mut pending: Vec<(String, S)> = Vec::new();
        std::mem::swap(&mut self.pending, &mut pending);
        pending.push((id, slot));
        proof {
            assert(pending@.map_values(|e: (String, S)| (e.0@, e.1)) =~= rest.push((id@, slot)));
            assert(distinct_ids(rest.push((id@, slot))));
        }
        self.pending = pending;
        proof {
            assert(self.entries() =~= rest.push((id@, slot)));
            use_type_invariant(&*self);
        }
        replaced
    }

    /// Takes the reply to the request `id`. Where a slot is pending under
    /// `id` it leaves the map and comes back together with the reply, for the
    /// caller to fulfil; otherwise nothing changes and the reply comes back as
    /// an orphan, to be logged and dropped.
    pub fn resolve<R>(&mut self, id: &str, result: R) -> (r: Resolution<S, R>)
        ensures
            final(self).entries() == without(old(self).entries(), id@),
            r == resolution(old(self).entries(), id@, result),
            distinct_ids(final(self).entries()),
    {
        let taken = self.take(id);
        proof {
            use_type_invariant(&*self);
        }
        match taken {
            Some(slot) => Resolution::Deliver { slot, result },
            None => Resolution::Orphaned { result },
        }
    }

    /// Empties the map and returns every slot that was pending, oldest first,
    /// for the caller to close: each waiter then fails with a closed channel.
    pub fn cancel_all(&mut self) -> (cancelled: Vec<S>)
        ensures
            final(self).entries() == Seq::<(Seq<char>, S)>::empty(),
            cancelled@ == slots(old(self).entries()),
    {
        let ghost all = self.entries();
        let mut pending: Vec<(String, S)> = Vec::new();
        std::mem::swap(&mut self.pending, &mut pending);
        proof {
            assert(self.entries() =~= Seq::<(Seq<char>, S)>::empty());
        }
        let mut cancelled: Vec<S> = Vec::new();
        while pending.len() > 0
            invariant
                cancelled@ + slots(pending@.map_values(|e: (String, S)| (e.0@, e.1))) == slots(all),
            decreases pending.len(),
        {
            let ghost before = pending@.map_values(|e: (String, S)| (e.0@, e.1));
            let (_, slot) = pending.remove(0);
            cancelled.push(slot);
            proof {
                let after = pending@.map_values(|e: (String, S)| (e.0@, e.1));
                assert(after =~= before.remove(0));
                assert(cancelled@ + slots(after) =~= slots(all));
            }
        }
        proof {
            assert(cancelled@ =~= slots(all));
        }
        cancelled
    }
}

/// A reply on its way to the slot that waits for it.
pub open spec fn delivered<S, R>(slot: S, result: R) -> Resolution<S, R> {
    Resolution::Deliver { slot, result }
}

/// A reply that nobody waits for.
pub open spec fn orphaned<S, R>(result: R) -> Resolution<S, R> {
    Resolution::Orphaned { result }
}

/// What a resolve returns on given entries.
pub open spec fn resolution<S, R>(entries: Seq<(Seq<char>, S)>, id: Seq<char>, result: R) -> Resolution<
    S,
    R,
> {
    match slot_of(entries, id) {
        Some(slot) => Resolution::Deliver { slot, result },
        None => Resolution::Orphaned { result },
    }
}

proof fn lemma_slot_absent<S>(entries: Seq<(Seq<char>, S)>, id: Seq<char>)
    requires
        forall|k: int| 0 <= k < entries.len() ==> entries[k].0 != id,
    ensures
        slot_of(entries, id) is None,
    decreases entries.len(),
{
    if entries.len() > 0 {
        lemma_slot_absent(entries.drop_last(), id);
    }
}

proof fn lemma_slot_at<S>(entries: Seq<(Seq<char>, S)>, i: int)
    requires
        distinct_ids(entries),
        0 <= i < entries.len(),
    ensures
        slot_of(entries, entries[i].0) == Some(entries[i].1),
    decreases entries.len(),
{
    if i < entries.len() - 1 {
        assert(entries[i].0 != entries[entries.len() - 1].0);
        lemma_slot_at(entries.drop_last(), i);
    }
}

proof fn lemma_without_absent<S>(entries: Seq<(Seq<char>, S)>, id: Seq<char>)
    requires
        forall|k: int| 0 <= k < entries.len() ==> entries[k].0 != id,
    ensures
        without(entries, id) == entries,
    decreases entries.len(),
{
    reveal(Seq::filter);
    if entries.len() > 0 {
        lemma_without_absent(entries.drop_last(), id);
        assert(entries.drop_last().push(entries.last()) == entries);
    }
}

proof fn lemma_without_at<S>(entries: Seq<(Seq<char>, S)>, i: int)
    requires
        distinct_ids(entries),
        0 <= i < entries.len(),
    ensures
        without(entries, entries[i].0) == entries.remove(i),
    decreases entries.len(),
{
    reveal(Seq::filter);
    let id = entries[i].0;
    let head = entries.drop_last();
    if i == entries.len() - 1 {
        assert forall|k: int| 0 <= k < head.len() implies head[k].0 != id by {
            assert(entries[k].0 != entries[i].0);
        }
        lemma_without_absent(head, id);
        assert(entries.remove(i) == head);
    } else {
        assert(entries[i].0 != entries[entries.len() - 1].0);
        lemma_without_at(head, i);
        assert(entries.remove(i) == head.remove(i).push(entries.last()));
    }
}

proof fn lemma_without_has_not<S>(entries: Seq<(Seq<char>, S)>, id: Seq<char>)
    ensures
        forall|k: int| 0 <= k < without(entries, id).len() ==> without(entries, id)[k].0 != id,
{
    let pred = |e: (Seq<char>, S)| e.0 != id;
    entries.filter_lemma(pred);
}

proof fn lemma_absent_slot<S>(entries: Seq<(Seq<char>, S)>, id: Seq<char>)
    requires
        slot_of(entries, id) is None,
    ensures
        forall|k: int| 0 <= k < entries.len() ==> entries[k].0 != id,
    decreases entries.len(),
{
    if entries.len() > 0 {
        let head = entries.drop_last();
        lemma_absent_slot(head, id);
        assert forall|k: int| 0 <= k < entries.len() implies entries[k].0 != id by {
            if k < head.len() {
                assert(head[k] == entries[k]);
            }
        }
    }
}

/// A request that was registered and is then resolved has its reply
/// delivered to the very slot it was registered with, and the reply arrives
/// unchanged. A second reply to the same request finds no slot: nothing is
/// resolved twice.
pub proof fn law_registered_then_resolved_once<S, R>(
    entries: Seq<(Seq<char>, S)>,
    id: Seq<char>,
    slot: S,
    first: R,
    second: R,
)
    ensures
        ({
            let registered = without(entries, id).push((id, slot));
            let resolved = without(registered, id);
            &&& resolution(registered, id, first) == delivered(slot, first)
            &&& resolution(resolved, id, second) == orphaned::<S, R>(second)
        }),
{
    let registered = without(entries, id).push((id, slot));
    assert(registered.last() == (id, slot));
    lemma_without_has_not(registered, id);
    lemma_slot_absent(without(registered, id), id);
}

/// Whatever was pending, once a request is resolved a further reply to it is
/// an orphan and leaves the map as it is.
pub proof fn law_never_resolved_twice<S, R>(entries: Seq<(Seq<char>, S)>, id: Seq<char>, result: R)
    ensures
        resolution(without(entries, id), id, result) == orphaned::<S, R>(result),
        without(without(entries, id), id) == without(entries, id),
{
    lemma_without_has_not(entries, id);
    lemma_slot_absent(without(entries, id), id);
    lemma_without_absent(without(entries, id), id);
}

/// A reply to a request that is not pending changes nothing and is handed
/// back as an orphan.
pub proof fn law_unregistered_resolve_is_noop<S, R>(
    entries: Seq<(Seq<char>, S)>,
    id: Seq<char>,
    result: R,
)
    requires
        slot_of(entries, id) is None,
    ensures
        without(entries, id) == entries,
        resolution(entries, id, result) == orphaned::<S, R>(result),
{
    lemma_absent_slot(entries, id);
    lemma_without_absent(entries, id);
}

/// Registering or resolving one request leaves the slot of every other
/// request where it is.
pub proof fn law_other_requests_untouched<S>(
    entries: Seq<(Seq<char>, S)>,
    id: Seq<char>,
    other: Seq<char>,
    slot: S,
)
    requires
        id != other,
    ensures
        slot_of(without(entries, other), id) == slot_of(entries, id),
        slot_of(without(entries, other).push((other, slot)), id) == slot_of(entries, id),
    decreases entries.len(),
{
    reveal(Seq::filter);
    if entries.len() > 0 {
        let head = entries.drop_last();
        law_other_requests_untouched(head, id, other, slot);
        if entries.last().0 != other {
            assert(without(entries, other) == without(head, other).push(entries.last()));
            assert(without(entries, other).drop_last() == without(head, other));
        } else {
            assert(without(entries, other) == without(head, other));
        }
    }
    let pushed = without(entries, other).push((other, slot));
    assert(pushed.drop_last() == without(entries, other));
}

} // verus!
