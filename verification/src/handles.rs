//! Handle tables: the slot vectors that give scripts integer ids for values
//! the host keeps (compiled modules, parsed trees, running GUI guests).
//!
//! A stored value goes into the lowest free slot, or a new slot at the end
//! when none is free; its id is the slot's index. Freeing empties the slot
//! so that a later store can reuse it. An id is read as a slot index the
//! way `id as usize` converts it, so a negative id names no slot that a
//! table of realistic size has.

use vstd::prelude::*;

verus! {

/// The lowest index of an empty slot, or the length when every slot is full.
pub open spec fn first_free<T>(slots: Seq<Option<T>>) -> int
    decreases slots.len(),
{
    if slots.len() == 0 {
        0
    } else if slots[0] is None {
        0
    } else {
        1 + first_free(slots.drop_first())
    }
}

/// The slot index that id `id` names.
pub open spec fn slot_index(id: i64) -> int {
    (id as usize) as int
}

/// What `slots` holds under id `id`.
pub open spec fn entry<T>(slots: Seq<Option<T>>, id: i64) -> Option<T> {
    if slot_index(id) < slots.len() {
        slots[slot_index(id)]
    } else {
        None
    }
}

/// The slots after storing `item` at `first_free(slots)`.
pub open spec fn stored<T>(slots: Seq<Option<T>>, item: T) -> Seq<Option<T>> {
    if first_free(slots) < slots.len() {
        slots.update(first_free(slots), Some(item))
    } else {
        slots.push(Some(item))
    }
}

/// The slots after emptying the slot that `id` names, if there is one.
pub open spec fn emptied<T>(slots: Seq<Option<T>>, id: i64) -> Seq<Option<T>> {
    if slot_index(id) < slots.len() {
        slots.update(slot_index(id), None)
    } else {
        slots
    }
}

/// `first_free` is a slot index or the length; every slot before it is full
/// and the slot at it, if any, is empty.
pub proof fn lemma_first_free<T>(slots: Seq<Option<T>>)
    ensures
        0 <= first_free(slots) <= slots.len(),
        forall|j: int| 0 <= j < first_free(slots) ==> slots[j] is Some,
        first_free(slots) < slots.len() ==> slots[first_free(slots)] is None,
    decreases slots.len(),
{
    if slots.len() > 0 && slots[0] is Some {
        lemma_first_free(slots.drop_first());
        assert forall|j: int| 0 <= j < first_free(slots) implies slots[j] is Some by {
            if j > 0 {
                assert(slots[j] == slots.drop_first()[j - 1]);
            }
        }
    }
}

/// A store adds at most one slot and a free adds none, so a table that
/// started empty has at most as many slots as stores were made on it; that
/// bounds the length that the laws below ask for.
pub proof fn lemma_table_growth<T>(slots: Seq<Option<T>>, item: T, id: i64)
    ensures
        slots.len() <= stored(slots, item).len() <= slots.len() + 1,
        emptied(slots, id).len() == slots.len(),
{
    lemma_first_free(slots);
}

/// Storing a value and then looking up the id that the store returned
/// gives back that value.
pub proof fn law_lookup_after_store<T>(slots: Seq<Option<T>>, item: T, id: i64)
    requires
        slot_index(id) == first_free(slots),
    ensures
        entry(stored(slots, item), id) == Some(item),
{
    lemma_first_free(slots);
}

/// Storing a value leaves every other id's value as it was.
pub proof fn law_store_keeps_others<T>(slots: Seq<Option<T>>, item: T, other: i64)
    requires
        slot_index(other) != first_free(slots),
    ensures
        entry(stored(slots, item), other) == entry(slots, other),
{
    lemma_first_free(slots);
}

/// Storing never hands out an id that is in use: the slot it fills was empty
/// or new.
pub proof fn law_store_fills_free_slot<T>(slots: Seq<Option<T>>, item: T, id: i64)
    requires
        slot_index(id) == first_free(slots),
    ensures
        entry(slots, id) is None,
{
    lemma_first_free(slots);
}

/// Taking a value out under the id that stored it gives that value back,
/// after which the id holds nothing and the table keeps its length.
pub proof fn law_take_after_store<T>(slots: Seq<Option<T>>, item: T, id: i64)
    requires
        slot_index(id) == first_free(slots),
    ensures
        entry(stored(slots, item), id) == Some(item),
        entry(emptied(stored(slots, item), id), id) is None,
        emptied(stored(slots, item), id).len() == stored(slots, item).len(),
{
    lemma_first_free(slots);
}

/// After an id is freed, looking it up finds nothing, and every other id's
/// value is unchanged.
pub proof fn law_lookup_after_free<T>(slots: Seq<Option<T>>, id: i64, other: i64)
    requires
        slot_index(other) != slot_index(id),
    ensures
        entry(emptied(slots, id), id) is None,
        entry(emptied(slots, other), id) == entry(slots, id),
{
}

/// A freed slot is reused: the next store gets an id no greater than the
/// freed one.
pub proof fn law_freed_slot_reused<T>(slots: Seq<Option<T>>, id: i64)
    requires
        slot_index(id) < slots.len(),
    ensures
        first_free(emptied(slots, id)) <= slot_index(id),
{
    let s = emptied(slots, id);
    lemma_first_free(s);
    if first_free(s) > slot_index(id) {
        assert(s[slot_index(id)] is None);
    }
}

/// A table of values under integer ids.
pub struct HandleTable<T> {
    slots: Vec<Option<T>>,
}

impl<T> HandleTable<T> {
    /// The table's slots in id order.
    pub closed spec fn slots(&self) -> Seq<Option<T>> {
        self.slots@
    }

    /// What the table holds under `id`.
    pub open spec fn lookup(&self, id: i64) -> Option<T> {
        entry(self.slots(), id)
    }

    /// An empty table.
    pub fn new() -> (t: Self)
        ensures
            t.slots() == Seq::<Option<T>>::empty(),
    {
        HandleTable { slots: Vec::new() }
    }

    /// Stores `item` in the lowest free slot (a new one at the end if all
    /// are full) and returns that slot's id.
    pub fn store(&mut self, item: T) -> (id: i64)
        ensures
            id == first_free(old(self).slots()) as i64,
            slot_index(id) == first_free(old(self).slots()),
            final(self).slots() == stored(old(self).slots(), item),
            final(self).lookup(id) == Some(item),
            old(self).lookup(id) is None,
            forall|other: i64| slot_index(other) != slot_index(id)
                ==> #[trigger] final(self).lookup(other) == old(self).lookup(other),
    {
        proof {
            lemma_first_free(self.slots@);
        }
        let mut i: usize = 0;
        while i < self.slots.len()
            invariant
                i <= self.slots@.len(),
                self.slots@ == old(self).slots@,
                forall|j: int| 0 <= j < i ==> self.slots@[j] is Some,
                i <= first_free(self.slots@),
                first_free(self.slots@) <= self.slots@.len(),
                forall|j: int| 0 <= j < first_free(self.slots@) ==> self.slots@[j] is Some,
                first_free(self.slots@) < self.slots@.len() ==> self.slots@[first_free(self.slots@)] is None,
            decreases self.slots@.len() - i,
        {
            if self.slots[i].is_none() {
                proof {
                    assert(((i as i64) as usize) == i) by (bit_vector);
                }
                self.slots.set(i, Some(item));
                return i as i64;
            }
            i = i + 1;
        }
        let id = self.slots.len();
        proof {
            assert(((id as i64) as usize) == id) by (bit_vector);
        }
        self.slots.push(Some(item));
        id as i64
    }

    /// The value under `id`, if any.
    pub fn get(&self, id: i64) -> (r: Option<&T>)
        ensures
            r matches Some(x) ==> self.lookup(id) == Some(*x),
            r is None ==> self.lookup(id) is None,
    {
        let idx = id as usize;
        if idx < self.slots.len() {
            match &self.slots[idx] {
                Some(x) => Some(x),
                None => None,
            }
        } else {
            None
        }
    }

    /// Removes and returns the value under `id`, leaving its slot free.
    pub fn take(&mut self, id: i64) -> (r: Option<T>)
        ensures
            r == old(self).lookup(id),
            final(self).slots() == emptied(old(self).slots(), id),
    {
        let idx = id as usize;
        if idx < self.slots.len() {
            let mut out: Option<T> = None;
            self.slots.set_and_swap(idx, &mut out);
            out
        } else {
            None
        }
    }

    /// Frees the slot under `id`.
    pub fn free(&mut self, id: i64)
        ensures
            final(self).slots() == emptied(old(self).slots(), id),
    {
        let _ = self.take(id);
    }

    /// Runs `f` on the value under `id`, if there is one, and returns its
    /// result; the value stays in its slot.
    pub fn with_entry<F, R>(&mut self, id: i64, f: F) -> (r: Option<R>)
        where
            F: FnOnce(&mut T) -> R,
        requires
            forall|x: &mut T| f.requires((x,)),
        ensures
            r is Some <==> old(self).lookup(id) is Some,
            final(self).slots().len() == old(self).slots().len(),
            forall|j: int| 0 <= j < old(self).slots().len() && j != slot_index(id)
                ==> final(self).slots()[j] == old(self).slots()[j],
            final(self).lookup(id) is Some <==> old(self).lookup(id) is Some,
            old(self).lookup(id) is None ==> final(self).slots() == old(self).slots(),
            old(self).lookup(id) matches Some(v) ==> r matches Some(res) && final(self).lookup(id) matches Some(w)
                && exists|x: &mut T| *x == v && #[trigger] f.ensures((x,), res) && *final(x) == w,
    {
        let idx = id as usize;
        if idx < self.slots.len() {
            let mut slot: Option<T> = None;
            self.slots.set_and_swap(idx, &mut slot);
            match slot {
                Some(mut value) => {
                    let ghost v0 = value;
                    let res = f(&mut value);
                    assert(exists|x: &mut T| *x == v0 && #[trigger] f.ensures((x,), res) && *final(x) == value);
                    let mut back = Some(value);
                    self.slots.set_and_swap(idx, &mut back);
                    assert(v0 == old(self).lookup(id).unwrap() && self.lookup(id) == Some(value));
                    let out = Some(res);
                    assert(out is Some);
                    assert(out.unwrap() == res);
                    assert(self.lookup(id) is Some);
                    assert(self.lookup(id).unwrap() == value);
                    assert(exists|x: &mut T| *x == v0 && #[trigger] f.ensures((x,), out.unwrap()) && *final(x) == self.lookup(id).unwrap());
                    out
                },
                None => {
                    let mut back: Option<T> = None;
                    self.slots.set_and_swap(idx, &mut back);
                    None
                },
            }
        } else {
            None
        }
    }
}

} // verus!
