//! Slot tables: what the scheduler and the timer registry have in common.
//!
//! A table is a sequence of slots of fixed length. Each slot is vacant
//! (`None`) or occupied (`Some`). A new entry takes the first vacant slot, so
//! identifiers stay small and a freed identifier is handed out again.
use vstd::prelude::*;

verus! {

/// Whether `index` is where the next entry goes: every slot below it is
/// occupied, and it is either vacant or, in a full table, the table's length.
pub open spec fn is_first_vacant<T>(slots: Seq<Option<T>>, index: int) -> bool {
    &&& 0 <= index <= slots.len()
    &&& forall|j: int| 0 <= j < index ==> (#[trigger] slots[j]) is Some
    &&& index < slots.len() ==> slots[index] is None
}

/// The index of the first vacant slot, or the table's length if every slot is
/// occupied.
pub open spec fn first_vacant<T>(slots: Seq<Option<T>>) -> int {
    choose|index: int| is_first_vacant(slots, index)
}

/// Whether every slot is occupied.
pub open spec fn is_full<T>(slots: Seq<Option<T>>) -> bool {
    forall|j: int| 0 <= j < slots.len() ==> (#[trigger] slots[j]) is Some
}

/// A table of `capacity` slots, all vacant.
pub open spec fn vacant_table<T>(capacity: nat) -> Seq<Option<T>> {
    Seq::new(capacity, |i: int| None)
}

/// The table after one attempt to place `item`: it goes into the first vacant
/// slot, and a full table stays as it is.
pub open spec fn placed<T>(slots: Seq<Option<T>>, item: T) -> Seq<Option<T>> {
    if first_vacant(slots) < slots.len() {
        slots.update(first_vacant(slots), Some(item))
    } else {
        slots
    }
}

/// The table after placing `items` one after the other.
pub open spec fn placed_all<T>(slots: Seq<Option<T>>, items: Seq<T>) -> Seq<Option<T>>
    decreases items.len(),
{
    if items.len() == 0 {
        slots
    } else {
        placed(placed_all(slots, items.drop_last()), items.last())
    }
}

/// A table of `capacity` slots whose first slots hold `items` in order, the
/// rest being vacant.
pub open spec fn packed<T>(capacity: nat, items: Seq<T>) -> Seq<Option<T>> {
    Seq::new(
        capacity,
        |i: int|
            if i < items.len() {
                Some(items[i])
            } else {
                None
            },
    )
}

proof fn lemma_first_vacant_from<T>(slots: Seq<Option<T>>, from: int) -> (index: int)
    requires
        0 <= from <= slots.len(),
        forall|j: int| 0 <= j < from ==> (#[trigger] slots[j]) is Some,
    ensures
        is_first_vacant(slots, index),
    decreases slots.len() - from,
{
    if from < slots.len() && slots[from] is Some {
        lemma_first_vacant_from(slots, from + 1)
    } else {
        from
    }
}

/// Every table has a first vacant index, and only one.
pub proof fn lemma_first_vacant<T>(slots: Seq<Option<T>>)
    ensures
        is_first_vacant(slots, first_vacant(slots)),
        forall|index: int| is_first_vacant(slots, index) ==> index == first_vacant(slots),
        first_vacant(slots) == slots.len() <==> is_full(slots),
{
    let witness = lemma_first_vacant_from(slots, 0);
    let first = first_vacant(slots);
    assert forall|index: int| is_first_vacant(slots, index) implies index == first by {
        if index < first {
            assert(slots[index] is Some);
        } else if first < index {
            assert(slots[first] is Some);
        }
    }
}

/// Finds the first vacant slot of a table.
pub fn find_vacant<T, const N: usize>(slots: &[Option<T>; N]) -> (found: Option<usize>)
    ensures
        match found {
            Some(index) => index < N && index == first_vacant(slots@),
            None => first_vacant(slots@) == N,
        },
{
    proof {
        lemma_first_vacant(slots@);
    }
    let mut index: usize = 0;
    while index < N
        invariant
            index <= N,
            slots@.len() == N,
            forall|j: int| 0 <= j < index ==> (#[trigger] slots@[j]) is Some,
            forall|i: int| is_first_vacant(slots@, i) ==> i == first_vacant(slots@),
        decreases N - index,
    {
        if slots[index].is_none() {
            assert(is_first_vacant(slots@, index as int));
            return Some(index);
        }
        index = index + 1;
    }
    assert(is_first_vacant(slots@, N as int));
    None
}

proof fn lemma_placed_all_packs<T>(capacity: nat, items: Seq<T>)
    requires
        items.len() <= capacity,
    ensures
        placed_all(vacant_table(capacity), items) == packed(capacity, items),
        is_first_vacant(packed(capacity, items), items.len() as int),
        first_vacant(packed(capacity, items)) == items.len(),
    decreases items.len(),
{
    let table = packed(capacity, items);
    lemma_first_vacant(table);
    assert(is_first_vacant(table, items.len() as int));
    if items.len() == 0 {
        assert(table =~= vacant_table(capacity));
    } else {
        let before = items.drop_last();
        lemma_placed_all_packs(capacity, before);
        assert(table =~= packed(capacity, before).update(before.len() as int, Some(items.last())));
    }
}

/// Placing entries in a vacant table fills it from the bottom, in the order in
/// which they are placed: the entry placed after `k` others goes to the slot
/// `k` and leaves the earlier ones where they are. Once as many entries are
/// placed as the table has slots, the table is full, and a further attempt
/// leaves it as it is.
pub proof fn lemma_fill_in_order<T>(capacity: nat, items: Seq<T>)
    requires
        items.len() <= capacity,
    ensures
        forall|k: int|
            0 <= k < items.len() ==> {
                let before = #[trigger] placed_all(vacant_table(capacity), items.take(k));
                &&& first_vacant(before) == k
                &&& placed(before, items[k]) == before.update(k, Some(items[k]))
            },
        placed_all(vacant_table(capacity), items) == packed(capacity, items),
        first_vacant(packed(capacity, items)) == items.len(),
        items.len() == capacity ==> is_full(packed(capacity, items)),
        forall|extra: T|
            items.len() == capacity ==> placed(packed(capacity, items), extra) == packed(
                capacity,
                items,
            ),
{
    lemma_placed_all_packs(capacity, items);
    lemma_first_vacant(packed(capacity, items));
    assert forall|k: int| 0 <= k < items.len() implies {
        let before = #[trigger] placed_all(vacant_table(capacity), items.take(k));
        &&& first_vacant(before) == k
        &&& placed(before, items[k]) == before.update(k, Some(items[k]))
    } by {
        lemma_placed_all_packs(capacity, items.take(k));
    }
}

/// Vacating a slot makes it the next to be filled, unless a lower slot was
/// vacant already. In a full table the vacated slot is the one that is reused.
pub proof fn lemma_vacated_slot_is_reused<T>(slots: Seq<Option<T>>, index: int)
    requires
        0 <= index < slots.len(),
    ensures
        first_vacant(slots.update(index, None)) == if first_vacant(slots) < index {
            first_vacant(slots)
        } else {
            index
        },
        is_full(slots) ==> first_vacant(slots.update(index, None)) == index,
{
    let after = slots.update(index, None);
    lemma_first_vacant(slots);
    lemma_first_vacant(after);
    let first = first_vacant(slots);
    if first < index {
        assert(is_first_vacant(after, first));
    } else {
        assert(is_first_vacant(after, index));
    }
}

} // verus!
