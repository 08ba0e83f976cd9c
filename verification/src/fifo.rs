//! The model of a bounded first-in, first-out history.
//!
//! A history of capacity `c` holds the last `c` items that were pushed, in the
//! order in which they arrived.

use std::collections::VecDeque;
use vstd::prelude::*;

verus! {

/// The last `capacity` items of `s`, or all of `s` if it has no more.
pub open spec fn keep_last<T>(s: Seq<T>, capacity: nat) -> Seq<T> {
    if s.len() <= capacity {
        s
    } else {
        s.subrange(s.len() - capacity, s.len() as int)
    }
}

/// The history after `item` arrives: the oldest items give way.
pub open spec fn push_bounded<T>(s: Seq<T>, capacity: nat, item: T) -> Seq<T> {
    keep_last(s.push(item), capacity)
}

/// The history after the items of `items` arrive one by one.
pub open spec fn push_all<T>(s: Seq<T>, capacity: nat, items: Seq<T>) -> Seq<T>
    decreases items.len(),
{
    if items.len() == 0 {
        s
    } else {
        push_bounded(push_all(s, capacity, items.drop_last()), capacity, items.last())
    }
}

/// A push never leaves more than `capacity` items, and a history that has
/// room keeps all it had.
pub proof fn lemma_push_bounded_len<T>(s: Seq<T>, capacity: nat, item: T)
    ensures
        push_bounded(s, capacity, item).len() <= capacity,
        s.len() < capacity ==> push_bounded(s, capacity, item) == s.push(item),
        s.len() <= capacity ==> push_bounded(s, capacity, item).len() == if s.len() < capacity {
            s.len() + 1
        } else {
            capacity
        },
{
}

/// Keeping the last items twice is keeping them once.
pub proof fn lemma_keep_last_push<T>(s: Seq<T>, capacity: nat, item: T)
    ensures
        push_bounded(keep_last(s, capacity), capacity, item) == keep_last(s.push(item), capacity),
{
}

/// Whatever is pushed, and however much of it, a history that started within
/// its capacity holds exactly the most recent `capacity` items, oldest first.
pub proof fn lemma_push_all_keeps_most_recent<T>(s: Seq<T>, capacity: nat, items: Seq<T>)
    requires
        s.len() <= capacity,
    ensures
        push_all(s, capacity, items) == keep_last(s + items, capacity),
        push_all(s, capacity, items).len() <= capacity,
    decreases items.len(),
{
    if items.len() == 0 {
    } else {
        let front = items.drop_last();
        lemma_push_all_keeps_most_recent(s, capacity, front);
        lemma_keep_last_push(s + front, capacity, items.last());
    }
}

/// Starting empty, the history is the last `capacity` of all the pushes.
pub proof fn lemma_pushes_from_empty<T>(capacity: nat, items: Seq<T>)
    ensures
        push_all(Seq::<T>::empty(), capacity, items) == keep_last(items, capacity),
        push_all(Seq::<T>::empty(), capacity, items).len() <= capacity,
{
    lemma_push_all_keeps_most_recent(Seq::<T>::empty(), capacity, items);
}

/// Appends `item` to `queue`, first evicting from the front until there is
/// room for it within `capacity`. With no capacity nothing is kept.
pub fn push_evicting<T>(queue: &mut VecDeque<T>, capacity: usize, item: T)
    ensures
        final(queue)@ == push_bounded(old(queue)@, capacity as nat, item),
        final(queue)@.len() <= capacity,
{
    let ghost before = queue@;
    let ghost mut evicted: int = 0;
    while queue.len() > 0 && queue.len() >= capacity
        invariant
            0 <= evicted <= before.len(),
            queue@ == before.subrange(evicted, before.len() as int),
            evicted == 0 || queue@.len() + 1 >= capacity,
        decreases queue@.len(),
    {
        let _ = queue.pop_front();
        proof {
            evicted = evicted + 1;
        }
    }
    if capacity > 0 {
        queue.push_back(item);
    }
}

} // verus!
