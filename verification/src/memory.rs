//! The ownership-transfer primitive.
//!
//! A [`Store`] models the heap blocks of one concrete type that have been
//! handed across the boundary: every transferred value occupies a slot
//! addressed by a non-zero handle, and stays there until the handle is
//! released, exactly once. Handle value `0` is the null handle and never
//! addresses a slot.

use vstd::prelude::*;

verus! {

/// How many slots of a slot sequence are live, that is, still hold a value
/// that was transferred and not yet released.
pub open spec fn count_live<T>(slots: Seq<Option<T>>) -> nat
    decreases slots.len(),
{
    if slots.len() == 0 {
        0
    } else {
        count_live(slots.drop_last()) + if slots.last() is Some {
            1nat
        } else {
            0nat
        }
    }
}

proof fn lemma_count_live_push<T>(slots: Seq<Option<T>>, entry: Option<T>)
    ensures
        count_live(slots.push(entry)) == count_live(slots) + if entry is Some {
            1nat
        } else {
            0nat
        },
{
    assert(slots.push(entry).drop_last() =~= slots);
}

proof fn lemma_count_live_update<T>(slots: Seq<Option<T>>, i: int, entry: Option<T>)
    requires
        0 <= i < slots.len(),
    ensures
        count_live(slots.update(i, entry)) == count_live(slots) + (if entry is Some {
            1int
        } else {
            0int
        }) - (if slots[i] is Some {
            1int
        } else {
            0int
        }),
    decreases slots.len(),
{
    let updated = slots.update(i, entry);
    if i == slots.len() - 1 {
        assert(updated.drop_last() =~= slots.drop_last());
    } else {
        assert(updated.drop_last() =~= slots.drop_last().update(i, entry));
        lemma_count_live_update(slots.drop_last(), i, entry);
    }
}

proof fn lemma_count_live_take_step<T>(slots: Seq<Option<T>>, i: int)
    requires
        0 <= i < slots.len(),
    ensures
        count_live(slots.take(i + 1)) == count_live(slots.take(i)) + if slots[i] is Some {
            1nat
        } else {
            0nat
        },
{
    assert(slots.take(i + 1).drop_last() =~= slots.take(i));
}

/// The heap blocks of type `T` currently owned across the boundary.
///
/// A slot is addressed by a handle one greater than its index, so that `0`
/// can serve as the null handle. A released slot stays in place as `None`:
/// handles are never reused, which is how the model expresses that a
/// released handle must not be released or dereferenced again.
pub struct Store<T> {
    slots: Vec<Option<T>>,
}

impl<T> View for Store<T> {
    type V = Seq<Option<T>>;

    closed spec fn view(&self) -> Seq<Option<T>> {
        self.slots@
    }
}

/// What a transfer does to a store: one fresh slot, holding `value`, whose
/// handle is one past every handle handed out before.
pub open spec fn transfer_post<T>(pre: Store<T>, post: Store<T>, handle: usize, value: T) -> bool {
    &&& handle == pre@.len() + 1
    &&& post@ == pre@.push(Some(value))
}

/// What a release does to a store: the slot of `handle` is emptied and every
/// other slot is left exactly as it was.
pub open spec fn release_post<T>(pre: Store<T>, post: Store<T>, handle: usize) -> bool {
    post@ == pre@.update(handle - 1, None)
}

impl<T> Store<T> {
    /// A handle is live when it was returned by a transfer and has not been
    /// released yet; only a live handle may be dereferenced or released.
    pub open spec fn is_live(self, handle: usize) -> bool {
        &&& 1 <= handle <= self@.len()
        &&& self@[handle - 1] is Some
    }

    /// The value a live handle addresses.
    pub open spec fn value_at(self, handle: usize) -> T
        recommends
            self.is_live(handle),
    {
        self@[handle - 1]->Some_0
    }

    /// How many handles are live: the allocation count a leak check observes.
    pub open spec fn n_live(self) -> nat {
        count_live(self@)
    }

    /// A store with nothing transferred yet.
    pub fn new() -> (store: Store<T>)
        ensures
            store@ == Seq::<Option<T>>::empty(),
            store.n_live() == 0,
    {
        let store = Store { slots: Vec::new() };
        proof {
            assert(store@ =~= Seq::<Option<T>>::empty());
        }
        store
    }

    /// Moves `value` into heap storage owned by the boundary and returns the
    /// fresh handle that is now its sole owner. Never fails.
    pub fn transfer(&mut self, value: T) -> (handle: usize)
        ensures
            transfer_post(*old(self), *final(self), handle, value),
            handle != 0,
            !old(self).is_live(handle),
            final(self).is_live(handle),
            final(self).value_at(handle) == value,
            final(self).n_live() == old(self).n_live() + 1,
            forall|h: usize| h != handle ==> final(self).is_live(h) == old(self).is_live(h),
            forall|h: usize|
                h != handle && old(self).is_live(h) ==> final(self).value_at(h) == old(
                    self,
                ).value_at(h),
    {
        self.slots.push(Some(value));
        proof {
            lemma_count_live_push(old(self)@, Some(value));
        }
        self.slots.len()
    }

    /// Reconstructs ownership of the value behind a live handle, empties its
    /// slot, and hands the value back to be dropped or reused. No other
    /// handle's liveness or value is affected.
    pub fn release(&mut self, handle: usize) -> (value: T)
        requires
            old(self).is_live(handle),
        ensures
            release_post(*old(self), *final(self), handle),
            value == old(self).value_at(handle),
            !final(self).is_live(handle),
            final(self)@.len() == old(self)@.len(),
            final(self).n_live() + 1 == old(self).n_live(),
            forall|h: usize| h != handle ==> final(self).is_live(h) == old(self).is_live(h),
            forall|h: usize|
                h != handle && old(self).is_live(h) ==> final(self).value_at(h) == old(
                    self,
                ).value_at(h),
    {
        let index = handle - 1;
        let mut taken: Option<T> = None;
        core::mem::swap(&mut self.slots[index], &mut taken);
        proof {
            lemma_count_live_update(old(self)@, index as int, None);
        }
        match taken {
            Some(value) => value,
            None => vstd::pervasive::unreached(),
        }
    }

    /// Borrows the value behind a live handle, as the holder of the handle
    /// does when it dereferences it.
    pub fn get(&self, handle: usize) -> (value: &T)
        requires
            self.is_live(handle),
        ensures
            *value == self.value_at(handle),
    {
        let index = handle - 1;
        match &self.slots[index] {
            Some(value) => value,
            None => vstd::pervasive::unreached(),
        }
    }

    /// Whether a handle is currently live.
    pub fn live(&self, handle: usize) -> (live: bool)
        ensures
            live == self.is_live(handle),
    {
        if 1 <= handle && handle <= self.slots.len() {
            self.slots[handle - 1].is_some()
        } else {
            false
        }
    }

    /// Counts the live handles, for allocation accounting.
    pub fn live_count(&self) -> (count: usize)
        ensures
            count == self.n_live(),
    {
        let mut count: usize = 0;
        let mut i: usize = 0;
        while i < self.slots.len()
            invariant
                i <= self@.len(),
                count == count_live(self@.take(i as int)),
                count <= i,
            decreases self@.len() - i,
        {
            proof {
                lemma_count_live_take_step(self@, i as int);
            }
            if self.slots[i].is_some() {
                count = count + 1;
            }
            i = i + 1;
        }
        proof {
            assert(self@.take(i as int) =~= self@);
        }
        count
    }
}

/// The release entry point for an owned type at the boundary: releases the
/// block behind `obj` and drops the value.
pub fn destroy<T>(store: &mut Store<T>, obj: usize)
    requires
        old(store).is_live(obj),
    ensures
        release_post(*old(store), *final(store), obj),
        !final(store).is_live(obj),
        final(store).n_live() + 1 == old(store).n_live(),
        forall|h: usize| h != obj ==> final(store).is_live(h) == old(store).is_live(h),
        forall|h: usize|
            h != obj && old(store).is_live(h) ==> final(store).value_at(h) == old(store).value_at(
                h,
            ),
{
    let _ = store.release(obj);
}

/// The release entry point for raw 16-byte identifier blocks.
pub fn destroy_raw_uuid(store: &mut Store<[u8; 16]>, obj: usize)
    requires
        old(store).is_live(obj),
    ensures
        release_post(*old(store), *final(store), obj),
        !final(store).is_live(obj),
        final(store).n_live() + 1 == old(store).n_live(),
        forall|h: usize| h != obj ==> final(store).is_live(h) == old(store).is_live(h),
        forall|h: usize|
            h != obj && old(store).is_live(h) ==> final(store).value_at(h) == old(store).value_at(
                h,
            ),
{
    destroy(store, obj);
}

/// The release entry point for owned text buffers, which may need
/// encoding-specific teardown that plain blocks do not.
pub fn destroy_c_char(store: &mut Store<String>, s: usize)
    requires
        old(store).is_live(s),
    ensures
        release_post(*old(store), *final(store), s),
        !final(store).is_live(s),
        final(store).n_live() + 1 == old(store).n_live(),
        forall|h: usize| h != s ==> final(store).is_live(h) == old(store).is_live(h),
        forall|h: usize|
            h != s && old(store).is_live(h) ==> final(store).value_at(h) == old(store).value_at(h),
{
    destroy(store, s);
}

/// A store's slot sequence always fits the machine: it is backed by a real
/// vector, so its length is bounded by the largest address.
pub proof fn lemma_store_view_bounded<T>(store: Store<T>)
    ensures
        store@.len() <= usize::MAX,
{
    vstd::std_specs::vec::axiom_spec_len(&store.slots);
}

/// Law: a transfer adds exactly one live handle — the returned one, which is
/// fresh — and neither the liveness nor the value of any other handle moves.
pub proof fn lemma_transfer_accounting<T>(pre: Store<T>, post: Store<T>, handle: usize, value: T)
    requires
        transfer_post(pre, post, handle, value),
    ensures
        post.n_live() == pre.n_live() + 1,
        !pre.is_live(handle),
        post.is_live(handle),
        post.value_at(handle) == value,
        forall|h: usize| h != handle ==> post.is_live(h) == pre.is_live(h),
        forall|h: usize| h != handle && pre.is_live(h) ==> post.value_at(h) == pre.value_at(h),
{
    lemma_count_live_push(pre@, Some(value));
}

/// Law: a release removes exactly one live handle — the released one — and
/// neither the liveness nor the value of any other handle moves.
pub proof fn lemma_release_accounting<T>(pre: Store<T>, post: Store<T>, handle: usize)
    requires
        pre.is_live(handle),
        release_post(pre, post, handle),
    ensures
        post.n_live() + 1 == pre.n_live(),
        !post.is_live(handle),
        forall|h: usize| h != handle ==> post.is_live(h) == pre.is_live(h),
        forall|h: usize| h != handle && pre.is_live(h) ==> post.value_at(h) == pre.value_at(h),
{
    lemma_count_live_update(pre@, handle - 1, None);
}

/// Law: releasing a freshly transferred handle deallocates without error and
/// leaves every unrelated live handle exactly as it was — its liveness, its
/// value, and the total allocation count are unchanged by the round trip.
pub proof fn lemma_transfer_release_round_trip<T>(
    pre: Store<T>,
    mid: Store<T>,
    post: Store<T>,
    handle: usize,
    value: T,
)
    requires
        transfer_post(pre, mid, handle, value),
        release_post(mid, post, handle),
    ensures
        mid.is_live(handle),
        mid.value_at(handle) == value,
        !post.is_live(handle),
        post.n_live() == pre.n_live(),
        forall|h: usize| h != handle ==> post.is_live(h) == pre.is_live(h),
        forall|h: usize|
            h != handle && pre.is_live(h) ==> post.value_at(h) == pre.value_at(h),
{
    lemma_transfer_accounting(pre, mid, handle, value);
    lemma_release_accounting(mid, post, handle);
}

} // verus!
