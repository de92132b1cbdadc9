//! The owning buffer: a growable region of memory that owns its storage
//! through an allocator and exposes its contents as a view.
//!
//! An `Array` couples one region with the allocator that issued it.  It is
//! the sole authority over that storage: it grows it by one resize call per
//! growth step, never loses an element while growing, and gives the region
//! back through exactly one free when released.

use crate::allocator::Allocator;
use crate::allocator::Region;
use vstd::prelude::*;

verus! {

/// The capacity one growth step aims for: at least double the old capacity,
/// and at least one element, capped by the machine word.
pub open spec fn grow_target(cap: nat) -> nat {
    if cap == 0 {
        1
    } else if 2 * cap <= usize::MAX {
        2 * cap
    } else {
        usize::MAX as nat
    }
}

/// A growable buffer owning its storage through allocator `A`.
pub struct Array<T, A: Allocator<T>> {
    /// The storage the buffer owns: its initialized prefix is the contents.
    pub items: Region<T>,
    /// The provider the storage came from, and the only one it may go back
    /// to.
    pub allocator: A,
}

impl<T, A: Allocator<T>> Array<T, A> {
    /// The buffer's invariant: the region and the provider are well formed,
    /// and whenever the buffer holds real storage, the provider has a live
    /// region on its account — the one this buffer owns.
    pub open spec fn wf(&self) -> bool {
        &&& self.items.wf()
        &&& self.allocator.wf()
        &&& self.items.cap > 0 ==> self.allocator.live_regions() >= 1
    }

    /// An empty buffer: no storage, no allocator call.
    pub fn new(allocator: A) -> (a: Array<T, A>)
        requires
            allocator.wf(),
        ensures
            a.wf(),
            a@ == Seq::<T>::empty(),
            a.items.cap == 0,
            a.allocator == allocator,
    {
        Array { items: Region::empty(), allocator }
    }

    /// A buffer pre-sized by one allocate call: room for `capacity`
    /// elements, still empty of contents.  On exhaustion the allocator comes
    /// back unused, with its accounts unchanged.
    pub fn with_capacity(allocator: A, capacity: usize) -> (r: Result<Array<T, A>, A>)
        requires
            allocator.wf(),
        ensures
            capacity == 0 ==> r is Ok,
            match r {
                Ok(a) => {
                    &&& a.wf()
                    &&& a@ == Seq::<T>::empty()
                    &&& a.items.cap >= capacity
                    &&& a.allocator.resize_calls() == allocator.resize_calls()
                    &&& (capacity > 0 ==> a.allocator.live_regions() == allocator.live_regions()
                        + 1)
                    &&& (capacity == 0 ==> a.items.cap == 0 && a.allocator == allocator)
                },
                Err(back) => {
                    &&& back.wf()
                    &&& back.live_regions() == allocator.live_regions()
                    &&& back.resize_calls() == allocator.resize_calls()
                },
            },
    {
        if capacity == 0 {
            return Ok(Self::new(allocator));
        }
        let mut provider = allocator;
        match provider.allocate(capacity) {
            Some(region) => Ok(Array { items: region, allocator: provider }),
            None => Err(provider),
        }
    }

    /// Appends one element.
    ///
    /// When there is room, this cannot fail and touches no allocator.  When
    /// the buffer is full, one resize call is made toward `grow_target`, and
    /// the contents present before the growth step survive it unchanged.  On
    /// failure the element comes back and the buffer is exactly as it was.
    pub fn append(&mut self, value: T) -> (r: Result<(), T>)
        requires
            old(self).wf(),
        ensures
            final(self).wf(),
            r is Ok ==> final(self)@ == old(self)@.push(value),
            r matches Err(v) ==> {
                &&& v == value
                &&& final(self)@ == old(self)@
                &&& final(self).items.cap == old(self).items.cap
            },
            final(self).allocator.live_regions() == old(self).allocator.live_regions() + (
            if r is Ok && old(self).items.cap == 0 {
                1nat
            } else {
                0nat
            }),
            old(self)@.len() < old(self).items.cap ==> {
                &&& r is Ok
                &&& final(self).items.cap == old(self).items.cap
                &&& final(self).allocator.resize_calls() == old(self).allocator.resize_calls()
            },
            old(self)@.len() == old(self).items.cap && old(self).items.cap < usize::MAX ==> {
                &&& final(self).allocator.resize_calls() == old(self).allocator.resize_calls()
                    + 1
                &&& (r is Ok ==> final(self).items.cap >= grow_target(old(self).items.cap as nat))
            },
            old(self).items.cap == usize::MAX && old(self)@.len() == usize::MAX ==> {
                &&& r is Err
                &&& final(self).allocator.resize_calls() == old(self).allocator.resize_calls()
            },
    {
        if self.items.buf.len() == self.items.cap {
            if self.items.cap == usize::MAX {
                return Err(value);
            }
            let old_cap = self.items.cap;
            let target: usize = if old_cap == 0 {
                1
            } else if old_cap <= usize::MAX / 2 {
                2 * old_cap
            } else {
                usize::MAX
            };
            let mut region = Region::<T>::empty();
            core::mem::swap(&mut region, &mut self.items);
            match self.allocator.resize(region, target) {
                Ok(new_region) => {
                    proof {
                        assert(new_region.contents() =~= old(self)@);
                    }
                    self.items = new_region;
                },
                Err(back) => {
                    self.items = back;
                    return Err(value);
                },
            }
        }
        self.items.buf.push(value);
        Ok(())
    }

    /// Gives the storage back: one free call when the buffer holds a region,
    /// none when it never allocated.  The buffer is empty afterwards and may
    /// be used again from that state.
    pub fn release(&mut self)
        requires
            old(self).wf(),
        ensures
            final(self).wf(),
            final(self)@ == Seq::<T>::empty(),
            final(self).items.cap == 0,
            final(self).allocator.resize_calls() == old(self).allocator.resize_calls(),
            final(self).allocator.live_regions() == old(self).allocator.live_regions() - (
            if old(self).items.cap > 0 {
                1nat
            } else {
                0nat
            }),
    {
        if self.items.cap > 0 {
            self.allocator.free(&mut self.items);
        }
        proof {
            assert(self.items.buf@ =~= Seq::<T>::empty());
        }
    }

    /// The buffer's contents, exposed as a borrowed view of exactly the
    /// first `len` elements.  The borrow must end before the next mutating
    /// operation or release.
    pub fn as_view(&self) -> (r: &[T])
        ensures
            r@ == self@,
    {
        self.items.buf.as_slice()
    }

    /// How many elements the buffer holds.
    pub fn len(&self) -> (n: usize)
        ensures
            n == self@.len(),
    {
        self.items.buf.len()
    }

    /// How many elements the buffer's storage can hold before it must grow.
    pub fn capacity(&self) -> (n: usize)
        ensures
            n == self.items.cap,
    {
        self.items.cap
    }
}

impl<T, A: Allocator<T>> View for Array<T, A> {
    type V = Seq<T>;

    open spec fn view(&self) -> Seq<T> {
        self.items.buf@
    }
}

/// Law: an append loses nothing.  Whatever stood in the buffer before —
/// including before a growth step, whose contract says the new view is the
/// old view with the element pushed — stands unchanged at the same index
/// afterwards, and the appended element stands after it.
pub proof fn lemma_append_preserves_existing<T>(pre: Seq<T>, post: Seq<T>, value: T)
    requires
        post == pre.push(value),
    ensures
        post.len() == pre.len() + 1,
        forall|i: int| 0 <= i < pre.len() ==> post[i] == pre[i],
        post[pre.len() as int] == value,
{
}

} // verus!
