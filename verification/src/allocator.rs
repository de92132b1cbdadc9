//! The allocator protocol: the contract any memory provider must satisfy,
//! and two adapters that satisfy it.
//!
//! A provider hands out regions, each a storage area with a stated size
//! (`cap`) and an initialized prefix (`contents`).  The protocol has four
//! operations — allocate, resize, free-one, free-all — and an account of how
//! each moves the number of live regions, so that a consumer can prove it
//! releases everything it obtained.  Failure is a returned value, never an
//! unwind: the caller decides whether it is fatal.

use crate::cstr::make_c_string;
use crate::cstr::null_terminated;
use crate::slice::Slice;
use vstd::math::min;
use vstd::prelude::*;

verus! {

/// A region obtained from an allocator: storage for `cap` elements, of which
/// the first `buf.len()` are initialized.  The size is the allocator's
/// promise; the initialized prefix is the part a consumer may read.
pub struct Region<T> {
    /// The initialized prefix of the region.
    pub buf: Vec<T>,
    /// How many elements the region can hold.
    pub cap: usize,
}

impl<T> Region<T> {
    /// The initialized prefix never outgrows the region's stated size.
    pub open spec fn wf(&self) -> bool {
        self.buf@.len() <= self.cap
    }

    /// What the region holds.
    pub open spec fn contents(&self) -> Seq<T> {
        self.buf@
    }

    /// The region a buffer starts from: no storage at all.
    pub fn empty() -> (r: Region<T>)
        ensures
            r.wf(),
            r.cap == 0,
            r.contents() == Seq::<T>::empty(),
    {
        Region { buf: Vec::new(), cap: 0 }
    }
}

/// The four operations of the protocol, as tags.  Peripheral: the trait
/// below dispatches by method, but consumers that log or display protocol
/// traffic name the operations through these tags.
#[derive(Clone, Copy, PartialEq, Eq, Structural)]
pub enum AllocatorMode {
    /// Obtain a fresh region.
    Alloc,
    /// Grow or shrink an existing region, keeping its leading contents.
    Resize,
    /// Release one region.
    Free,
    /// Release every region the allocator ever issued.
    FreeAll,
}

/// The display name of each operation tag.
pub open spec fn mode_name(m: AllocatorMode) -> Seq<u8> {
    match m {
        AllocatorMode::Alloc => seq![65, 76, 76, 79, 67],
        AllocatorMode::Resize => seq![82, 69, 83, 73, 90, 69],
        AllocatorMode::Free => seq![70, 82, 69, 69],
        AllocatorMode::FreeAll => seq![70, 82, 69, 69, 95, 65, 76, 76],
    }
}

impl AllocatorMode {
    /// The tag's display name as a byte string ready for a C-style consumer:
    /// null-terminated per the interop convention.
    pub fn name(&self) -> (r: Slice<u8>)
        ensures
            r.wf(),
            null_terminated(r),
            r@ == mode_name(*self),
    {
        let mut bytes: Vec<u8> = Vec::new();
        match self {
            AllocatorMode::Alloc => {
                bytes.push(65);
                bytes.push(76);
                bytes.push(76);
                bytes.push(79);
                bytes.push(67);
            },
            AllocatorMode::Resize => {
                bytes.push(82);
                bytes.push(69);
                bytes.push(83);
                bytes.push(73);
                bytes.push(90);
                bytes.push(69);
            },
            AllocatorMode::Free => {
                bytes.push(70);
                bytes.push(82);
                bytes.push(69);
                bytes.push(69);
            },
            AllocatorMode::FreeAll => {
                bytes.push(70);
                bytes.push(82);
                bytes.push(69);
                bytes.push(69);
                bytes.push(95);
                bytes.push(65);
                bytes.push(76);
                bytes.push(76);
            },
        }
        proof {
            assert(bytes@ =~= mode_name(*self));
        }
        make_c_string(bytes)
    }
}

/// What issuing a region of `new_size` elements costs a provider that
/// meters its storage: a size-zero request still issues a real region of
/// one element.
pub open spec fn issue_cost(new_size: nat) -> nat {
    if new_size == 0 {
        1
    } else {
        new_size
    }
}

/// The capability contract a memory provider implements.
///
/// Two accounts run through every operation: `live_regions`, the number of
/// regions issued and not yet released, and `resize_calls`, how many times
/// `resize` has been invoked.  The first lets a consumer prove it leaks
/// nothing; the second lets it prove how often it grew.
pub trait Allocator<T>: Sized {
    /// The provider's own invariant; every operation preserves it.
    spec fn wf(&self) -> bool;

    /// How many regions have been issued and not yet released.
    spec fn live_regions(&self) -> nat;

    /// How many times `resize` has been invoked on this provider.
    spec fn resize_calls(&self) -> nat;

    /// Obtain a fresh region of at least `new_size` elements, empty of
    /// contents, or `None` if the provider is exhausted.  An issued region
    /// always has positive size: a size-zero region stands for no region at
    /// all, so every issued region can later be freed.
    fn allocate(&mut self, new_size: usize) -> (r: Option<Region<T>>)
        requires
            old(self).wf(),
        ensures
            final(self).wf(),
            final(self).resize_calls() == old(self).resize_calls(),
            match r {
                Some(region) => {
                    &&& region.wf()
                    &&& region.cap >= new_size
                    &&& region.cap > 0
                    &&& region.contents() == Seq::<T>::empty()
                    &&& final(self).live_regions() == old(self).live_regions() + 1
                },
                None => final(self).live_regions() == old(self).live_regions(),
            },
    ;

    /// Exchange `region` for one of at least `new_size` elements whose
    /// leading contents equal the original's, up to the smaller of the two
    /// sizes.  Resizing a size-zero region issues a region, as allocation
    /// does.  On failure the original region comes back untouched.  The old
    /// region is surrendered either way: only what the call returns may be
    /// used afterwards.
    fn resize(&mut self, region: Region<T>, new_size: usize) -> (r: Result<Region<T>, Region<T>>)
        requires
            old(self).wf(),
            region.wf(),
        ensures
            final(self).wf(),
            final(self).resize_calls() == old(self).resize_calls() + 1,
            match r {
                Ok(new_region) => {
                    &&& new_region.wf()
                    &&& new_region.cap >= new_size
                    &&& new_region.cap > 0
                    &&& new_region.contents() == region.contents().take(
                        min(region.contents().len() as int, new_size as int),
                    )
                    &&& final(self).live_regions() == old(self).live_regions() + (
                    if region.cap == 0 {
                        1nat
                    } else {
                        0nat
                    })
                },
                Err(back) => {
                    &&& back == region
                    &&& final(self).live_regions() == old(self).live_regions()
                },
            },
    ;

    /// Release one region.  The region is emptied in place, so no caller can
    /// retain its contents past the release.
    fn free(&mut self, region: &mut Region<T>)
        requires
            old(self).wf(),
            old(region).wf(),
            old(region).cap > 0,
            old(self).live_regions() >= 1,
        ensures
            final(self).wf(),
            final(self).live_regions() == old(self).live_regions() - 1,
            final(self).resize_calls() == old(self).resize_calls(),
            final(region).cap == 0,
            final(region).contents() == Seq::<T>::empty(),
    ;

    /// Release every region this provider ever issued, in one step.  Safe to
    /// call even if it issued none.
    fn free_all(&mut self)
        requires
            old(self).wf(),
        ensures
            final(self).wf(),
            final(self).live_regions() == 0,
            final(self).resize_calls() == old(self).resize_calls(),
    ;
}

/// The general-purpose adapter: regions come from the host's heap, on
/// demand.  It never runs out of memory by itself — if the host cannot
/// provide, the process terminates, which is the substrate's policy for
/// unrecoverable faults — so the only failure it reports is exhaustion of
/// its own region account.
pub struct GeneralAllocator<T> {
    /// How many regions are issued and not yet released.
    pub live: usize,
    /// How many resize calls have been made.
    pub resizes: Ghost<nat>,
    /// The element type regions of this provider hold.
    pub marker: core::marker::PhantomData<T>,
}

impl<T> GeneralAllocator<T> {
    /// A fresh provider with no regions issued.
    pub fn new() -> (a: GeneralAllocator<T>)
        ensures
            a.wf(),
            a.live_regions() == 0,
            a.resize_calls() == 0,
    {
        GeneralAllocator { live: 0, resizes: Ghost(0), marker: core::marker::PhantomData }
    }

    /// The region account, readable at run time: how many regions are
    /// issued and not yet released.
    pub fn outstanding(&self) -> (n: usize)
        ensures
            n == self.live_regions(),
    {
        self.live
    }
}

impl<T> Allocator<T> for GeneralAllocator<T> {
    open spec fn wf(&self) -> bool {
        true
    }

    open spec fn live_regions(&self) -> nat {
        self.live as nat
    }

    open spec fn resize_calls(&self) -> nat {
        self.resizes@
    }

    fn allocate(&mut self, new_size: usize) -> (r: Option<Region<T>>)
        ensures
            r is Some <==> old(self).live < usize::MAX,
            r is None ==> *final(self) == *old(self),
    {
        if self.live == usize::MAX {
            return None;
        }
        self.live = self.live + 1;
        let cap = if new_size == 0 {
            1
        } else {
            new_size
        };
        Some(Region { buf: Vec::with_capacity(cap), cap })
    }

    fn resize(&mut self, region: Region<T>, new_size: usize) -> (r: Result<
        Region<T>,
        Region<T>,
    >)
        ensures
            r is Ok <==> (region.cap > 0 || old(self).live < usize::MAX),
    {
        self.resizes = Ghost(self.resizes@ + 1);
        if region.cap == 0 {
            if self.live == usize::MAX {
                return Err(region);
            }
            self.live = self.live + 1;
        }
        let ghost orig = region;
        let cap = if new_size == 0 {
            1
        } else {
            new_size
        };
        let mut buf = region.buf;
        if new_size < buf.len() {
            buf.truncate(new_size);
        }
        let new_region = Region { buf, cap };
        proof {
            assert(new_region.contents() =~= orig.contents().take(
                min(orig.contents().len() as int, new_size as int),
            ));
        }
        Ok(new_region)
    }

    fn free(&mut self, region: &mut Region<T>) {
        self.live = self.live - 1;
        region.buf = Vec::new();
        region.cap = 0;
    }

    fn free_all(&mut self) {
        self.live = 0;
    }
}

/// The arena adapter: a bump provider with a fixed element budget, meant
/// for bulk teardown.  Allocation and resizing draw on the budget and a
/// single free returns nothing to it — only `free_all` resets the arena to
/// its initial budget.
pub struct ArenaAllocator<T> {
    /// The arena's total element budget.
    pub total: usize,
    /// How much of the budget is still undrawn.
    pub remaining: usize,
    /// How many regions are issued and not yet released.
    pub live: usize,
    /// How many resize calls have been made.
    pub resizes: Ghost<nat>,
    /// The element type regions of this provider hold.
    pub marker: core::marker::PhantomData<T>,
}

impl<T> ArenaAllocator<T> {
    /// A fresh arena able to hand out `total` elements before exhaustion.
    pub fn new(total: usize) -> (a: ArenaAllocator<T>)
        ensures
            a.wf(),
            a.live_regions() == 0,
            a.resize_calls() == 0,
            a.total == total,
            a.remaining == total,
    {
        ArenaAllocator {
            total,
            remaining: total,
            live: 0,
            resizes: Ghost(0),
            marker: core::marker::PhantomData,
        }
    }

    /// The region account, readable at run time: how many regions are
    /// issued and not yet released.
    pub fn outstanding(&self) -> (n: usize)
        ensures
            n == self.live_regions(),
    {
        self.live
    }

    /// How much of the budget is still undrawn, readable at run time.
    pub fn budget_left(&self) -> (n: usize)
        ensures
            n == self.remaining,
    {
        self.remaining
    }
}

impl<T> Allocator<T> for ArenaAllocator<T> {
    open spec fn wf(&self) -> bool {
        self.remaining <= self.total
    }

    open spec fn live_regions(&self) -> nat {
        self.live as nat
    }

    open spec fn resize_calls(&self) -> nat {
        self.resizes@
    }

    fn allocate(&mut self, new_size: usize) -> (r: Option<Region<T>>)
        ensures
            r is Some <==> (issue_cost(new_size as nat) <= old(self).remaining && old(self).live
                < usize::MAX),
            r is Some ==> final(self).remaining == old(self).remaining - issue_cost(
                new_size as nat,
            ),
            r is None ==> *final(self) == *old(self),
            final(self).total == old(self).total,
    {
        let cap = if new_size == 0 {
            1
        } else {
            new_size
        };
        if cap > self.remaining || self.live == usize::MAX {
            return None;
        }
        self.remaining = self.remaining - cap;
        self.live = self.live + 1;
        Some(Region { buf: Vec::with_capacity(cap), cap })
    }

    fn resize(&mut self, region: Region<T>, new_size: usize) -> (r: Result<
        Region<T>,
        Region<T>,
    >)
        ensures
            r is Ok <==> (issue_cost(new_size as nat) <= old(self).remaining && (region.cap > 0
                || old(self).live < usize::MAX)),
            r is Ok ==> final(self).remaining == old(self).remaining - issue_cost(
                new_size as nat,
            ),
            r is Err ==> final(self).remaining == old(self).remaining,
            final(self).total == old(self).total,
    {
        self.resizes = Ghost(self.resizes@ + 1);
        let cap = if new_size == 0 {
            1
        } else {
            new_size
        };
        if cap > self.remaining || (region.cap == 0 && self.live == usize::MAX) {
            return Err(region);
        }
        self.remaining = self.remaining - cap;
        if region.cap == 0 {
            self.live = self.live + 1;
        }
        let ghost orig = region;
        let mut buf = region.buf;
        if new_size < buf.len() {
            buf.truncate(new_size);
        }
        let new_region = Region { buf, cap };
        proof {
            assert(new_region.contents() =~= orig.contents().take(
                min(orig.contents().len() as int, new_size as int),
            ));
        }
        Ok(new_region)
    }

    fn free(&mut self, region: &mut Region<T>)
        ensures
            final(self).remaining == old(self).remaining,
            final(self).total == old(self).total,
    {
        self.live = self.live - 1;
        region.buf = Vec::new();
        region.cap = 0;
    }

    fn free_all(&mut self)
        ensures
            final(self).remaining == old(self).total,
            final(self).total == old(self).total,
    {
        self.live = 0;
        self.remaining = self.total;
    }
}

} // verus!
