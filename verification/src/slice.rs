//! The view type: a counted window over contiguous elements.
//!
//! A `Slice` pairs an element count with the storage that backs it.  Only the
//! first `count` elements belong to the view; storage past the count (such as
//! a trailing sentinel byte, see `cstr`) is carried but never part of the
//! view.  Indexing is guaranteed only for `i < count`: the fast path proves
//! the bound statically, the checked path returns `None` out of range.

use vstd::prelude::*;

verus! {

/// A counted window over contiguous elements.  The first `count` elements of
/// `data` are the view; anything after them is carried storage that the view
/// does not expose.
pub struct Slice<T> {
    /// How many leading elements of `data` belong to the view.
    pub count: usize,
    /// The storage backing the view; its length may exceed `count`.
    pub data: Vec<T>,
}

impl<T> Slice<T> {
    /// A `Slice` is well formed when every counted element is backed by
    /// storage.
    pub open spec fn wf(&self) -> bool {
        self.count <= self.data@.len()
    }

    /// The whole of a vector, viewed.
    pub fn from_vec(data: Vec<T>) -> (s: Slice<T>)
        ensures
            s.wf(),
            s.count == data@.len(),
            s@ == data@,
            s.data@ == data@,
    {
        let count = data.len();
        let s = Slice { count, data };
        proof {
            assert(s@ =~= s.data@);
        }
        s
    }

    /// The first `count` elements of a vector, viewed; the rest is carried
    /// storage.
    pub fn from_vec_prefix(data: Vec<T>, count: usize) -> (s: Slice<T>)
        requires
            count <= data@.len(),
        ensures
            s.wf(),
            s.count == count,
            s@ == data@.take(count as int),
            s.data@ == data@,
    {
        Slice { count, data }
    }

    /// Unchecked-style element access: the bound `i < count` is proved at the
    /// call site, so the body performs no range test of its own.
    pub fn index(&self, i: usize) -> (r: &T)
        requires
            self.wf(),
            i < self.count,
        ensures
            *r == self@[i as int],
            *r == self.data@[i as int],
    {
        &self.data[i]
    }

    /// Checked element access: `Some` exactly on valid indices.
    pub fn get(&self, i: usize) -> (r: Option<&T>)
        requires
            self.wf(),
        ensures
            i < self.count ==> (r matches Some(v) && *v == self@[i as int]),
            i >= self.count ==> r is None,
    {
        if i < self.count {
            Some(&self.data[i])
        } else {
            None
        }
    }

    /// The number of elements in the view.
    pub fn len(&self) -> (n: usize)
        ensures
            n == self.count,
    {
        self.count
    }
}

impl<T> View for Slice<T> {
    type V = Seq<T>;

    open spec fn view(&self) -> Seq<T> {
        self.data@.take(self.count as int)
    }
}

} // verus!
