//! The byte-string convention: a `Slice<u8>` whose storage carries a null
//! byte immediately after the counted region.
//!
//! This is a convention on the view type, not a new type.  A byte string that
//! crosses a C-style interface must satisfy `data[count] == 0`, so that the
//! consumer on the far side may scan to the terminator; byte strings that
//! stay in-process need not carry the sentinel.

use crate::slice::Slice;
use vstd::prelude::*;

verus! {

/// The interop convention: the byte just past the counted region exists and
/// is zero.
pub open spec fn null_terminated(s: Slice<u8>) -> bool {
    &&& s.count < s.data@.len()
    &&& s.data@[s.count as int] == 0
}

/// Builds a byte string that satisfies the interop convention: the view is
/// exactly `bytes`, and a zero sentinel sits just past the counted region.
pub fn make_c_string(bytes: Vec<u8>) -> (s: Slice<u8>)
    ensures
        s.wf(),
        null_terminated(s),
        s.count == bytes@.len(),
        s@ == bytes@,
{
    let ghost orig = bytes@;
    let count = bytes.len();
    let mut data = bytes;
    data.push(0);
    let s = Slice { count, data };
    proof {
        assert(s@ =~= orig);
    }
    s
}

/// Runtime test of the interop convention, for boundaries that receive a
/// byte string of unknown provenance.
pub fn is_null_terminated(s: &Slice<u8>) -> (b: bool)
    requires
        s.wf(),
    ensures
        b == null_terminated(*s),
{
    s.count < s.data.len() && s.data[s.count] == 0
}

/// The sentinel access a C-style consumer performs: reads the byte one past
/// the counted region.  Valid only under the interop convention, which also
/// forces the result to be zero.
pub fn byte_past_end(s: &Slice<u8>) -> (r: u8)
    requires
        null_terminated(*s),
    ensures
        r == 0,
{
    s.data[s.count]
}

} // verus!
