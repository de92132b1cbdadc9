//! The file-read front end: turns the outcome of one host open/close pair
//! into either a byte-string of content or the one recoverable error.
//!
//! The open and close themselves are I/O against the C interface and stay
//! with the host program; the library takes the outcome as a plain value and
//! decides everything else, so the decision is verified for either outcome.

use crate::allocator::mode_name;
use crate::allocator::AllocatorMode;
use crate::cstr::make_c_string;
use crate::cstr::null_terminated;
use crate::slice::Slice;
use vstd::prelude::*;

verus! {

/// The one recoverable failure: an attempt to open a resource did not
/// succeed.  Opaque by design — every I/O failure is this same value, with
/// no diagnostic payload.
#[derive(Clone, Copy, Debug, PartialEq, Eq, Structural)]
pub struct IOError;

/// What a successful read hands back: the fixed greeting, standing in for
/// the file's bytes.
pub open spec fn read_content() -> Seq<u8> {
    seq![72u8, 101, 108, 108, 111, 44, 32, 119, 111, 114, 108, 100, 33]
}

/// Reads a file, given the host's report of its open attempt.
///
/// The path must satisfy the interop convention, since it is what the host
/// hands to the C open primitive.  `opened` is true exactly when that
/// primitive returned a handle; the handle is closed again before this
/// decision is taken.  Success yields the fixed content as a byte string
/// ready for the C interface; failure yields the opaque error and builds no
/// buffer.
pub fn read_entire_file(path: &Slice<u8>, opened: bool) -> (r: Result<Slice<u8>, IOError>)
    requires
        path.wf(),
        null_terminated(*path),
    ensures
        opened ==> (r matches Ok(s) && s.wf() && null_terminated(s) && s@ == read_content()),
        !opened ==> r == Result::<Slice<u8>, IOError>::Err(IOError),
{
    if opened {
        let mut bytes: Vec<u8> = Vec::new();
        bytes.push(72);  // H
        bytes.push(101);  // e
        bytes.push(108);  // l
        bytes.push(108);  // l
        bytes.push(111);  // o
        bytes.push(44);  // ,
        bytes.push(32);
        bytes.push(119);  // w
        bytes.push(111);  // o
        bytes.push(114);  // r
        bytes.push(108);  // l
        bytes.push(100);  // d
        bytes.push(33);  // !
        proof {
            assert(bytes@ =~= read_content());
        }
        Ok(make_c_string(bytes))
    } else {
        Err(IOError)
    }
}

/// Chooses what the entry point prints: the content on success, the
/// fallback name on failure.  Either way the result is ready for the C
/// print primitive.
pub fn entry_message(outcome: Result<Slice<u8>, IOError>) -> (r: Slice<u8>)
    requires
        outcome matches Ok(s) ==> s.wf() && null_terminated(s),
    ensures
        r.wf(),
        null_terminated(r),
        outcome matches Ok(s) ==> r == s,
        outcome is Err ==> r@ == mode_name(AllocatorMode::Free),
{
    match outcome {
        Ok(s) => s,
        Err(_) => AllocatorMode::Free.name(),
    }
}

} // verus!
