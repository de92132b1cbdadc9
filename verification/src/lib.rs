//! A small runtime substrate for programs that manage their own memory and
//! talk to a C-style interface: a view type over contiguous elements, a
//! pluggable allocator protocol with an owning growable buffer on top, a
//! null-terminated byte-string convention, and a file-read front end that
//! reports success or failure as a plain value.

pub mod allocator;
pub mod array;
pub mod cstr;
pub mod file;
pub mod slice;
