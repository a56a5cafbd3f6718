//! A bump-style allocator for a single 64KiB linear memory page, together
//! with the 32-bit wire encoding of its allocation descriptors.
//!
//! An allocation is an `(offset, length)` pair of 16-bit values describing a
//! byte range inside the page. The pair crosses a host/guest boundary that
//! can only exchange single integers, so it is packed into one `u32`: the
//! high 16 bits carry the offset, the low 16 bits the length. A word whose
//! length field is zero is not an allocation but an error code, selected by
//! its offset field.
//!
//! [`codec`] holds the packing, unpacking and validation of such words;
//! [`stack`] manages the page itself as a strict LIFO stack of allocations;
//! [`return_code`] is the catalog of error codes a zero-length word can
//! select.

pub mod codec;
pub mod return_code;
pub mod stack;
