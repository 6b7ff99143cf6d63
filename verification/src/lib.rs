//! Exact, bounds-checked random-access reads over an immutable byte region
//! backed by a memory mapping.
//!
//! The capability is [`read::ExactRandomRead`]: fill a caller's buffer
//! completely from the region at a given offset, or fail cleanly without
//! touching the buffer. Its one implementation, [`mmap::MappedRegionReader`],
//! serves reads by direct memory access over an already-established mapping.

pub mod mmap;
pub mod read;
