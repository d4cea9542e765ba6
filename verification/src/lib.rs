//! A growable, contiguous container with explicit control over capacity,
//! growth and element lifetime, layered as three owned components:
//!
//! * `RawBuffer` owns the backing storage and its capacity and
//!   handles growth by doubling; it never touches element values.
//! * [`Vec`] composes a buffer with a logical length and provides the
//!   sequence operations (push, pop, insert, remove, get, index).
//! * [`IntoIter`] consumes a [`Vec`] and yields its elements by value from
//!   both ends until exhausted.
//!
//! Every operation carries a contract over the container's mathematical view
//! (a `Seq` of its live elements); [`laws`] states and proves the general
//! properties that relate several operations.

mod into_iter;
pub mod laws;
mod raw_buffer;
mod vector;

pub use into_iter::IntoIter;
pub use vector::OutOfBounds;
pub use vector::Vec;
