//! Numeric and storage primitives for a telemetry histogram library:
//! the linear bucket-index algorithm with its boundary-clamping policy,
//! a named type-erased storage container, a value-flattening capability
//! for heterogeneous sample kinds, and a growable-buffer utility used to
//! preallocate bucket arrays.

pub mod buckets;
pub mod buffer;
pub mod flatten;
pub mod storage;

pub use buckets::LinearBuckets;
pub use buffer::{vec_resize, vec_with_size};
pub use flatten::Flatten;
pub use storage::{NamedStorage, SerializationFormat, Subset};
