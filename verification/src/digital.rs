//! Digital I/O.
//!
//! The trait generations and the shims that translate between them.

// Infallible traits
pub mod v1;

// Fallible traits, superseded by `v3` because of the name collision with `v1`
pub mod v2;

// New fallible traits
pub mod v3;

// v3 -> v1 compatibility wrappers; these require explicit conversion
pub mod v1_compat;

// v1 -> v2 shims and v3 -> v2 wrappers
pub mod v2_compat;

// v2 -> v3 compatibility shims, implicit over v1 and v2 implementations
pub mod v3_compat;

// Pin implementations with known behaviour, for exercising the shims
pub mod mock;
