//! A hardware abstraction layer for digital I/O pins.
//!
//! Three generations of pin traits live side by side: the infallible `v1`
//! traits, the fallible `v2` traits, and the renamed fallible `v3` traits.
//! Compatibility shims let an implementation written against one generation
//! serve consumers of another, and their contracts pin down exactly how pin
//! state and failure behaviour carry across each adapter boundary.

pub mod digital;
