//! Verified utilities for the boilerplate of manual memory management.
//!
//! The core of the crate is the allocation facade under [`allocation`]: paired
//! `plain` (failure-returning) and `lazy` (aborting) operations for single
//! values and element arrays, built over one caller-supplied raw allocator
//! capability, with overflow-safe request sizing and uniform treatment of
//! zero-sized element types. [`uncheckedslice`] offers slice wrappers whose
//! bounds obligations are preconditions discharged at verification time
//! rather than runtime checks.

pub mod allocation;
pub mod uncheckedslice;
