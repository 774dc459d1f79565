//! Semantic resolution of trait declarations.
//!
//! Two things live here. The first gives every concrete trait, a trait
//! together with the generic arguments it is instantiated with, one small
//! handle: equal instantiations share a handle and different ones never do.
//! The second computes what is known of a trait declaration (its generic
//! parameters, its attributes and the diagnostics found on the way) from the
//! declaration's syntax, as a function of an immutable snapshot of the
//! modules. The computation writes to nothing but its own result, so whoever
//! keeps results may hand out a kept one for as long as the snapshot stands.
//!
//! All contracts are stated over views: sequences and maps of plain values.

pub mod attribute;
pub mod db;
pub mod diagnostic;
pub mod ids;
pub mod interner;
pub mod snapshot;
pub mod syntax;
pub mod trt;
