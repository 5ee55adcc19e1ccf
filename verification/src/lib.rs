//! Type-safe wrappers around validated borrowed and owned string values,
//! together with the capability-resolution and synthesis engine that decides
//! which constructors, accessors and comparison implementations a validated
//! string newtype receives.
//!
//! The engine side lives in [`config`] (configuration fragments and the
//! resolver that merges them), [`artifact`] (the structured description of
//! every generated item) and [`synthesize`] (the synthesizers that turn a
//! resolved configuration into its exact artifact sequence); [`laws`] proves
//! the global-consistency properties of that pipeline. The runtime side
//! lives in [`validate`] (the externally supplied validation contract and
//! the trusted-buffer capability), [`borrowed`] and [`owned`] (the wrapper
//! types whose behaviour the generated code follows), with [`foo`] and
//! [`tag`] as two worked instances.

use vstd::prelude::*;

pub mod artifact;
pub mod borrowed;
pub mod config;
pub mod foo;
pub mod laws;
pub mod owned;
pub mod synthesize;
pub mod tag;
pub mod text;
pub mod validate;

pub use validate::Buffer;
pub use validate::Validator;

verus! {

/// Lexicographic comparison outcome for byte sequences.
#[derive(Clone, Copy, Debug, PartialEq, Eq, Structural)]
pub enum Comparison {
    Less,
    Equal,
    Greater,
}

} // verus!
