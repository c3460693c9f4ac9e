//! A static purity analysis for smart contracts.
//!
//! The analysis decides, for every function a contract defines, whether
//! calling it can ever write to persistent state, and rejects a contract in
//! which a function declared read-only can reach a write.
//!
//! - [`representations`] holds the expression tree and its literal values.
//! - [`functions`] holds the catalogues of defining forms and of built-in
//!   operators, with the rule by which each operator is classified.
//! - [`database`] holds what is known of the functions of other contracts.
//! - [`purity`] defines, as mathematics, what the analysis computes.
//! - [`checker`] is the analysis itself, proved to compute just that.
//! - [`errors`] holds what the analysis reports when it rejects a contract.
//! - [`laws`] holds properties of the analysis, proved from its definition.
pub mod checker;
pub mod database;
pub mod errors;
pub mod functions;
pub mod laws;
pub mod purity;
pub mod representations;
pub mod types;
