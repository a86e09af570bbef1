//! Risk metrics for one parsed source file of a language with an explicit
//! "trust region" construct: a lexical scope (function, method, or inline
//! block) that opts out of the language's default safety guarantees.
//!
//! The crate walks a syntax tree once, in pre-order, counting six categories
//! of constructs as inside or outside a trust region, and collects one
//! diagnostic line per closed region describing its size and whether a
//! raw-pointer dereference was seen while the region was open.
pub mod counters;
pub mod properties;
pub mod scan;
pub mod stats;
pub mod tree;
pub mod visitor;
