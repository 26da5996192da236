//! Accessor generation for enumerated error types.
//!
//! Every variant of an error enumeration carries a `detail` annotation with a
//! `status` and a `message` entry. From a description of such a type this
//! crate produces the source text of three accessor methods: `error_code`,
//! `http_status` and `message`.

pub mod descriptor;
pub mod detail;
pub mod failure;
pub mod generator;
pub mod laws;
pub mod scan;
pub mod syntax;
