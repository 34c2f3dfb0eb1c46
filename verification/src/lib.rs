//! Redaction of literal values in SQL text.
//!
//! `redact` parses its input under a chosen dialect, replaces every literal
//! value — string, numeric, boolean, NULL or date/time — with the fixed
//! placeholder `?`, and renders each statement back as canonical SQL
//! terminated by `;`.  Identifiers, keywords, operators and clause structure
//! are untouched, so queries can be logged, cached or grouped without
//! exposing the data they carried.
//!
//! The statement-tree model, the redaction pass over it and the laws that
//! pass obeys live in `ast`, `redactor` and `laws`; the `pipeline` module
//! drives the external parser and serializer around the verified core.

pub mod ast;
pub mod laws;
pub mod pipeline;
pub mod redactor;

pub use pipeline::Dialect;
pub use pipeline::Error;
pub use pipeline::redact;
