//! A static-analysis rule that flags error-mapping calls whose closure
//! discards the original error and replaces it with a constant, argument-less
//! variant of a user-defined error enum (`x.map_err(|_| Error::Variant)`).
//!
//! The host analysis framework parses and resolves the program, walks the
//! syntax tree, and hands each resolved expression node to the detector; the
//! detector is a pure function from one node to an optional diagnostic.

pub mod ast;
pub mod detector;
pub mod laws;
