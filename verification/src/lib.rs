//! Mutually-exclusive optional fields: a shape analyzer that decides whether a
//! record type is a flat list of optional slots, and an exclusivity checker
//! that counts which slots of an instance are present and demands exactly one.

pub mod analyzer;
pub mod checker;
