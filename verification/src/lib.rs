//! Generation engine for wrapper types: single-field types that guard
//! construction behind a validating function and otherwise behave like their
//! inner value.
//!
//! The engine takes a structural description of a type declaration together
//! with a set of attributes, checks that the declaration is shaped correctly
//! (no generic parameters, a struct with exactly one field), extracts the
//! inner field's declared type, and decides which of four independent
//! capability units to emit: serialization, display, conversion and parse.
//! Rendering the units into final program text is left to the caller.

pub mod descriptor;
pub mod primitives;
pub mod value_object;
