//! Serialization of structured values into Fluent message arguments.
//!
//! A value that can describe its own shape is turned either into one scalar
//! argument value (a string, a number, or the absent value) or, when it is a
//! map or a struct, into a batch of named arguments that are merged into a
//! [`fluent::FluentArgs`].
//!
//! The converters have one method per shape. Each method is verified against a
//! contract that says exactly what it returns and what it does to the
//! arguments collected so far.

pub mod ser;
