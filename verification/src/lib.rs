//! Deserialization of strongly typed values from a flat, ordered sequence of
//! kind-tagged scalars.
//!
//! The input is a read-only slice of [`data::Value`] scalars. A
//! [`cursor::Deserializer`] tracks a single read position over it and hands
//! out one type-checked scalar per request. [`parse::construct`] drives a
//! whole recursive construction against a [`shape::Shape`] descriptor and
//! rejects inputs that leave scalars unconsumed. The properties that hold of
//! the construction as a whole are stated and proved in [`laws`].

pub mod cursor;
pub mod data;
pub mod laws;
pub mod node;
pub mod parse;
pub mod shape;
