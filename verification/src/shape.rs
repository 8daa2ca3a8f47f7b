//! Target shape descriptors.
//!
//! A [`Shape`] says, for each point of the recursive construction, what the
//! next stretch of input must look like: a scalar of a stated kind, a scalar
//! of whichever kind the data carries, a fixed run of sub-shapes (a tuple, or
//! a struct taken by the positional order of its fields), or a variable-length
//! sequence that consumes elements until the input is exhausted.

use vstd::prelude::*;

verus! {

/// The expected form of the next part of the input.
#[derive(Debug, PartialEq)]
pub enum Shape {
    /// One scalar that must carry a 32-bit integer.
    I32,
    /// One scalar that must carry a 64-bit integer.
    I64,
    /// One scalar of whichever kind the data carries; the kind is inferred
    /// from the tag of the next element.
    Any,
    /// A fixed run of sub-shapes, one after the other: a tuple, or a struct
    /// read as the ordered run of its field values.
    Tuple(Vec<Shape>),
    /// A homogeneous run of the element shape, repeated until the input is
    /// exhausted.
    Sequence(Box<Shape>),
}

/// Whether a successful read of this shape always consumes at least one
/// scalar. A shape for which this is false can be satisfied by no input at
/// all: an empty tuple, or a sequence (which stops at exhaustion).
pub open spec fn must_consume(s: Shape) -> bool
    decreases s, 0int, 0int,
{
    match s {
        Shape::I32 => true,
        Shape::I64 => true,
        Shape::Any => true,
        Shape::Tuple(fields) => some_field_consumes(fields@, 0),
        Shape::Sequence(_) => false,
    }
}

/// Whether some field of `fields`, from position `k` on, must consume input.
pub open spec fn some_field_consumes(fields: Seq<Shape>, k: int) -> bool
    decreases fields, fields.len() - k, 1int,
{
    if k < 0 || k >= fields.len() {
        false
    } else {
        must_consume(fields[k]) || some_field_consumes(fields, k + 1)
    }
}

/// Whether this core supports the shape. Every shape is supported except a
/// sequence whose element shape can be satisfied without consuming input:
/// such a sequence would repeat that element without ever nearing the end of
/// the input, so it is rejected outright rather than construed.
pub open spec fn wf_shape(s: Shape) -> bool
    decreases s, 0int, 0int,
{
    match s {
        Shape::I32 => true,
        Shape::I64 => true,
        Shape::Any => true,
        Shape::Tuple(fields) => wf_fields_from(fields@, 0),
        Shape::Sequence(elem) => wf_shape(*elem) && must_consume(*elem),
    }
}

/// Whether every field of `fields`, from position `k` on, is supported.
pub open spec fn wf_fields_from(fields: Seq<Shape>, k: int) -> bool
    decreases fields, fields.len() - k, 1int,
{
    if k < 0 || k >= fields.len() {
        true
    } else {
        wf_shape(fields[k]) && wf_fields_from(fields, k + 1)
    }
}

impl Shape {
    /// Whether a successful read of this shape always consumes input;
    /// decides [`must_consume`].
    pub fn consumes(&self) -> (b: bool)
        ensures
            b == must_consume(*self),
        decreases *self, 0int, 0int,
    {
        match self {
            Shape::I32 => true,
            Shape::I64 => true,
            Shape::Any => true,
            Shape::Tuple(fields) => fields_consume_from(fields, 0),
            Shape::Sequence(_) => false,
        }
    }

    /// Whether this core supports the shape; decides [`wf_shape`].
    pub fn is_supported(&self) -> (b: bool)
        ensures
            b == wf_shape(*self),
        decreases *self, 0int, 0int,
    {
        match self {
            Shape::I32 => true,
            Shape::I64 => true,
            Shape::Any => true,
            Shape::Tuple(fields) => fields_supported_from(fields, 0),
            Shape::Sequence(elem) => elem.is_supported() && elem.consumes(),
        }
    }
}

/// Decides [`some_field_consumes`] for the fields from position `k` on.
fn fields_consume_from(fields: &Vec<Shape>, k: usize) -> (b: bool)
    ensures
        b == some_field_consumes(fields@, k as int),
    decreases fields@, fields@.len() - k, 1int,
{
    if k >= fields.len() {
        false
    } else if fields[k].consumes() {
        true
    } else {
        fields_consume_from(fields, k + 1)
    }
}

/// Decides [`wf_fields_from`] for the fields from position `k` on.
fn fields_supported_from(fields: &Vec<Shape>, k: usize) -> (b: bool)
    ensures
        b == wf_fields_from(fields@, k as int),
    decreases fields@, fields@.len() - k, 1int,
{
    if k >= fields.len() {
        true
    } else if !fields[k].is_supported() {
        false
    } else {
        fields_supported_from(fields, k + 1)
    }
}

} // verus!
