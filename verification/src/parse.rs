//! The construction driver: building a typed value of a requested shape from
//! the input sequence.
//!
//! The behaviour is stated once, as the spec functions [`spec_parse`],
//! [`spec_parse_fields`] and [`spec_parse_elems`], and the executable
//! functions are proved to implement them exactly. All consumption goes
//! through one [`Deserializer`] threaded by mutable reference through the
//! recursion, so scalars are consumed strictly left to right however the
//! target shape nests.

use vstd::prelude::*;

use crate::cursor::Deserializer;
use crate::data::{Error, Kind, Value};
use crate::node::{nodes_view, Node, SpecNode};
use crate::shape::{wf_shape, Shape};

verus! {

broadcast use vstd::string::group_string_axioms;

/// What parsing one `shape` at position `i` of `input` yields: the
/// constructed value's model and the position just past its scalars, or the
/// first error met.
///
/// A sequence whose element can be read without consuming input would repeat
/// that element forever; the definition stops such a read with an error (the
/// driver rejects those shapes before parsing, see [`construct`]).
pub open spec fn spec_parse(input: Seq<Value>, shape: Shape, i: int) -> Result<(SpecNode, int), Error>
    recommends
        0 <= i <= input.len(),
    decreases input.len() - i, shape, 0int, 0int,
{
    match shape {
        Shape::I32 => if i < 0 || i >= input.len() {
            Err(Error::InputEmpty)
        } else {
            match input[i] {
                Value::I32(v) => Ok((SpecNode::I32(v), i + 1)),
                Value::I64(_) => Err(Error::TypeMismatch { expected: Kind::I32, found: Kind::I64 }),
            }
        },
        Shape::I64 => if i < 0 || i >= input.len() {
            Err(Error::InputEmpty)
        } else {
            match input[i] {
                Value::I64(v) => Ok((SpecNode::I64(v), i + 1)),
                Value::I32(_) => Err(Error::TypeMismatch { expected: Kind::I64, found: Kind::I32 }),
            }
        },
        Shape::Any => if i < 0 || i >= input.len() {
            Err(Error::InputEmpty)
        } else {
            match input[i] {
                Value::I32(v) => Ok((SpecNode::I32(v), i + 1)),
                Value::I64(v) => Ok((SpecNode::I64(v), i + 1)),
            }
        },
        Shape::Tuple(fields) => match spec_parse_fields(input, fields@, 0, i) {
            Ok((items, j)) => Ok((SpecNode::List(items), j)),
            Err(e) => Err(e),
        },
        Shape::Sequence(elem) => match spec_parse_elems(input, *elem, i) {
            Ok((items, j)) => Ok((SpecNode::List(items), j)),
            Err(e) => Err(e),
        },
    }
}

/// What parsing the run of `fields`, from field `k` on, at position `i`
/// yields: the field values' models in order and the position just past them,
/// or the first error met.
///
/// A field parse never moves the position backwards nor past the end of the
/// input; the guard on the sub-parse's end keeps the recursion visibly
/// well-founded and is never taken.
pub open spec fn spec_parse_fields(
    input: Seq<Value>,
    fields: Seq<Shape>,
    k: int,
    i: int,
) -> Result<(Seq<SpecNode>, int), Error>
    recommends
        0 <= i <= input.len(),
        0 <= k <= fields.len(),
    decreases input.len() - i, fields, fields.len() - k, 1int,
{
    if k < 0 || k >= fields.len() {
        Ok((Seq::empty(), i))
    } else {
        match spec_parse(input, fields[k], i) {
            Err(e) => Err(e),
            Ok((m, j)) => if j < i || j > input.len() {
                Err(Error::InputNotEmpty)
            } else {
                match spec_parse_fields(input, fields, k + 1, j) {
                    Err(e) => Err(e),
                    Ok((ms, end)) => Ok((seq![m] + ms, end)),
                }
            },
        }
    }
}

/// What parsing elements of shape `elem` from position `i` until the input is
/// exhausted yields: the element models in order and the input length, or the
/// first error met. An element read that consumes nothing stops with an error
/// rather than repeating forever.
pub open spec fn spec_parse_elems(input: Seq<Value>, elem: Shape, i: int) -> Result<
    (Seq<SpecNode>, int),
    Error,
>
    recommends
        0 <= i <= input.len(),
    decreases input.len() - i, elem, 0int, 1int,
{
    if i < 0 || i >= input.len() {
        Ok((Seq::empty(), i))
    } else {
        match spec_parse(input, elem, i) {
            Err(e) => Err(e),
            Ok((m, j)) => if j <= i || j > input.len() {
                Err(Error::InputNotEmpty)
            } else {
                match spec_parse_elems(input, elem, j) {
                    Err(e) => Err(e),
                    Ok((ms, end)) => Ok((seq![m] + ms, end)),
                }
            },
        }
    }
}

/// What [`construct`] returns on a supported shape: the whole parse from
/// position zero, which must consume the input exactly — trailing scalars are
/// an error even though a value was built from the prefix.
pub open spec fn spec_construct(input: Seq<Value>, shape: Shape) -> Result<SpecNode, Error> {
    match spec_parse(input, shape, 0) {
        Err(e) => Err(e),
        Ok((m, j)) => if j == input.len() {
            Ok(m)
        } else {
            Err(Error::InputNotEmpty)
        },
    }
}

/// Parses one value of shape `shape` at the cursor's position; implements
/// [`spec_parse`] exactly.
fn parse_shape(de: &mut Deserializer, shape: &Shape) -> (r: Result<Node, Error>)
    requires
        old(de).wf(),
    ensures
        final(de).wf(),
        final(de).input_seq() == old(de).input_seq(),
        final(de).index() >= old(de).index(),
        match spec_parse(old(de).input_seq(), *shape, old(de).index()) {
            Ok((m, j)) => r matches Ok(n) && n@ == m && final(de).index() == j,
            Err(e) => r == Err::<Node, Error>(e),
        },
    decreases old(de).input_seq().len() - old(de).index(), *shape, 0int, 0int,
{
    match shape {
        Shape::I32 => match de.next_i32() {
            Ok(v) => Ok(Node::I32(v)),
            Err(e) => Err(e),
        },
        Shape::I64 => match de.next_i64() {
            Ok(v) => Ok(Node::I64(v)),
            Err(e) => Err(e),
        },
        Shape::Any => match de.next_value() {
            Ok(Value::I32(v)) => Ok(Node::I32(v)),
            Ok(Value::I64(v)) => Ok(Node::I64(v)),
            Err(e) => Err(e),
        },
        Shape::Tuple(fields) => match parse_fields(de, fields, 0) {
            Ok(items) => Ok(Node::List(items)),
            Err(e) => Err(e),
        },
        Shape::Sequence(elem) => match parse_elems(de, elem) {
            Ok(items) => Ok(Node::List(items)),
            Err(e) => Err(e),
        },
    }
}

/// Parses the run of `fields`, from field `k` on, at the cursor's position;
/// implements [`spec_parse_fields`] exactly.
fn parse_fields(de: &mut Deserializer, fields: &Vec<Shape>, k: usize) -> (r: Result<
    Vec<Node>,
    Error,
>)
    requires
        old(de).wf(),
        k <= fields@.len(),
    ensures
        final(de).wf(),
        final(de).input_seq() == old(de).input_seq(),
        final(de).index() >= old(de).index(),
        match spec_parse_fields(old(de).input_seq(), fields@, k as int, old(de).index()) {
            Ok((ms, j)) => r matches Ok(items) && nodes_view(items@, 0) == ms && final(de).index()
                == j,
            Err(e) => r == Err::<Vec<Node>, Error>(e),
        },
    decreases old(de).input_seq().len() - old(de).index(), fields@, fields@.len() - k, 1int,
{
    if k >= fields.len() {
        return Ok(Vec::new());
    }
    let first = match parse_shape(de, &fields[k]) {
        Ok(n) => n,
        Err(e) => {
            return Err(e);
        },
    };
    let ghost m = first@;
    let mut items = match parse_fields(de, fields, k + 1) {
        Ok(items) => items,
        Err(e) => {
            return Err(e);
        },
    };
    let ghost rest = items@;
    items.insert(0, first);
    proof {
        assert(items@ =~= seq![first] + rest);
        crate::node::lemma_nodes_view(items@, 0);
        crate::node::lemma_nodes_view(rest, 0);
        assert(nodes_view(items@, 0) =~= seq![m] + nodes_view(rest, 0));
    }
    Ok(items)
}

/// Parses elements of shape `elem` until the input is exhausted; implements
/// [`spec_parse_elems`] exactly.
fn parse_elems(de: &mut Deserializer, elem: &Shape) -> (r: Result<Vec<Node>, Error>)
    requires
        old(de).wf(),
    ensures
        final(de).wf(),
        final(de).input_seq() == old(de).input_seq(),
        final(de).index() >= old(de).index(),
        match spec_parse_elems(old(de).input_seq(), *elem, old(de).index()) {
            Ok((ms, j)) => r matches Ok(items) && nodes_view(items@, 0) == ms && final(de).index()
                == j,
            Err(e) => r == Err::<Vec<Node>, Error>(e),
        },
    decreases old(de).input_seq().len() - old(de).index(), *elem, 0int, 1int,
{
    if de.peek_value().is_err() {
        return Ok(Vec::new());
    }
    let start = de.position();
    let first = match parse_shape(de, elem) {
        Ok(n) => n,
        Err(e) => {
            return Err(e);
        },
    };
    if de.position() <= start {
        return Err(Error::InputNotEmpty);
    }
    let ghost m = first@;
    let mut items = match parse_elems(de, elem) {
        Ok(items) => items,
        Err(e) => {
            return Err(e);
        },
    };
    let ghost rest = items@;
    items.insert(0, first);
    proof {
        assert(items@ =~= seq![first] + rest);
        crate::node::lemma_nodes_view(items@, 0);
        crate::node::lemma_nodes_view(rest, 0);
        assert(nodes_view(items@, 0) =~= seq![m] + nodes_view(rest, 0));
    }
    Ok(items)
}

/// The sole public entry point: builds one value of shape `shape` from
/// `input`, consuming it exactly.
///
/// On a supported shape the result is exactly what [`spec_construct`] states:
/// the constructed value if the whole input was consumed, the first read
/// error otherwise, and [`Error::InputNotEmpty`] if construction succeeded
/// without reaching the end of the input. A shape this core cannot represent
/// — a sequence whose element consumes no input — is rejected outright with a
/// plain-message error, never construed.
pub fn construct(input: &[Value], shape: &Shape) -> (r: Result<Node, Error>)
    ensures
        wf_shape(*shape) ==> match spec_construct(input@, *shape) {
            Ok(m) => r matches Ok(n) && n@ == m,
            Err(e) => r == Err::<Node, Error>(e),
        },
        !wf_shape(*shape) ==> (r matches Err(e) && e matches Error::Message(msg) && msg@
            == "unsupported shape"@),
{
    if !shape.is_supported() {
        return Err(Error::Message("unsupported shape".to_string()));
    }
    let mut de = Deserializer::from_values(input);
    let built = match parse_shape(&mut de, shape) {
        Ok(n) => n,
        Err(e) => {
            return Err(e);
        },
    };
    if de.peek_value().is_ok() {
        return Err(Error::InputNotEmpty);
    }
    Ok(built)
}

} // verus!
