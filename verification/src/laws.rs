//! The laws of the construction: proofs that relate the parse to the input
//! sequence as a whole.

use vstd::prelude::*;

use crate::data::{Error, Kind, Value};
use crate::node::{flatten, flatten_all, lemma_flatten_all_cons, SpecNode};
use crate::parse::{spec_construct, spec_parse, spec_parse_elems, spec_parse_fields};
use crate::shape::{must_consume, some_field_consumes, wf_fields_from, wf_shape, Shape};

verus! {

/// Left-to-right consumption, stated for every shape and nesting: a
/// successful parse at position `i` ends at some `j` past it, and the
/// constructed value flattens back to exactly the contiguous run of scalars
/// between `i` and `j` — no scalar skipped, reordered, or invented.
pub proof fn lemma_parse_flatten(input: Seq<Value>, shape: Shape, i: int)
    requires
        0 <= i <= input.len(),
    ensures
        spec_parse(input, shape, i) matches Ok((m, j)) ==> (i <= j <= input.len() && flatten(m)
            == input.subrange(i, j)),
    decreases input.len() - i, shape, 0int, 0int,
{
    match shape {
        Shape::I32 => {
            if i < input.len() {
                assert(input.subrange(i, i + 1) =~= seq![input[i]]);
            }
        },
        Shape::I64 => {
            if i < input.len() {
                assert(input.subrange(i, i + 1) =~= seq![input[i]]);
            }
        },
        Shape::Any => {
            if i < input.len() {
                assert(input.subrange(i, i + 1) =~= seq![input[i]]);
            }
        },
        Shape::Tuple(fields) => {
            lemma_parse_fields_flatten(input, fields@, 0, i);
        },
        Shape::Sequence(elem) => {
            lemma_parse_elems_flatten(input, *elem, i);
        },
    }
}

/// [`lemma_parse_flatten`], for the run of `fields` from field `k` on: the
/// fields' values sit side by side, each flattening to its own contiguous run.
pub proof fn lemma_parse_fields_flatten(input: Seq<Value>, fields: Seq<Shape>, k: int, i: int)
    requires
        0 <= i <= input.len(),
    ensures
        spec_parse_fields(input, fields, k, i) matches Ok((ms, j)) ==> (i <= j <= input.len()
            && flatten_all(ms, 0) == input.subrange(i, j)),
    decreases input.len() - i, fields, fields.len() - k, 1int,
{
    if 0 <= k < fields.len() {
        lemma_parse_flatten(input, fields[k], i);
        match spec_parse(input, fields[k], i) {
            Ok(first) => {
                let (m, j) = first;
                if i <= j <= input.len() {
                    lemma_parse_fields_flatten(input, fields, k + 1, j);
                    match spec_parse_fields(input, fields, k + 1, j) {
                        Ok(rest) => {
                            let (ms, end) = rest;
                            lemma_flatten_all_cons(m, ms);
                            assert(input.subrange(i, end) =~= input.subrange(i, j)
                                + input.subrange(j, end));
                        },
                        Err(_) => {},
                    }
                }
            },
            Err(_) => {},
        }
    }
}

/// [`lemma_parse_flatten`] for a variable-length sequence, with exhaustion on
/// top: a successful sequence parse always ends exactly at the input length —
/// it consumes element after element until `peek` reports exhaustion, never
/// under- or over-reading the available input.
pub proof fn lemma_parse_elems_flatten(input: Seq<Value>, elem: Shape, i: int)
    requires
        0 <= i <= input.len(),
    ensures
        spec_parse_elems(input, elem, i) matches Ok((ms, j)) ==> (j == input.len() && flatten_all(
            ms,
            0,
        ) == input.subrange(i, j)),
    decreases input.len() - i, elem, 0int, 1int,
{
    if i >= input.len() {
        assert(input.subrange(i, i) =~= Seq::<Value>::empty());
    } else {
        lemma_parse_flatten(input, elem, i);
        match spec_parse(input, elem, i) {
            Ok(first) => {
                let (m, j) = first;
                if i < j <= input.len() {
                    lemma_parse_elems_flatten(input, elem, j);
                    match spec_parse_elems(input, elem, j) {
                        Ok(rest) => {
                            let (ms, end) = rest;
                            lemma_flatten_all_cons(m, ms);
                            assert(input.subrange(i, end) =~= input.subrange(i, j)
                                + input.subrange(j, end));
                        },
                        Err(_) => {},
                    }
                }
            },
            Err(_) => {},
        }
    }
}

/// The round trip, stated for the whole construction: whatever value
/// [`spec_construct`] builds flattens back to the entire input sequence, in
/// order.
pub proof fn lemma_construct_round_trip(input: Seq<Value>, shape: Shape)
    ensures
        spec_construct(input, shape) matches Ok(m) ==> flatten(m) == input,
{
    lemma_parse_flatten(input, shape, 0);
    assert(input.subrange(0, input.len() as int) =~= input);
}

/// Every field shape in a run of plain scalar fields is supported.
proof fn lemma_scalar_fields_wf(fields: Seq<Shape>, k: int)
    requires
        forall|t: int| 0 <= t < fields.len() ==> !(#[trigger] fields[t] is Tuple) && !(fields[t]
            is Sequence),
    ensures
        wf_fields_from(fields, k),
    decreases fields.len() - k,
{
    if 0 <= k < fields.len() {
        assert(!(fields[k] is Tuple) && !(fields[k] is Sequence));
        assert(wf_shape(fields[k]));
        lemma_scalar_fields_wf(fields, k + 1);
    }
}

/// The run of 32-bit fields from position `k` on, against the matching run of
/// 32-bit scalars from position `k` on, parses to exactly those scalars in
/// order and ends at the input length.
proof fn lemma_i32_run(input: Seq<Value>, fields: Seq<Shape>, k: int)
    requires
        fields.len() == input.len(),
        0 <= k <= fields.len(),
        forall|t: int| 0 <= t < fields.len() ==> fields[t] == Shape::I32,
        forall|t: int| 0 <= t < input.len() ==> #[trigger] input[t] is I32,
    ensures
        ({
            let r = spec_parse_fields(input, fields, k, k);
            &&& r matches Ok((ms, end))
            &&& end == input.len()
            &&& ms.len() == input.len() - k
            &&& forall|t: int| 0 <= t < ms.len() ==> ms[t] == SpecNode::I32(input[k + t]->I32_0)
        }),
    decreases fields.len() - k,
{
    if k < fields.len() {
        assert(fields[k] == Shape::I32);
        assert(input[k] is I32);
        assert(spec_parse(input, fields[k], k) == Ok::<(SpecNode, int), Error>(
            (SpecNode::I32(input[k]->I32_0), k + 1),
        ));
        lemma_i32_run(input, fields, k + 1);
    }
}

/// Round trip on a matching flat shape: a run of 32-bit scalars, constructed
/// against a flat tuple or struct of as many 32-bit fields, succeeds, and the
/// field values equal the scalars in order.
pub proof fn lemma_round_trip_flat(input: Seq<Value>, fields: Vec<Shape>)
    requires
        fields@.len() == input.len(),
        forall|t: int| 0 <= t < fields@.len() ==> fields@[t] == Shape::I32,
        forall|t: int| 0 <= t < input.len() ==> #[trigger] input[t] is I32,
    ensures
        wf_shape(Shape::Tuple(fields)),
        ({
            let r = spec_construct(input, Shape::Tuple(fields));
            &&& r matches Ok(m)
            &&& m matches SpecNode::List(items)
            &&& items.len() == input.len()
            &&& forall|t: int| 0 <= t < items.len() ==> items[t] == SpecNode::I32(input[t]->I32_0)
        }),
{
    lemma_scalar_fields_wf(fields@, 0);
    lemma_i32_run(input, fields@, 0);
}

/// Kind strictness: a target whose first field demands a 64-bit integer,
/// against an input whose first scalar carries a 32-bit integer, fails with
/// exactly a kind mismatch — the scalar is never widened.
pub proof fn lemma_kind_strict(input: Seq<Value>, fields: Vec<Shape>)
    requires
        fields@.len() >= 1,
        fields@[0] == Shape::I64,
        input.len() >= 1,
        input[0] is I32,
    ensures
        spec_construct(input, Shape::Tuple(fields)) == Err::<SpecNode, Error>(
            Error::TypeMismatch { expected: Kind::I64, found: Kind::I32 },
        ),
{
    let mismatch = Error::TypeMismatch { expected: Kind::I64, found: Kind::I32 };
    assert(spec_parse(input, fields@[0], 0) == Err::<(SpecNode, int), Error>(mismatch));
    assert(spec_parse_fields(input, fields@, 0, 0) == Err::<(Seq<SpecNode>, int), Error>(mismatch));
}

/// Exhaustion signalling: a sequence target consumes elements until the input
/// is exhausted and then stops without error — successfully parsed, it always
/// ends exactly at the input length, and at exhaustion it yields the empty
/// list consuming nothing.
pub proof fn lemma_sequence_exhaustion(input: Seq<Value>, shape: Shape, i: int)
    requires
        0 <= i <= input.len(),
        shape is Sequence,
    ensures
        spec_parse(input, shape, i) matches Ok((m, j)) ==> j == input.len(),
        i == input.len() ==> spec_parse(input, shape, i) == Ok::<(SpecNode, int), Error>(
            (SpecNode::List(Seq::empty()), i),
        ),
{
    lemma_parse_elems_flatten(input, *shape->Sequence_0, i);
}

/// Trailing-input rejection: when construction of the target succeeds without
/// consuming the whole input, the construction as a whole fails with exactly
/// `InputNotEmpty`, even though a value was built from the prefix.
pub proof fn lemma_trailing_rejected(input: Seq<Value>, shape: Shape)
    requires
        spec_parse(input, shape, 0) matches Ok((m, j)) && j < input.len(),
    ensures
        spec_construct(input, shape) == Err::<SpecNode, Error>(Error::InputNotEmpty),
{
}

/// Progress: a shape that must consume input, parsed successfully, leaves the
/// position strictly past where it started. In particular the element of a
/// supported sequence shape consumes at least one scalar per round, so the
/// sequence nears the end of the input at every step.
pub proof fn lemma_parse_progress(input: Seq<Value>, shape: Shape, i: int)
    requires
        0 <= i <= input.len(),
        must_consume(shape),
    ensures
        spec_parse(input, shape, i) matches Ok((m, j)) ==> j > i,
    decreases input.len() - i, shape, 0int, 0int,
{
    match shape {
        Shape::Tuple(fields) => {
            lemma_fields_progress(input, fields@, 0, i);
        },
        _ => {},
    }
}

/// [`lemma_parse_progress`] for the run of `fields` from field `k` on, when
/// some remaining field must consume input.
proof fn lemma_fields_progress(input: Seq<Value>, fields: Seq<Shape>, k: int, i: int)
    requires
        0 <= i <= input.len(),
        some_field_consumes(fields, k),
    ensures
        spec_parse_fields(input, fields, k, i) matches Ok((ms, j)) ==> j > i,
    decreases input.len() - i, fields, fields.len() - k, 1int,
{
    if 0 <= k < fields.len() {
        lemma_parse_flatten(input, fields[k], i);
        match spec_parse(input, fields[k], i) {
            Ok(first) => {
                let (m, j) = first;
                if i <= j <= input.len() {
                    if must_consume(fields[k]) {
                        lemma_parse_progress(input, fields[k], i);
                        lemma_parse_fields_flatten(input, fields, k + 1, j);
                    } else {
                        lemma_fields_progress(input, fields, k + 1, j);
                    }
                }
            },
            Err(_) => {},
        }
    }
}

/// At an exhausted position, a shape that must consume input fails with
/// exactly `InputEmpty`, and a shape that need not consume succeeds consuming
/// nothing.
proof fn lemma_exhausted_parse(input: Seq<Value>, shape: Shape, i: int)
    requires
        i == input.len(),
    ensures
        must_consume(shape) ==> spec_parse(input, shape, i) == Err::<(SpecNode, int), Error>(
            Error::InputEmpty,
        ),
        !must_consume(shape) ==> (spec_parse(input, shape, i) matches Ok((m, j)) && j == i),
    decreases shape, 0int, 0int,
{
    match shape {
        Shape::Tuple(fields) => {
            lemma_exhausted_fields(input, fields@, 0, i);
        },
        _ => {},
    }
}

/// [`lemma_exhausted_parse`] for the run of `fields` from field `k` on.
proof fn lemma_exhausted_fields(input: Seq<Value>, fields: Seq<Shape>, k: int, i: int)
    requires
        i == input.len(),
    ensures
        some_field_consumes(fields, k) ==> spec_parse_fields(input, fields, k, i) == Err::<
            (Seq<SpecNode>, int),
            Error,
        >(Error::InputEmpty),
        !some_field_consumes(fields, k) ==> (spec_parse_fields(input, fields, k, i) matches Ok(
            (ms, j),
        ) && j == i),
    decreases fields, fields.len() - k, 1int,
{
    if 0 <= k < fields.len() {
        lemma_exhausted_parse(input, fields[k], i);
        if !must_consume(fields[k]) {
            lemma_exhausted_fields(input, fields, k + 1, i);
        }
    }
}

/// Empty-input failure: over an empty input, any target that requires at
/// least one scalar fails with exactly `InputEmpty` — no value is ever
/// fabricated.
pub proof fn lemma_empty_input(input: Seq<Value>, shape: Shape)
    requires
        input.len() == 0,
        must_consume(shape),
    ensures
        spec_construct(input, shape) == Err::<SpecNode, Error>(Error::InputEmpty),
{
    lemma_exhausted_parse(input, shape, 0);
}

} // verus!
