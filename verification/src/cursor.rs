//! A position-tracked cursor over the input sequence.
//!
//! All consumption during one recursive construction goes through exactly one
//! cursor, shared by mutable reference, so the whole construction has a single
//! global consumption order however deeply the target shape nests.

use vstd::prelude::*;

use crate::data::{Error, Kind, Value};

verus! {

/// A borrowed view of the input sequence together with a zero-based read
/// position. The position never exceeds the input length and only ever
/// advances, by exactly one per successful read.
pub struct Deserializer<'de> {
    input: &'de [Value],
    idx: usize,
}

impl<'de> Deserializer<'de> {
    /// The input sequence this cursor reads from.
    pub closed spec fn input_seq(&self) -> Seq<Value> {
        self.input@
    }

    /// The current read position.
    pub closed spec fn index(&self) -> int {
        self.idx as int
    }

    /// The read position never exceeds the input length.
    pub open spec fn wf(&self) -> bool {
        0 <= self.index() <= self.input_seq().len()
    }

    /// A cursor over `input`, positioned at its first element.
    pub fn from_values(input: &'de [Value]) -> (de: Self)
        ensures
            de.input_seq() == input@,
            de.index() == 0,
            de.wf(),
    {
        Deserializer { input, idx: 0 }
    }

    /// The current read position, for the driver's end-of-construction check
    /// and for detecting whether a sub-construction consumed input.
    pub fn position(&self) -> (i: usize)
        ensures
            i as int == self.index(),
    {
        self.idx
    }

    /// The element at the current position, without advancing. Fails with
    /// [`Error::InputEmpty`] exactly when the input is exhausted.
    pub fn peek_value(&self) -> (r: Result<Value, Error>)
        ensures
            self.index() < self.input_seq().len() ==> r == Ok::<Value, Error>(
                self.input_seq()[self.index()],
            ),
            self.index() >= self.input_seq().len() ==> r == Err::<Value, Error>(Error::InputEmpty),
    {
        if self.idx >= self.input.len() {
            return Err(Error::InputEmpty);
        }
        Ok(self.input[self.idx])
    }

    /// The element at the current position, advancing past it, whatever its
    /// kind. Fails with [`Error::InputEmpty`] exactly when the input is
    /// exhausted, and then leaves the position unchanged.
    pub fn next_value(&mut self) -> (r: Result<Value, Error>)
        ensures
            final(self).input_seq() == old(self).input_seq(),
            old(self).index() < old(self).input_seq().len() ==> {
                &&& r == Ok::<Value, Error>(old(self).input_seq()[old(self).index()])
                &&& final(self).index() == old(self).index() + 1
            },
            old(self).index() >= old(self).input_seq().len() ==> {
                &&& r == Err::<Value, Error>(Error::InputEmpty)
                &&& final(self).index() == old(self).index()
            },
    {
        if self.idx >= self.input.len() {
            return Err(Error::InputEmpty);
        }
        let old_idx = self.idx;
        self.idx += 1;
        Ok(self.input[old_idx])
    }

    /// The next element unwrapped as a 32-bit integer. The read is atomic:
    /// either the element carries kind [`Kind::I32`] and is consumed, or
    /// nothing is consumed and the error says exactly why — `InputEmpty` at
    /// exhaustion, `TypeMismatch` on a 64-bit element.
    pub fn next_i32(&mut self) -> (r: Result<i32, Error>)
        ensures
            final(self).input_seq() == old(self).input_seq(),
            old(self).index() < old(self).input_seq().len() ==> {
                match old(self).input_seq()[old(self).index()] {
                    Value::I32(v) => {
                        &&& r == Ok::<i32, Error>(v)
                        &&& final(self).index() == old(self).index() + 1
                    },
                    Value::I64(_) => {
                        &&& r == Err::<i32, Error>(
                            Error::TypeMismatch { expected: Kind::I32, found: Kind::I64 },
                        )
                        &&& final(self).index() == old(self).index()
                    },
                }
            },
            old(self).index() >= old(self).input_seq().len() ==> {
                &&& r == Err::<i32, Error>(Error::InputEmpty)
                &&& final(self).index() == old(self).index()
            },
    {
        match self.peek_value()? {
            Value::I32(v) => {
                let _ = self.next_value();
                Ok(v)
            },
            Value::I64(_) => Err(Error::TypeMismatch { expected: Kind::I32, found: Kind::I64 }),
        }
    }

    /// The next element unwrapped as a 64-bit integer; symmetric to
    /// [`Self::next_i32`] with the kinds reversed.
    pub fn next_i64(&mut self) -> (r: Result<i64, Error>)
        ensures
            final(self).input_seq() == old(self).input_seq(),
            old(self).index() < old(self).input_seq().len() ==> {
                match old(self).input_seq()[old(self).index()] {
                    Value::I64(v) => {
                        &&& r == Ok::<i64, Error>(v)
                        &&& final(self).index() == old(self).index() + 1
                    },
                    Value::I32(_) => {
                        &&& r == Err::<i64, Error>(
                            Error::TypeMismatch { expected: Kind::I64, found: Kind::I32 },
                        )
                        &&& final(self).index() == old(self).index()
                    },
                }
            },
            old(self).index() >= old(self).input_seq().len() ==> {
                &&& r == Err::<i64, Error>(Error::InputEmpty)
                &&& final(self).index() == old(self).index()
            },
    {
        match self.peek_value()? {
            Value::I64(v) => {
                let _ = self.next_value();
                Ok(v)
            },
            Value::I32(_) => Err(Error::TypeMismatch { expected: Kind::I64, found: Kind::I32 }),
        }
    }
}

} // verus!
