//! The scalar vocabulary and the error model.

use vstd::prelude::*;

verus! {

/// One tagged scalar of the input sequence: the closed union of the two
/// supported primitive kinds.
#[derive(Debug, Clone, Copy, PartialEq, Eq)]
pub enum Value {
    I32(i32),
    I64(i64),
}

/// The tag of a [`Value`], without its payload. Used to report which kind a
/// read expected and which kind it found.
#[derive(Debug, Clone, Copy, PartialEq, Eq, Structural)]
pub enum Kind {
    I32,
    I64,
}

impl Value {
    /// The tag of this scalar.
    pub open spec fn spec_kind(self) -> Kind {
        match self {
            Value::I32(_) => Kind::I32,
            Value::I64(_) => Kind::I64,
        }
    }

    /// The tag of this scalar.
    pub fn kind(&self) -> (k: Kind)
        ensures
            k == self.spec_kind(),
    {
        match self {
            Value::I32(_) => Kind::I32,
            Value::I64(_) => Kind::I64,
        }
    }
}

/// Everything that can go wrong while constructing a typed value from the
/// input sequence.
#[derive(Debug, Clone, PartialEq)]
pub enum Error {
    /// Construction succeeded but left scalars unconsumed.
    InputNotEmpty,
    /// A read was attempted with nothing left to consume.
    InputEmpty,
    /// A scalar of one kind was required but the next element carries a
    /// different tag; the mismatching element is left unconsumed.
    TypeMismatch { expected: Kind, found: Kind },
    /// An error raised outside this core, kept as a plain message.
    Message(String),
}

impl Error {
    /// A descriptive message for the error: the carried message for
    /// [`Error::Message`], a fixed description for each other kind.
    pub fn message(&self) -> (s: &str)
        ensures
            match self {
                Error::InputNotEmpty => s@ == "unexpected input remaining"@,
                Error::InputEmpty => s@ == "unexpected end of input"@,
                Error::TypeMismatch { .. } => s@ == "type mismatch detected"@,
                Error::Message(msg) => s@ == msg@,
            },
    {
        match self {
            Error::InputNotEmpty => "unexpected input remaining",
            Error::InputEmpty => "unexpected end of input",
            Error::TypeMismatch { .. } => "type mismatch detected",
            Error::Message(msg) => msg.as_str(),
        }
    }
}

} // verus!
