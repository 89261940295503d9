//! What the extension store of a router holds: values whose concrete type
//! has been erased into a tagged `Value`, and the `Payload` types that can be
//! stored and read back under their own type.

use vstd::prelude::*;

verus! {

/// The tag of a stored value: which type it was stored as.
#[derive(PartialEq, Eq, Structural, Clone, Copy, Debug, Hash)]
pub enum Kind {
    Flag,
    Int,
    Uint,
    Text,
    Bytes,
}

/// A stored value with its concrete type erased.
#[derive(Debug)]
pub enum Value {
    Flag(bool),
    Int(i64),
    Uint(u64),
    Text(String),
    Bytes(Vec<u8>),
}

impl Value {
    /// The tag of the value.
    pub open spec fn kind(self) -> Kind {
        match self {
            Value::Flag(_) => Kind::Flag,
            Value::Int(_) => Kind::Int,
            Value::Uint(_) => Kind::Uint,
            Value::Text(_) => Kind::Text,
            Value::Bytes(_) => Kind::Bytes,
        }
    }
}

/// A type whose values the extension store can hold.
///
/// Storing erases the type into a `Value` under the type's tag; reading
/// succeeds only under the tag that the value was stored with.
pub trait Payload: Sized {
    /// The tag that values of this type are stored under.
    spec fn kind() -> Kind;

    /// The stored form of a value of this type.
    spec fn stored(self) -> Value;

    /// The value of this type that a stored value holds; `None` when it was
    /// stored as another type.
    spec fn recovered(value: Value) -> Option<Self>;

    /// A stored value carries the tag of its type and is read back unchanged.
    proof fn lemma_stored(self)
        ensures
            self.stored().kind() == Self::kind(),
            Self::recovered(self.stored()) == Some(self),
    ;

    /// Reading succeeds exactly on this type's tag, and then yields the value
    /// whose stored form was read.
    proof fn lemma_recovered(value: Value)
        ensures
            Self::recovered(value) is Some <==> value.kind() == Self::kind(),
            Self::recovered(value) matches Some(x) ==> x.stored() == value,
    ;

    /// Erases the type of `self`.
    fn into_value(self) -> (value: Value)
        ensures
            value == self.stored(),
    ;

    /// Reads a stored value back as this type.
    fn downcast_ref(value: &Value) -> (out: Option<&Self>)
        ensures
            match Self::recovered(*value) {
                Some(x) => out == Some(&x),
                None => out is None,
            },
    ;
}

impl Payload for bool {
    open spec fn kind() -> Kind {
        Kind::Flag
    }

    open spec fn stored(self) -> Value {
        Value::Flag(self)
    }

    open spec fn recovered(value: Value) -> Option<bool> {
        match value {
            Value::Flag(x) => Some(x),
            _ => None,
        }
    }

    proof fn lemma_stored(self) {
    }

    proof fn lemma_recovered(value: Value) {
    }

    fn into_value(self) -> (value: Value) {
        Value::Flag(self)
    }

    fn downcast_ref(value: &Value) -> (out: Option<&bool>) {
        match value {
            Value::Flag(x) => Some(x),
            _ => None,
        }
    }
}

impl Payload for i64 {
    open spec fn kind() -> Kind {
        Kind::Int
    }

    open spec fn stored(self) -> Value {
        Value::Int(self)
    }

    open spec fn recovered(value: Value) -> Option<i64> {
        match value {
            Value::Int(x) => Some(x),
            _ => None,
        }
    }

    proof fn lemma_stored(self) {
    }

    proof fn lemma_recovered(value: Value) {
    }

    fn into_value(self) -> (value: Value) {
        Value::Int(self)
    }

    fn downcast_ref(value: &Value) -> (out: Option<&i64>) {
        match value {
            Value::Int(x) => Some(x),
            _ => None,
        }
    }
}

impl Payload for u64 {
    open spec fn kind() -> Kind {
        Kind::Uint
    }

    open spec fn stored(self) -> Value {
        Value::Uint(self)
    }

    open spec fn recovered(value: Value) -> Option<u64> {
        match value {
            Value::Uint(x) => Some(x),
            _ => None,
        }
    }

    proof fn lemma_stored(self) {
    }

    proof fn lemma_recovered(value: Value) {
    }

    fn into_value(self) -> (value: Value) {
        Value::Uint(self)
    }

    fn downcast_ref(value: &Value) -> (out: Option<&u64>) {
        match value {
            Value::Uint(x) => Some(x),
            _ => None,
        }
    }
}

impl Payload for String {
    open spec fn kind() -> Kind {
        Kind::Text
    }

    open spec fn stored(self) -> Value {
        Value::Text(self)
    }

    open spec fn recovered(value: Value) -> Option<String> {
        match value {
            Value::Text(x) => Some(x),
            _ => None,
        }
    }

    proof fn lemma_stored(self) {
    }

    proof fn lemma_recovered(value: Value) {
    }

    fn into_value(self) -> (value: Value) {
        Value::Text(self)
    }

    fn downcast_ref(value: &Value) -> (out: Option<&String>) {
        match value {
            Value::Text(x) => Some(x),
            _ => None,
        }
    }
}

impl Payload for Vec<u8> {
    open spec fn kind() -> Kind {
        Kind::Bytes
    }

    open spec fn stored(self) -> Value {
        Value::Bytes(self)
    }

    open spec fn recovered(value: Value) -> Option<Vec<u8>> {
        match value {
            Value::Bytes(x) => Some(x),
            _ => None,
        }
    }

    proof fn lemma_stored(self) {
    }

    proof fn lemma_recovered(value: Value) {
    }

    fn into_value(self) -> (value: Value) {
        Value::Bytes(self)
    }

    fn downcast_ref(value: &Value) -> (out: Option<&Vec<u8>>) {
        match value {
            Value::Bytes(x) => Some(x),
            _ => None,
        }
    }
}

} // verus!
