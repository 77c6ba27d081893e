use vstd::prelude::*;

verus! {

/// A numeric setting; the three representations never mix.
#[derive(Clone, Copy, Debug, PartialEq, Eq, Structural)]
pub enum Number {
    Signed64(i64),
    Unsigned64(u64),
    /// An IEEE-754 binary64 number, held as its bit pattern.
    Float64(u64),
}

/// The value of one setting of an extension.
#[derive(Clone, Debug, PartialEq)]
pub enum Value {
    Bool(bool),
    Number(Number),
    String(String),
    /// A list of strings, in order.
    Array(Vec<String>),
    /// Key and value pairs, in order; a key may repeat.
    Pairs(Vec<(String, String)>),
}

} // verus!
