use vstd::prelude::*;

verus! {

/// A JSON number, in the form the literal was read in.
#[derive(Clone, Copy, Debug, PartialEq, Eq, Structural)]
pub enum JsonNumber {
    /// An integer without a sign that fits in 64 bits.
    U64(u64),
    /// An integer with a minus sign, or one that only fits as signed.
    I64(i64),
    /// A literal with a fraction or an exponent, as its IEEE-754 binary64 bit pattern.
    F64(u64),
}

/// A parsed JSON document.
#[derive(Debug, PartialEq)]
pub enum JsonNode {
    Null,
    Bool(bool),
    Number(JsonNumber),
    String(String),
    Array(Vec<JsonNode>),
    /// The members of an object, in the order the parser gives them.
    Object(Vec<(String, JsonNode)>),
}

} // verus!
