use vstd::prelude::*;
use crate::json::{JsonNode, JsonNumber};
use crate::value::{Number, Value};

verus! {

/// Why a JSON node has no setting value.
#[derive(Clone, Copy, Debug, PartialEq, Eq, Structural)]
pub enum DecodeError {
    /// `null`, or a shape with no setting counterpart.
    UnsupportedType,
    /// An array holds something other than a string.
    InvalidArrayElement,
    /// An object holds a member whose value is not a string.
    InvalidMapValue,
}

/// The string a node holds; meaningful only for a string node.
pub open spec fn text_of(n: JsonNode) -> String {
    n->String_0
}

/// Every element of `items` is a string.
pub open spec fn all_texts(items: Seq<JsonNode>) -> bool {
    forall|i: int| 0 <= i < items.len() ==> (#[trigger] items[i]) is String
}

/// Every member of `entries` has a string value.
pub open spec fn all_text_members(entries: Seq<(String, JsonNode)>) -> bool {
    forall|i: int| 0 <= i < entries.len() ==> (#[trigger] entries[i]).1 is String
}

/// The setting number that a JSON number becomes.
pub open spec fn number_of(x: JsonNumber) -> Number {
    match x {
        JsonNumber::I64(i) => Number::Signed64(i),
        JsonNumber::U64(u) => Number::Unsigned64(u),
        JsonNumber::F64(bits) => Number::Float64(bits),
    }
}

/// The error that decoding `n` ends in, or `None` where it succeeds.
pub open spec fn decode_failure(n: JsonNode) -> Option<DecodeError> {
    match n {
        JsonNode::Null => Some(DecodeError::UnsupportedType),
        JsonNode::Array(items) => if all_texts(items@) {
            None
        } else {
            Some(DecodeError::InvalidArrayElement)
        },
        JsonNode::Object(entries) => if all_text_members(entries@) {
            None
        } else {
            Some(DecodeError::InvalidMapValue)
        },
        _ => None,
    }
}

/// `v` is the setting value that `n` decodes to.
pub open spec fn decodes_to(n: JsonNode, v: Value) -> bool {
    match n {
        JsonNode::Null => false,
        JsonNode::Bool(b) => v == Value::Bool(b),
        JsonNode::Number(x) => v == Value::Number(number_of(x)),
        JsonNode::String(s) => v == Value::String(s),
        JsonNode::Array(items) => v matches Value::Array(texts) && texts@ == items@.map_values(
            |x: JsonNode| text_of(x),
        ),
        JsonNode::Object(entries) => v matches Value::Pairs(pairs) && pairs@ == entries@.map_values(
            |e: (String, JsonNode)| (e.0, text_of(e.1)),
        ),
    }
}

/// Decodes a JSON node into a setting value: booleans, numbers and strings
/// carry over, an array must hold only strings, an object only string values,
/// and anything else is refused. Decoding stops at the first offending element.
pub fn parse_value(value: JsonNode) -> (r: Result<Value, DecodeError>)
    ensures
        match r {
            Ok(v) => decode_failure(value) is None && decodes_to(value, v),
            Err(e) => decode_failure(value) == Some(e),
        },
{
    match value {
        JsonNode::Bool(b) => Ok(Value::Bool(b)),
        JsonNode::Number(x) => {
            let n = match x {
                JsonNumber::I64(i) => Number::Signed64(i),
                JsonNumber::U64(u) => Number::Unsigned64(u),
                JsonNumber::F64(bits) => Number::Float64(bits),
            };
            Ok(Value::Number(n))
        },
        JsonNode::String(s) => Ok(Value::String(s)),
        JsonNode::Array(items) => {
            let mut texts: Vec<String> = Vec::new();
            let mut i: usize = 0;
            while i < items.len()
                invariant
                    value == JsonNode::Array(items),
                    i <= items.len(),
                    texts@.len() == i,
                    forall|j: int| 0 <= j < i ==> (#[trigger] items@[j]) is String,
                    forall|j: int| 0 <= j < i ==> texts@[j] == text_of(#[trigger] items@[j]),
                decreases items.len() - i,
            {
                match &items[i] {
                    JsonNode::String(s) => texts.push(s.clone()),
                    _ => {
                        assert(!all_texts(items@)) by {
                            assert(items@[i as int] !is String);
                        }
                        return Err(DecodeError::InvalidArrayElement);
                    },
                }
                i += 1;
            }
            assert(texts@ =~= items@.map_values(|x: JsonNode| text_of(x)));
            Ok(Value::Array(texts))
        },
        JsonNode::Object(entries) => {
            let mut pairs: Vec<(String, String)> = Vec::new();
            let mut i: usize = 0;
            while i < entries.len()
                invariant
                    value == JsonNode::Object(entries),
                    i <= entries.len(),
                    pairs@.len() == i,
                    forall|j: int| 0 <= j < i ==> (#[trigger] entries@[j]).1 is String,
                    forall|j: int|
                        0 <= j < i ==> pairs@[j].0 == (#[trigger] entries@[j]).0 && pairs@[j].1
                            == text_of(entries@[j].1),
                decreases entries.len() - i,
            {
                let (key, member) = &entries[i];
                match member {
                    JsonNode::String(s) => pairs.push((key.clone(), s.clone())),
                    _ => {
                        assert(!all_text_members(entries@)) by {
                            assert(entries@[i as int].1 !is String);
                        }
                        return Err(DecodeError::InvalidMapValue);
                    },
                }
                i += 1;
            }
            assert(pairs@ =~= entries@.map_values(|e: (String, JsonNode)| (e.0, text_of(e.1))));
            Ok(Value::Pairs(pairs))
        },
        JsonNode::Null => Err(DecodeError::UnsupportedType),
    }
}

/// Decodes every member of a settings object, keeping each name beside its
/// value and the members in order. The first member that does not decode ends
/// the work with its error.
pub fn decode_settings(
    entries: Vec<(String, JsonNode)>,
) -> (r: Result<Vec<(String, Value)>, DecodeError>)
    ensures
        r is Ok <==> forall|i: int|
            0 <= i < entries@.len() ==> decode_failure(#[trigger] entries@[i].1) is None,
        r matches Ok(settings) ==> {
            &&& settings@.len() == entries@.len()
            &&& forall|i: int|
                0 <= i < entries@.len() ==> (#[trigger] settings@[i]).0 == entries@[i].0
                    && decodes_to(entries@[i].1, settings@[i].1)
        },
        r matches Err(e) ==> exists|k: int|
            {
                &&& 0 <= k < entries@.len()
                &&& decode_failure(#[trigger] entries@[k].1) == Some(e)
                &&& forall|j: int| 0 <= j < k ==> decode_failure(#[trigger] entries@[j].1) is None
            },
{
    let ghost input = entries@;
    let total: usize = entries.len();
    let mut rest = entries;
    let mut settings: Vec<(String, Value)> = Vec::new();
    let mut i: usize = 0;
    while rest.len() > 0
        invariant
            input == entries@,
            input.len() == total,
            i <= input.len(),
            rest@ == input.subrange(i as int, input.len() as int),
            settings@.len() == i,
            forall|j: int| 0 <= j < i ==> decode_failure(#[trigger] input[j].1) is None,
            forall|j: int|
                0 <= j < i ==> (#[trigger] settings@[j]).0 == input[j].0 && decodes_to(
                    input[j].1,
                    settings@[j].1,
                ),
        decreases rest.len(),
    {
        let (key, node) = rest.remove(0);
        match parse_value(node) {
            Ok(v) => settings.push((key, v)),
            Err(e) => return Err(e),
        }
        i += 1;
    }
    Ok(settings)
}

impl Value {
    /// The JSON node that this value is written as: the node that decodes to it.
    pub fn as_json(&self) -> (r: JsonNode)
        ensures
            decode_failure(r) is None,
            decodes_to(r, *self),
    {
        match self {
            Value::Bool(b) => JsonNode::Bool(*b),
            Value::Number(n) => JsonNode::Number(
                match n {
                    Number::Signed64(i) => JsonNumber::I64(*i),
                    Number::Unsigned64(u) => JsonNumber::U64(*u),
                    Number::Float64(bits) => JsonNumber::F64(*bits),
                },
            ),
            Value::String(s) => JsonNode::String(s.clone()),
            Value::Array(texts) => {
                let mut items: Vec<JsonNode> = Vec::new();
                let mut i: usize = 0;
                while i < texts.len()
                    invariant
                        i <= texts@.len(),
                        items@.len() == i,
                        forall|j: int|
                            0 <= j < i ==> (#[trigger] items@[j]) == JsonNode::String(texts@[j]),
                    decreases texts.len() - i,
                {
                    items.push(JsonNode::String(texts[i].clone()));
                    i += 1;
                }
                assert(items@.map_values(|x: JsonNode| text_of(x)) =~= texts@);
                JsonNode::Array(items)
            },
            Value::Pairs(pairs) => {
                let mut entries: Vec<(String, JsonNode)> = Vec::new();
                let mut i: usize = 0;
                while i < pairs.len()
                    invariant
                        i <= pairs@.len(),
                        entries@.len() == i,
                        forall|j: int|
                            0 <= j < i ==> (#[trigger] entries@[j]) == (
                                pairs@[j].0,
                                JsonNode::String(pairs@[j].1),
                            ),
                    decreases pairs.len() - i,
                {
                    let (key, text) = &pairs[i];
                    entries.push((key.clone(), JsonNode::String(text.clone())));
                    i += 1;
                }
                assert(entries@.map_values(|e: (String, JsonNode)| (e.0, text_of(e.1))) =~= pairs@);
                JsonNode::Object(entries)
            },
        }
    }
}

/// Decoding a boolean, a number or a string succeeds, and writing the value
/// back as JSON gives the very node that was decoded.
pub proof fn lemma_scalar_round_trip(n: JsonNode, v: Value, back: JsonNode)
    requires
        n is Bool || n is Number || n is String,
        decodes_to(n, v),
        decodes_to(back, v),
    ensures
        decode_failure(n) is None,
        back == n,
{
}

} // verus!
