//! The core of a harness that drives a content-source extension: settings
//! arrive as JSON and are decoded into a closed set of typed values, and each
//! call into the extension is wrapped with timing and result reporting that
//! leave its result untouched.

pub mod arguments;
pub mod json;
pub mod value;
pub mod parsing;
pub mod instrument;
pub mod lifecycle;

pub use arguments::Args;
pub use json::{JsonNode, JsonNumber};
pub use parsing::{decode_settings, parse_value, DecodeError};
pub use value::{Number, Value};
pub use instrument::{instrument, printit, timeit};
pub use lifecycle::{advance, Reply, RunError, StageKind, Step};
