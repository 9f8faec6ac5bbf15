use vstd::prelude::*;

verus! {

/// One protocol-native value inside a raw result row. The wire protocol
/// carries more shapes than these; these are the ones the supported query
/// templates can yield in a returned column, so they are all the library
/// ever has to read.
#[derive(Debug)]
pub enum Value {
    /// An absent optional property.
    Null,
    /// A signed 64-bit integer.
    Integer(i64),
    /// A text property.
    Text(String),
}

/// One raw result row: an ordered, position-indexed sequence of values.
/// Which position holds which logical field is a per-template contract,
/// kept in lockstep by the projection functions.
#[derive(Debug)]
pub struct Record {
    pub fields: Vec<Value>,
}

/// The integer a value carries; meaningful only when the value
/// `is Integer`.
pub open spec fn as_int(v: Value) -> i64 {
    match v {
        Value::Integer(i) => i,
        _ => 0,
    }
}

/// The text a value carries; meaningful only when the value `is Text`.
pub open spec fn as_text(v: Value) -> Seq<char> {
    match v {
        Value::Text(s) => s@,
        _ => Seq::empty(),
    }
}

} // verus!
