//! Wire types of the client protocol: the SQL command enumeration, the
//! bound-parameter values, and the row/response payloads, together with
//! the value-coercion rules used when reading columns back.

use vstd::prelude::*;

verus! {

use vstd::string::StringExecFns;
use vstd::utf8::encode_utf8;
use crate::text::{parse_i64_spec, parse_i64_str, i64_dec_chars, i64_to_dec_string};
use crate::float_bits::{f32_trunc_i64_spec, f32_bits_trunc_i64, f64_trunc_i64_spec, f64_bits_trunc_i64};

/// A point in time, as seconds since the epoch plus a sub-second part.
/// Timestamps travel in commands and rows as plain values; only the
/// unverified edge renders or parses calendar forms.
#[derive(Debug, Clone, Copy, PartialEq, Eq, Structural)]
pub struct Timestamp {
    pub secs: i64,
    pub nanos: u32,
}

impl Default for Timestamp {
    fn default() -> (r: Timestamp)
        ensures
            r.secs == 0 && r.nanos == 0,
    {
        Timestamp { secs: 0, nanos: 0 }
    }
}

/// One bound parameter or one column of a result row.
///
/// The two floating-point kinds carry the raw bit pattern of the number:
/// bit patterns preserve every value exactly, the unverified edge turns
/// them back into machine floats, and the one numeric operation the
/// coercions need — truncation to an integer — is computed from the
/// bits (see `float_bits`).
#[derive(Debug, Clone)]
pub enum Value {
    Null,
    Bool(bool),
    Int(i64),
    F32(u32),
    F64(u64),
    String(String),
    DateTime(Timestamp),
    Blob(Vec<u8>),
}

/// One column of a row.
pub type Col = Value;

/// One result row.
#[derive(Debug, Clone, Default)]
pub struct Row {
    pub inner: Vec<Col>,
}

/// The rows of a query result.
pub type Rows = Vec<Row>;

/// A client command: the SQL text plus positionally bound parameters,
/// in one of four fetch disciplines.
#[derive(Debug, Clone)]
pub enum Message {
    Execute(String, Vec<Value>),
    Fetch(String, Vec<Value>),
    FetchOne(String, Vec<Value>),
    FetchOptional(String, Vec<Value>),
}

/// The reply to a command: either rows, or the SQL engine's error text.
/// An error here is a normal, deterministic outcome of a committed
/// command, not a storage failure.
#[derive(Debug, Clone)]
pub enum MessageResponse {
    Rows(Rows),
    Error(String),
}

impl Message {
    /// The SQL text of this command.
    pub open spec fn sql_spec(self) -> Seq<char> {
        match self {
            Message::Execute(s, _) => s@,
            Message::Fetch(s, _) => s@,
            Message::FetchOne(s, _) => s@,
            Message::FetchOptional(s, _) => s@,
        }
    }

    /// The bound parameters of this command.
    pub open spec fn params_spec(self) -> Seq<Value> {
        match self {
            Message::Execute(_, p) => p@,
            Message::Fetch(_, p) => p@,
            Message::FetchOne(_, p) => p@,
            Message::FetchOptional(_, p) => p@,
        }
    }

    pub fn sql(&self) -> (r: &str)
        ensures
            r@ == self.sql_spec(),
    {
        match self {
            Message::Execute(s, _) => s.as_str(),
            Message::Fetch(s, _) => s.as_str(),
            Message::FetchOne(s, _) => s.as_str(),
            Message::FetchOptional(s, _) => s.as_str(),
        }
    }
}

impl From<i64> for Value {
    fn from(i: i64) -> (r: Value) {
        Value::Int(i)
    }
}

impl vstd::std_specs::convert::FromSpecImpl<i64> for Value {
    open spec fn obeys_from_spec() -> bool {
        true
    }

    open spec fn from_spec(i: i64) -> Value {
        Value::Int(i)
    }
}

impl From<bool> for Value {
    fn from(b: bool) -> (r: Value) {
        Value::Bool(b)
    }
}

impl vstd::std_specs::convert::FromSpecImpl<bool> for Value {
    open spec fn obeys_from_spec() -> bool {
        true
    }

    open spec fn from_spec(b: bool) -> Value {
        Value::Bool(b)
    }
}

impl From<String> for Value {
    fn from(s: String) -> (r: Value) {
        Value::String(s)
    }
}

impl vstd::std_specs::convert::FromSpecImpl<String> for Value {
    open spec fn obeys_from_spec() -> bool {
        true
    }

    open spec fn from_spec(s: String) -> Value {
        Value::String(s)
    }
}

impl From<Timestamp> for Value {
    fn from(ts: Timestamp) -> (r: Value) {
        Value::DateTime(ts)
    }
}

impl vstd::std_specs::convert::FromSpecImpl<Timestamp> for Value {
    open spec fn obeys_from_spec() -> bool {
        true
    }

    open spec fn from_spec(ts: Timestamp) -> Value {
        Value::DateTime(ts)
    }
}

impl From<Vec<Value>> for Row {
    fn from(inner: Vec<Value>) -> (r: Row) {
        Row { inner }
    }
}

impl vstd::std_specs::convert::FromSpecImpl<Vec<Value>> for Row {
    open spec fn obeys_from_spec() -> bool {
        true
    }

    open spec fn from_spec(inner: Vec<Value>) -> Row {
        Row { inner }
    }
}

/// Reading a typed value out of a column, with the fixed coercion rules
/// of the wire format.
pub trait FromValueRef: Sized {
    /// Whether `r` is what coercing the column value `v` yields.
    spec fn value_matches(v: Value, r: Self) -> bool;

    fn from_value_ref(value: &Value) -> (r: Self)
        ensures
            Self::value_matches(*value, r),
    ;
}

impl FromValueRef for i64 {
    open spec fn value_matches(v: Value, r: i64) -> bool {
        r == match v {
            Value::Null => 0,
            Value::Bool(b) => if b {
                1
            } else {
                0
            },
            Value::Int(i) => i,
            Value::F32(bits) => f32_trunc_i64_spec(bits),
            Value::F64(bits) => f64_trunc_i64_spec(bits),
            Value::String(s) => parse_i64_spec(encode_utf8(s@)),
            Value::DateTime(ts) => ts.secs,
            Value::Blob(_) => 0,
        }
    }

    fn from_value_ref(value: &Value) -> (r: i64) {
        match value {
            Value::Null => 0,
            Value::Bool(b) => if *b {
                1
            } else {
                0
            },
            Value::Int(i) => *i,
            Value::F32(bits) => f32_bits_trunc_i64(*bits),
            Value::F64(bits) => f64_bits_trunc_i64(*bits),
            Value::String(s) => parse_i64_str(s.as_str()),
            Value::DateTime(ts) => ts.secs,
            Value::Blob(_) => 0,
        }
    }
}

impl FromValueRef for i32 {
    open spec fn value_matches(v: Value, r: i32) -> bool {
        r == match v {
            Value::Null => 0,
            Value::Bool(b) => if b {
                1
            } else {
                0
            },
            Value::Int(i) => i as i32,
            Value::F32(bits) => {
                let w = f32_trunc_i64_spec(bits);
                if w < i32::MIN {
                    i32::MIN
                } else if w > i32::MAX {
                    i32::MAX
                } else {
                    w as i32
                }
            },
            Value::F64(bits) => {
                let w = f64_trunc_i64_spec(bits);
                if w < i32::MIN {
                    i32::MIN
                } else if w > i32::MAX {
                    i32::MAX
                } else {
                    w as i32
                }
            },
            Value::String(s) => {
                let w = parse_i64_spec(encode_utf8(s@));
                if i32::MIN <= w <= i32::MAX {
                    w as i32
                } else {
                    0
                }
            },
            Value::DateTime(ts) => ts.secs as i32,
            Value::Blob(_) => 0,
        }
    }

    fn from_value_ref(value: &Value) -> (r: i32) {
        match value {
            Value::Null => 0,
            Value::Bool(b) => if *b {
                1
            } else {
                0
            },
            Value::Int(i) => #[verifier::truncate] (*i as i32),
            Value::F32(bits) => {
                let w = f32_bits_trunc_i64(*bits);
                if w < i32::MIN as i64 {
                    i32::MIN
                } else if w > i32::MAX as i64 {
                    i32::MAX
                } else {
                    w as i32
                }
            },
            Value::F64(bits) => {
                let w = f64_bits_trunc_i64(*bits);
                if w < i32::MIN as i64 {
                    i32::MIN
                } else if w > i32::MAX as i64 {
                    i32::MAX
                } else {
                    w as i32
                }
            },
            Value::String(s) => {
                let w = parse_i64_str(s.as_str());
                if i32::MIN as i64 <= w && w <= i32::MAX as i64 {
                    w as i32
                } else {
                    0
                }
            },
            Value::DateTime(ts) => #[verifier::truncate] (ts.secs as i32),
            Value::Blob(_) => 0,
        }
    }
}

impl FromValueRef for bool {
    open spec fn value_matches(v: Value, r: bool) -> bool {
        r == match v {
            Value::Null => false,
            Value::Bool(b) => b,
            Value::Int(i) => i != 0,
            // 0.0 and -0.0 are the only f32 bit patterns that compare
            // equal to zero; every other pattern (NaN included) does not
            Value::F32(bits) => !(bits == 0 || bits == 0x8000_0000u32),
            Value::F64(bits) => !(bits == 0 || bits == 0x8000_0000_0000_0000u64),
            Value::String(s) => s@ == "true"@ || s@ == "True"@ || s@ == "1"@,
            Value::DateTime(ts) => ts.secs != 0,
            Value::Blob(b) => b@.len() != 0,
        }
    }

    fn from_value_ref(value: &Value) -> (r: bool) {
        match value {
            Value::Null => false,
            Value::Bool(b) => *b,
            Value::Int(i) => *i != 0,
            Value::F32(bits) => !(*bits == 0 || *bits == 0x8000_0000u32),
            Value::F64(bits) => !(*bits == 0 || *bits == 0x8000_0000_0000_0000u64),
            Value::String(s) => {
                let t = String::from_str("true");
                let tc = String::from_str("True");
                let one = String::from_str("1");
                *s == t || *s == tc || *s == one
            },
            Value::DateTime(ts) => ts.secs != 0,
            Value::Blob(b) => b.len() != 0,
        }
    }
}

impl FromValueRef for String {
    open spec fn value_matches(v: Value, r: String) -> bool {
        r@ == match v {
            Value::Null => Seq::<char>::empty(),
            Value::Bool(b) => if b {
                "true"@
            } else {
                "false"@
            },
            Value::Int(i) => i64_dec_chars(i as int),
            Value::F32(_) => Seq::<char>::empty(),
            Value::F64(_) => Seq::<char>::empty(),
            Value::String(s) => s@,
            Value::DateTime(_) => Seq::<char>::empty(),
            Value::Blob(_) => Seq::<char>::empty(),
        }
    }

    fn from_value_ref(value: &Value) -> (r: String) {
        match value {
            Value::Null => String::new(),
            Value::Bool(b) => if *b {
                String::from_str("true")
            } else {
                String::from_str("false")
            },
            Value::Int(i) => i64_to_dec_string(*i),
            Value::F32(_) => String::new(),
            Value::F64(_) => String::new(),
            Value::String(s) => s.clone(),
            Value::DateTime(_) => String::new(),
            Value::Blob(_) => String::new(),
        }
    }
}

impl FromValueRef for Timestamp {
    open spec fn value_matches(v: Value, r: Timestamp) -> bool {
        r == match v {
            Value::DateTime(ts) => ts,
            _ => Timestamp { secs: 0, nanos: 0 },
        }
    }

    fn from_value_ref(value: &Value) -> (r: Timestamp) {
        match value {
            Value::DateTime(ts) => *ts,
            _ => Timestamp { secs: 0, nanos: 0 },
        }
    }
}

impl Row {
    /// Reads column `idx`, coerced to the requested type.
    pub fn get<T: FromValueRef>(&self, idx: usize) -> (r: T)
        requires
            idx < self.inner@.len(),
        ensures
            T::value_matches(self.inner@[idx as int], r),
    {
        T::from_value_ref(&self.inner[idx])
    }

    /// Number of columns in the row.
    pub fn len(&self) -> (r: usize)
        ensures
            r == self.inner@.len(),
    {
        self.inner.len()
    }
}

/// Whether some bound parameter is the null value, which the execution
/// path rejects before touching the engine.
pub open spec fn has_null_param(params: Seq<Value>) -> bool {
    exists|i: int| 0 <= i < params.len() && params[i] is Null
}

/// The error text a command with a null parameter is answered with.
pub open spec fn null_param_error() -> Seq<char> {
    "passing null parameter considered an error"@
}

/// Validates the bound parameters of a command before execution: binding
/// a null parameter is an error, every other value can be bound.
pub fn check_params(params: &Vec<Value>) -> (r: Result<(), String>)
    ensures
        r is Ok <==> !has_null_param(params@),
        r matches Err(e) ==> e@ == null_param_error(),
{
    let n = params.len();
    let mut i: usize = 0;
    while i < n
        invariant
            0 <= i <= n,
            n == params@.len(),
            forall|j: int| 0 <= j < i ==> !(#[trigger] params@[j] is Null),
        decreases n - i,
    {
        let is_null = match &params[i] {
            Value::Null => true,
            _ => false,
        };
        if is_null {
            return Err(String::from_str("passing null parameter considered an error"));
        }
        i = i + 1;
    }
    Ok(())
}

} // verus!
