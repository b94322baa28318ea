//! SQLite type information: mapping declared column type names to the
//! value kind they decode as, by the type-affinity naming rules.

use vstd::prelude::*;

verus! {

use vstd::string::StringSliceAdditionalSpecFns;

/// The value kind of a column.
#[derive(Debug, Copy, Clone, PartialEq, Eq, Structural)]
pub enum DataType {
    Null,
    Int,
    Float,
    Text,
    Blob,
    Numeric,
    Bool,
    Int64,
    Date,
    Time,
    Datetime,
}

/// Type information for a SQLite column.
#[derive(Debug, Clone, Copy, PartialEq, Eq, Structural)]
pub struct RXQLiteTypeInfo(pub DataType);

/// Ascii lowercasing of one byte.
pub open spec fn to_ascii_lower(b: u8) -> u8 {
    if 65 <= b <= 90 {
        (b + 32) as u8
    } else {
        b
    }
}

/// Ascii lowercasing of a byte string.
pub open spec fn lower_bytes(s: Seq<u8>) -> Seq<u8> {
    s.map_values(|b: u8| to_ascii_lower(b))
}

/// Whether `sub` occurs in `s` starting at position `i`.
pub open spec fn matches_at(s: Seq<u8>, sub: Seq<u8>, i: int) -> bool {
    forall|j: int| 0 <= j < sub.len() ==> s[i + j] == sub[j]
}

/// Whether `sub` occurs anywhere in `s`.
pub open spec fn contains_sub(s: Seq<u8>, sub: Seq<u8>) -> bool {
    exists|i: int| 0 <= i && i + sub.len() <= s.len() && matches_at(s, sub, i)
}

// The keyword byte strings of the type-affinity rules, in ascii.
pub open spec fn kw_int4() -> Seq<u8> {
    seq![105u8, 110u8, 116u8, 52u8]
}

pub open spec fn kw_int8() -> Seq<u8> {
    seq![105u8, 110u8, 116u8, 56u8]
}

pub open spec fn kw_boolean() -> Seq<u8> {
    seq![98u8, 111u8, 111u8, 108u8, 101u8, 97u8, 110u8]
}

pub open spec fn kw_bool() -> Seq<u8> {
    seq![98u8, 111u8, 111u8, 108u8]
}

pub open spec fn kw_date() -> Seq<u8> {
    seq![100u8, 97u8, 116u8, 101u8]
}

pub open spec fn kw_time() -> Seq<u8> {
    seq![116u8, 105u8, 109u8, 101u8]
}

pub open spec fn kw_datetime() -> Seq<u8> {
    seq![100u8, 97u8, 116u8, 101u8, 116u8, 105u8, 109u8, 101u8]
}

pub open spec fn kw_timestamp() -> Seq<u8> {
    seq![116u8, 105u8, 109u8, 101u8, 115u8, 116u8, 97u8, 109u8, 112u8]
}

pub open spec fn kw_int() -> Seq<u8> {
    seq![105u8, 110u8, 116u8]
}

pub open spec fn kw_char() -> Seq<u8> {
    seq![99u8, 104u8, 97u8, 114u8]
}

pub open spec fn kw_clob() -> Seq<u8> {
    seq![99u8, 108u8, 111u8, 98u8]
}

pub open spec fn kw_text() -> Seq<u8> {
    seq![116u8, 101u8, 120u8, 116u8]
}

pub open spec fn kw_blob() -> Seq<u8> {
    seq![98u8, 108u8, 111u8, 98u8]
}

pub open spec fn kw_real() -> Seq<u8> {
    seq![114u8, 101u8, 97u8, 108u8]
}

pub open spec fn kw_floa() -> Seq<u8> {
    seq![102u8, 108u8, 111u8, 97u8]
}

pub open spec fn kw_doub() -> Seq<u8> {
    seq![100u8, 111u8, 117u8, 98u8]
}

/// The type-affinity rule: what a declared type name (already
/// lowercased) maps to, or `None` for an unknown name. Exact names are
/// tried first, then the affinity substrings, in this order.
pub open spec fn data_type_of_lower(s: Seq<u8>) -> Option<DataType> {
    if s == kw_int4() {
        Some(DataType::Int)
    } else if s == kw_int8() {
        Some(DataType::Int64)
    } else if s == kw_boolean() || s == kw_bool() {
        Some(DataType::Bool)
    } else if s == kw_date() {
        Some(DataType::Date)
    } else if s == kw_time() {
        Some(DataType::Time)
    } else if s == kw_datetime() || s == kw_timestamp() {
        Some(DataType::Datetime)
    } else if contains_sub(s, kw_int()) {
        Some(DataType::Int64)
    } else if contains_sub(s, kw_char()) || contains_sub(s, kw_clob()) || contains_sub(
        s,
        kw_text(),
    ) {
        Some(DataType::Text)
    } else if contains_sub(s, kw_blob()) {
        Some(DataType::Blob)
    } else if contains_sub(s, kw_real()) || contains_sub(s, kw_floa()) || contains_sub(
        s,
        kw_doub(),
    ) {
        Some(DataType::Float)
    } else {
        None
    }
}

/// What a declared type name maps to: the affinity rule applied to its
/// lowercased bytes.
pub open spec fn data_type_of(raw: Seq<u8>) -> Option<DataType> {
    data_type_of_lower(lower_bytes(raw))
}

/// Compares a byte vector to a byte slice.
fn bytes_eq(v: &Vec<u8>, w: &[u8]) -> (r: bool)
    ensures
        r == (v@ == w@),
{
    if v.len() != w.len() {
        proof {
            assert(v@ != w@) by {
                assert(v@.len() != w@.len());
            }
        }
        return false;
    }
    let n = v.len();
    let mut i: usize = 0;
    while i < n
        invariant
            0 <= i <= n,
            n == v@.len() && n == w@.len(),
            forall|j: int| 0 <= j < i ==> v@[j] == w@[j],
        decreases n - i,
    {
        if v[i] != w[i] {
            return false;
        }
        i = i + 1;
    }
    proof {
        assert(v@ =~= w@);
    }
    true
}

/// Whether the needle occurs anywhere in the haystack.
fn bytes_contain(hay: &Vec<u8>, needle: &[u8]) -> (r: bool)
    ensures
        r == contains_sub(hay@, needle@),
{
    let m = needle.len();
    let n = hay.len();
    if m > n {
        return false;
    }
    let mut i: usize = 0;
    while i <= n - m
        invariant
            0 <= i <= n - m + 1,
            m <= n,
            n == hay@.len() && m == needle@.len(),
            forall|p: int| 0 <= p < i ==> !matches_at(hay@, needle@, p),
        decreases n - m + 1 - i,
    {
        let mut j: usize = 0;
        let mut hit = true;
        while j < m
            invariant
                0 <= j <= m,
                0 <= i <= n - m,
                n == hay@.len() && m == needle@.len(),
                hit ==> forall|q: int| 0 <= q < j ==> hay@[i + q] == needle@[q],
                !hit ==> !matches_at(hay@, needle@, i as int),
            decreases m - j,
        {
            if hay[i + j] != needle[j] {
                proof {
                    assert(!matches_at(hay@, needle@, i as int)) by {
                        assert(hay@[i + j] != needle@[j as int]);
                    }
                }
                hit = false;
                j = m;
            } else {
                j = j + 1;
            }
        }
        if hit {
            assert(matches_at(hay@, needle@, i as int));
            return true;
        }
        i = i + 1;
    }
    false
}

impl DataType {
    /// Maps a declared column type name to its value kind, by the
    /// type-affinity rules; `None` for an unknown name.
    pub fn from_str(s: &str) -> (r: Option<DataType>)
        ensures
            r == data_type_of(s.spec_bytes()),
    {
        let bytes = s.as_bytes();
        let n = bytes.len();
        let mut lower: Vec<u8> = Vec::new();
        let mut i: usize = 0;
        while i < n
            invariant
                0 <= i <= n,
                n == bytes@.len(),
                lower@ == lower_bytes(bytes@.take(i as int)),
            decreases n - i,
        {
            let b = bytes[i];
            let lb = if 65 <= b && b <= 90 {
                b + 32
            } else {
                b
            };
            lower.push(lb);
            proof {
                assert(lower@ =~= lower_bytes(bytes@.take(i + 1 as int))) by {
                    assert(bytes@.take(i + 1 as int).drop_last() =~= bytes@.take(i as int));
                    assert(lower_bytes(bytes@.take(i + 1 as int)) =~= lower_bytes(
                        bytes@.take(i as int),
                    ).push(to_ascii_lower(b)));
                }
            }
            i = i + 1;
        }
        proof {
            assert(bytes@.take(n as int) =~= bytes@);
        }
        if bytes_eq(&lower, &[105u8, 110u8, 116u8, 52u8]) {
            proof {
                assert(lower@ == kw_int4()) by {
                    assert([105u8, 110u8, 116u8, 52u8]@ =~= kw_int4());
                }
            }
            Some(DataType::Int)
        } else if bytes_eq(&lower, &[105u8, 110u8, 116u8, 56u8]) {
            proof {
                assert([105u8, 110u8, 116u8, 56u8]@ =~= kw_int8());
            }
            Some(DataType::Int64)
        } else if bytes_eq(&lower, &[98u8, 111u8, 111u8, 108u8, 101u8, 97u8, 110u8]) || bytes_eq(
            &lower,
            &[98u8, 111u8, 111u8, 108u8],
        ) {
            proof {
                assert([98u8, 111u8, 111u8, 108u8, 101u8, 97u8, 110u8]@ =~= kw_boolean());
                assert([98u8, 111u8, 111u8, 108u8]@ =~= kw_bool());
            }
            Some(DataType::Bool)
        } else if bytes_eq(&lower, &[100u8, 97u8, 116u8, 101u8]) {
            proof {
                assert([100u8, 97u8, 116u8, 101u8]@ =~= kw_date());
            }
            Some(DataType::Date)
        } else if bytes_eq(&lower, &[116u8, 105u8, 109u8, 101u8]) {
            proof {
                assert([116u8, 105u8, 109u8, 101u8]@ =~= kw_time());
            }
            Some(DataType::Time)
        } else if bytes_eq(&lower, &[100u8, 97u8, 116u8, 101u8, 116u8, 105u8, 109u8, 101u8])
            || bytes_eq(&lower, &[116u8, 105u8, 109u8, 101u8, 115u8, 116u8, 97u8, 109u8, 112u8]) {
            proof {
                assert([100u8, 97u8, 116u8, 101u8, 116u8, 105u8, 109u8, 101u8]@ =~= kw_datetime());
                assert([116u8, 105u8, 109u8, 101u8, 115u8, 116u8, 97u8, 109u8, 112u8]@
                    =~= kw_timestamp());
            }
            Some(DataType::Datetime)
        } else if bytes_contain(&lower, &[105u8, 110u8, 116u8]) {
            proof {
                assert([105u8, 110u8, 116u8]@ =~= kw_int());
            }
            Some(DataType::Int64)
        } else if bytes_contain(&lower, &[99u8, 104u8, 97u8, 114u8]) || bytes_contain(
            &lower,
            &[99u8, 108u8, 111u8, 98u8],
        ) || bytes_contain(&lower, &[116u8, 101u8, 120u8, 116u8]) {
            proof {
                assert([99u8, 104u8, 97u8, 114u8]@ =~= kw_char());
                assert([99u8, 108u8, 111u8, 98u8]@ =~= kw_clob());
                assert([116u8, 101u8, 120u8, 116u8]@ =~= kw_text());
            }
            Some(DataType::Text)
        } else if bytes_contain(&lower, &[98u8, 108u8, 111u8, 98u8]) {
            proof {
                assert([98u8, 108u8, 111u8, 98u8]@ =~= kw_blob());
            }
            Some(DataType::Blob)
        } else if bytes_contain(&lower, &[114u8, 101u8, 97u8, 108u8]) || bytes_contain(
            &lower,
            &[102u8, 108u8, 111u8, 97u8],
        ) || bytes_contain(&lower, &[100u8, 111u8, 117u8, 98u8]) {
            proof {
                assert([114u8, 101u8, 97u8, 108u8]@ =~= kw_real());
                assert([102u8, 108u8, 111u8, 97u8]@ =~= kw_floa());
                assert([100u8, 111u8, 117u8, 98u8]@ =~= kw_doub());
            }
            Some(DataType::Float)
        } else {
            None
        }
    }
}

impl RXQLiteTypeInfo {
    /// Whether this is the null type.
    pub fn is_null(&self) -> (r: bool)
        ensures
            r == (self.0 is Null),
    {
        match self.0 {
            DataType::Null => true,
            _ => false,
        }
    }

    /// The SQL name this type reports.
    pub fn name(&self) -> (r: &'static str)
        ensures
            r@ == self.name_spec(),
    {
        let r = match self.0 {
            DataType::Null => "NULL",
            DataType::Text => "TEXT",
            DataType::Float => "REAL",
            DataType::Blob => "BLOB",
            DataType::Int => "INTEGER",
            DataType::Int64 => "INTEGER",
            DataType::Numeric => "NUMERIC",
            DataType::Bool => "BOOLEAN",
            DataType::Date => "DATE",
            DataType::Time => "TIME",
            DataType::Datetime => "DATETIME",
        };
        proof {
            reveal_strlit("NULL");
            reveal_strlit("TEXT");
            reveal_strlit("REAL");
            reveal_strlit("BLOB");
            reveal_strlit("INTEGER");
            reveal_strlit("NUMERIC");
            reveal_strlit("BOOLEAN");
            reveal_strlit("DATE");
            reveal_strlit("TIME");
            reveal_strlit("DATETIME");
        }
        r
    }

    /// The SQL name of each value kind.
    pub open spec fn name_spec(self) -> Seq<char> {
        match self.0 {
            DataType::Null => "NULL"@,
            DataType::Text => "TEXT"@,
            DataType::Float => "REAL"@,
            DataType::Blob => "BLOB"@,
            DataType::Int => "INTEGER"@,
            DataType::Int64 => "INTEGER"@,
            DataType::Numeric => "NUMERIC"@,
            DataType::Bool => "BOOLEAN"@,
            DataType::Date => "DATE"@,
            DataType::Time => "TIME"@,
            DataType::Datetime => "DATETIME"@,
        }
    }
}

} // verus!
