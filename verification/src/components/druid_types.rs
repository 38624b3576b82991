//! The scalar values the Druid wire schema accepts wherever "any JSON
//! scalar" may appear, and the tagged scalar values of the SQL dialect.
//!
//! Druid's native scalars are untagged on the wire. Non-integer numbers
//! are kept as their decimal text here, so a `Float` or `Double` carries
//! the numeral exactly as it stands in the JSON text.

use vstd::prelude::*;

verus! {

use crate::json::JsonV;
use crate::json::JsonValue;
use crate::json::ObjBuilder;
use crate::json::jarr;
use crate::json::jint;
use crate::json::jbool;
use crate::json::jstr;
use crate::json::jstring;
use crate::json::lemma_arr_view;

/// A native scalar value: one of the shapes Druid accepts untagged.
///
/// Decoding tries the shapes in this order: string, array of strings,
/// 64-bit integer, then any other numeral (which decodes as `Float`,
/// the first numeric shape tried after the integer one).
#[derive(Debug, Clone, PartialEq, Eq)]
pub enum DruidNativeType {
    String(String),
    Array(Vec<String>),
    Long(i64),
    Float(String),
    Double(String),
}

impl DruidNativeType {
    /// A string scalar.
    pub fn string(s: String) -> (r: Self)
        ensures
            r == DruidNativeType::String(s),
    {
        Self::String(s)
    }

    /// A string-array scalar.
    pub fn array(a: Vec<String>) -> (r: Self)
        ensures
            r == DruidNativeType::Array(a),
    {
        Self::Array(a)
    }

    /// A 64-bit integer scalar.
    pub fn long(l: i64) -> (r: Self)
        ensures
            r == DruidNativeType::Long(l),
    {
        Self::Long(l)
    }

    /// A 32-bit float scalar, held as its decimal text.
    pub fn float(numeral: String) -> (r: Self)
        ensures
            r == DruidNativeType::Float(numeral),
    {
        Self::Float(numeral)
    }

    /// A 64-bit float scalar, held as its decimal text.
    pub fn double(numeral: String) -> (r: Self)
        ensures
            r == DruidNativeType::Double(numeral),
    {
        Self::Double(numeral)
    }

    /// The string contents, when this is the string shape.
    pub fn as_str(&self) -> (r: Option<&String>)
        ensures
            match r {
                Some(s) => *self matches DruidNativeType::String(t) && t == *s,
                None => !(*self matches DruidNativeType::String(_)),
            },
    {
        if let Self::String(s) = self {
            Some(s)
        } else {
            None
        }
    }

    /// The array contents, when this is the array shape.
    pub fn as_array(&self) -> (r: Option<&Vec<String>>)
        ensures
            match r {
                Some(a) => *self matches DruidNativeType::Array(b) && b == *a,
                None => !(*self matches DruidNativeType::Array(_)),
            },
    {
        if let Self::Array(a) = self {
            Some(a)
        } else {
            None
        }
    }

    /// The integer, when this is the integer shape.
    pub fn as_i64(&self) -> (r: Option<i64>)
        ensures
            match r {
                Some(l) => *self == DruidNativeType::Long(l),
                None => !(*self matches DruidNativeType::Long(_)),
            },
    {
        if let Self::Long(l) = self {
            Some(*l)
        } else {
            None
        }
    }

    /// This scalar's untagged JSON wire form.
    pub fn to_json(&self) -> (r: JsonValue)
        ensures
            r@ == native_jsonv(*self),
    {
        match self {
            Self::String(s) => jstring(s.clone()),
            Self::Array(a) => {
                let mut items: Vec<JsonValue> = Vec::new();
                let mut i: usize = 0;
                while i < a.len()
                    invariant
                        i <= a@.len(),
                        items@.len() == i,
                        forall|j: int| 0 <= j < i ==> items@[j]@ == JsonV::Str(a@[j]@),
                    decreases a@.len() - i,
                {
                    items.push(jstring(a[i].clone()));
                    i = i + 1;
                }
                let r = jarr(items);
                proof {
                    assert(r@ matches JsonV::Arr(s) && s =~= Seq::new(
                        a@.len(),
                        |j: int| JsonV::Str(a@[j]@),
                    ));
                }
                r
            },
            Self::Long(l) => jint(*l),
            Self::Float(t) => JsonValue::NumText(t.clone()),
            Self::Double(t) => JsonValue::NumText(t.clone()),
        }
    }
}

/// The untagged JSON wire form of a native scalar.
pub open spec fn native_jsonv(v: DruidNativeType) -> JsonV {
    match v {
        DruidNativeType::String(s) => JsonV::Str(s@),
        DruidNativeType::Array(a) => JsonV::Arr(Seq::new(a@.len(), |i: int| JsonV::Str(a@[i]@))),
        DruidNativeType::Long(l) => JsonV::Int(l),
        DruidNativeType::Float(t) => JsonV::NumText(t@),
        DruidNativeType::Double(t) => JsonV::NumText(t@),
    }
}

/// Whether a JSON value has one of the scalar shapes: a string, an array
/// of strings, or a number.
pub open spec fn native_decodable(v: JsonV) -> bool {
    match v {
        JsonV::Str(_) => true,
        JsonV::Arr(items) => forall|i: int| 0 <= i < items.len() ==> items[i] is Str,
        JsonV::Int(_) => true,
        JsonV::NumText(_) => true,
        _ => false,
    }
}

/// Whether `d` is the scalar that the JSON value `v` decodes to, trying
/// the shapes in order: string, array of strings, integer, other numeral.
pub open spec fn native_matches(d: DruidNativeType, v: JsonV) -> bool {
    match v {
        JsonV::Str(s) => d is String && d->String_0@ == s,
        JsonV::Arr(items) => {
            &&& d is Array
            &&& d->Array_0@.len() == items.len()
            &&& forall|i: int| 0 <= i < items.len() ==> #[trigger] items[i] is Str
            &&& forall|i: int|
                0 <= i < items.len() ==> #[trigger] d->Array_0@[i]@ == items[i]->Str_0
        },
        JsonV::Int(l) => d == DruidNativeType::Long(l),
        JsonV::NumText(t) => d is Float && d->Float_0@ == t,
        _ => false,
    }
}

/// Decode one untagged scalar, accepting whichever JSON shape is present.
#[verifier::loop_isolation(false)]
pub fn native_from_json(v: &JsonValue) -> (r: Option<DruidNativeType>)
    ensures
        match r {
            Some(d) => native_decodable(v@) && native_matches(d, v@),
            None => !native_decodable(v@),
        },
{
    match v {
        JsonValue::Str(s) => Some(DruidNativeType::String(s.clone())),
        JsonValue::Int(l) => Some(DruidNativeType::Long(*l)),
        JsonValue::NumText(t) => Some(DruidNativeType::Float(t.clone())),
        JsonValue::Arr(items) => {
            let n = items.len();
            let mut strings: Vec<String> = Vec::new();
            let mut i: usize = 0;
            while i < n
                invariant
                    i <= n,
                    n == items@.len(),
                    strings@.len() == i,
                    forall|j: int| 0 <= j < i ==> #[trigger] items@[j]@ is Str,
                    forall|j: int|
                        0 <= j < i ==> #[trigger] strings@[j]@ == items@[j]@->Str_0,
                decreases n - i,
            {
                match &items[i] {
                    JsonValue::Str(s) => {
                        strings.push(s.clone());
                    },
                    _ => {
                        proof {
                            lemma_arr_view(items@, items@.len() as int);
                            assert(*v == JsonValue::Arr(*items));
                            assert(v@ matches JsonV::Arr(el) && el[i as int] == items@[
                                i as int
                            ]@);
                            assert(!(items@[i as int]@ is Str));
                        }
                        return None;
                    },
                }
                i = i + 1;
            }
            proof {
                lemma_arr_view(items@, items@.len() as int);
                assert(*v == JsonValue::Arr(*items));
                let ghost el = v@->Arr_0;
                assert(el.len() == items@.len());
                assert forall|k: int| 0 <= k < el.len() implies #[trigger] el[k] is Str by {
                    assert(el[k] == items@[k]@);
                }
                assert forall|k: int| 0 <= k < el.len() implies #[trigger] strings@[k]@ == el[
                    k
                ]->Str_0 by {
                    assert(el[k] == items@[k]@);
                }
            }
            Some(DruidNativeType::Array(strings))
        },
        _ => None,
    }
}

/// The element-wise JSON form of a list of native scalars.
pub open spec fn natives_jsonv(s: Seq<DruidNativeType>) -> Seq<JsonV> {
    Seq::new(s.len(), |i: int| native_jsonv(s[i]))
}

/// A JSON array of native scalars.
pub fn natives_to_json(xs: &Vec<DruidNativeType>) -> (r: JsonValue)
    ensures
        r@ == JsonV::Arr(natives_jsonv(xs@)),
{
    let mut items: Vec<JsonValue> = Vec::new();
    let mut i: usize = 0;
    while i < xs.len()
        invariant
            i <= xs@.len(),
            items@.len() == i,
            forall|j: int| 0 <= j < i ==> #[trigger] items@[j]@ == native_jsonv(xs@[j]),
        decreases xs@.len() - i,
    {
        items.push(xs[i].to_json());
        i = i + 1;
    }
    let r = jarr(items);
    proof {
        assert(r@ matches JsonV::Arr(s) && s =~= natives_jsonv(xs@));
    }
    r
}

/// A scalar value of the SQL dialect, tagged on the wire as
/// `{"type": KIND, "value": ...}` with an upper-case kind name.
///
/// Non-integer numeric kinds and the two time kinds are held as text: the
/// numeral, or the ISO-8601 timestamp, exactly as it goes on the wire.
#[derive(Debug, Clone, PartialEq, Eq)]
pub enum DruidSqlType {
    Tinyint(i64),
    Smallint(i64),
    Integer(i64),
    Bigint(i64),
    Boolean(bool),
    Float(String),
    Double(String),
    Decimal(String),
    Real(String),
    Timestamp(String),
    Date(String),
    Char(char),
    Varchar(String),
}

impl DruidSqlType {
    /// A `CHAR` parameter.
    pub fn char(c: char) -> (r: Self)
        ensures
            r == DruidSqlType::Char(c),
    {
        Self::Char(c)
    }

    /// A `VARCHAR` parameter.
    pub fn varchar(s: String) -> (r: Self)
        ensures
            r == DruidSqlType::Varchar(s),
    {
        Self::Varchar(s)
    }

    /// A `DECIMAL` parameter, held as its decimal text.
    pub fn decimal(numeral: String) -> (r: Self)
        ensures
            r == DruidSqlType::Decimal(numeral),
    {
        Self::Decimal(numeral)
    }

    /// A `FLOAT` parameter, held as its decimal text.
    pub fn float(numeral: String) -> (r: Self)
        ensures
            r == DruidSqlType::Float(numeral),
    {
        Self::Float(numeral)
    }

    /// A `REAL` parameter, held as its decimal text.
    pub fn real_value(numeral: String) -> (r: Self)
        ensures
            r == DruidSqlType::Real(numeral),
    {
        Self::Real(numeral)
    }

    /// A `DOUBLE` parameter, held as its decimal text.
    pub fn double(numeral: String) -> (r: Self)
        ensures
            r == DruidSqlType::Double(numeral),
    {
        Self::Double(numeral)
    }

    /// A `BOOLEAN` parameter.
    pub fn boolean(b: bool) -> (r: Self)
        ensures
            r == DruidSqlType::Boolean(b),
    {
        Self::Boolean(b)
    }

    /// A `TINYINT` parameter.
    pub fn tinyint(v: i64) -> (r: Self)
        ensures
            r == DruidSqlType::Tinyint(v),
    {
        Self::Tinyint(v)
    }

    /// A `SMALLINT` parameter.
    pub fn smallint(v: i64) -> (r: Self)
        ensures
            r == DruidSqlType::Smallint(v),
    {
        Self::Smallint(v)
    }

    /// An `INTEGER` parameter.
    pub fn integer(v: i64) -> (r: Self)
        ensures
            r == DruidSqlType::Integer(v),
    {
        Self::Integer(v)
    }

    /// A `BIGINT` parameter.
    pub fn bigint(v: i64) -> (r: Self)
        ensures
            r == DruidSqlType::Bigint(v),
    {
        Self::Bigint(v)
    }

    /// A `TIMESTAMP` parameter, held as its ISO-8601 text.
    pub fn timestamp(t: String) -> (r: Self)
        ensures
            r == DruidSqlType::Timestamp(t),
    {
        Self::Timestamp(t)
    }

    /// A `DATE` parameter, held as its ISO-8601 text.
    pub fn date(t: String) -> (r: Self)
        ensures
            r == DruidSqlType::Date(t),
    {
        Self::Date(t)
    }

    /// This parameter's tagged JSON wire form.
    pub fn to_json(&self) -> (r: JsonValue)
        ensures
            r@ == sql_type_jsonv(*self),
    {
        let mut b = ObjBuilder::new();
        match self {
            Self::Tinyint(v) => {
                b.field("type", jstr("TINYINT"));
                b.field("value", jint(*v));
            },
            Self::Smallint(v) => {
                b.field("type", jstr("SMALLINT"));
                b.field("value", jint(*v));
            },
            Self::Integer(v) => {
                b.field("type", jstr("INTEGER"));
                b.field("value", jint(*v));
            },
            Self::Bigint(v) => {
                b.field("type", jstr("BIGINT"));
                b.field("value", jint(*v));
            },
            Self::Boolean(v) => {
                b.field("type", jstr("BOOLEAN"));
                b.field("value", jbool(*v));
            },
            Self::Float(t) => {
                b.field("type", jstr("FLOAT"));
                b.field("value", JsonValue::NumText(t.clone()));
            },
            Self::Double(t) => {
                b.field("type", jstr("DOUBLE"));
                b.field("value", JsonValue::NumText(t.clone()));
            },
            Self::Decimal(t) => {
                b.field("type", jstr("DECIMAL"));
                b.field("value", JsonValue::NumText(t.clone()));
            },
            Self::Real(t) => {
                b.field("type", jstr("REAL"));
                b.field("value", JsonValue::NumText(t.clone()));
            },
            Self::Timestamp(t) => {
                b.field("type", jstr("TIMESTAMP"));
                b.field("value", jstring(t.clone()));
            },
            Self::Date(t) => {
                b.field("type", jstr("DATE"));
                b.field("value", jstring(t.clone()));
            },
            Self::Char(c) => {
                b.field("type", jstr("CHAR"));
                let mut s = String::new();
                s.push(*c);
                proof {
                    assert(s@ =~= seq![*c]);
                }
                b.field("value", jstring(s));
            },
            Self::Varchar(s) => {
                b.field("type", jstr("VARCHAR"));
                b.field("value", jstring(s.clone()));
            },
        }
        b.finish()
    }
}

/// The element-wise JSON form of a list of SQL scalars.
pub open spec fn sql_types_jsonv(s: Seq<DruidSqlType>) -> Seq<JsonV> {
    Seq::new(s.len(), |i: int| sql_type_jsonv(s[i]))
}

/// A JSON array of SQL scalars.
pub fn sql_types_to_json(xs: &Vec<DruidSqlType>) -> (r: JsonValue)
    ensures
        r@ == JsonV::Arr(sql_types_jsonv(xs@)),
{
    let mut items: Vec<JsonValue> = Vec::new();
    let mut i: usize = 0;
    while i < xs.len()
        invariant
            i <= xs@.len(),
            items@.len() == i,
            forall|j: int| 0 <= j < i ==> #[trigger] items@[j]@ == sql_type_jsonv(xs@[j]),
        decreases xs@.len() - i,
    {
        items.push(xs[i].to_json());
        i = i + 1;
    }
    let r = jarr(items);
    proof {
        assert(r@ matches JsonV::Arr(s) && s =~= sql_types_jsonv(xs@));
    }
    r
}

/// One tag-and-value object of the SQL parameter wire form.
pub open spec fn tagged_value(tag: Seq<char>, value: JsonV) -> JsonV {
    JsonV::Obj(
        Seq::empty().push(("type"@, JsonV::Str(tag))).push(("value"@, value)),
    )
}

/// The tagged JSON wire form of a SQL scalar.
pub open spec fn sql_type_jsonv(v: DruidSqlType) -> JsonV {
    match v {
        DruidSqlType::Tinyint(x) => tagged_value("TINYINT"@, JsonV::Int(x)),
        DruidSqlType::Smallint(x) => tagged_value("SMALLINT"@, JsonV::Int(x)),
        DruidSqlType::Integer(x) => tagged_value("INTEGER"@, JsonV::Int(x)),
        DruidSqlType::Bigint(x) => tagged_value("BIGINT"@, JsonV::Int(x)),
        DruidSqlType::Boolean(x) => tagged_value("BOOLEAN"@, JsonV::Bool(x)),
        DruidSqlType::Float(t) => tagged_value("FLOAT"@, JsonV::NumText(t@)),
        DruidSqlType::Double(t) => tagged_value("DOUBLE"@, JsonV::NumText(t@)),
        DruidSqlType::Decimal(t) => tagged_value("DECIMAL"@, JsonV::NumText(t@)),
        DruidSqlType::Real(t) => tagged_value("REAL"@, JsonV::NumText(t@)),
        DruidSqlType::Timestamp(t) => tagged_value("TIMESTAMP"@, JsonV::Str(t@)),
        DruidSqlType::Date(t) => tagged_value("DATE"@, JsonV::Str(t@)),
        DruidSqlType::Char(c) => tagged_value("CHAR"@, JsonV::Str(seq![c])),
        DruidSqlType::Varchar(s) => tagged_value("VARCHAR"@, JsonV::Str(s@)),
    }
}

} // verus!
