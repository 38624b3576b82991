//! A small JSON document model.
//!
//! Query components serialize themselves into [`JsonValue`] trees, and the
//! response decoders read [`JsonValue`] trees back; only the final step to
//! and from text goes through `serde_json`, behind the two trusted
//! functions [`render_json`] and [`parse_json`].
//!
//! At the specification level a tree is mirrored by the ghost type
//! [`JsonV`], reached through the view `@` of a [`JsonValue`].

use vstd::prelude::*;

verus! {

use crate::text::dec_str;
use crate::text::str_eq;
use crate::text::u64_to_dec;

/// A JSON document.
///
/// Numbers appear in two forms: `Int` for numbers that are 64-bit signed
/// integers, and `NumText` for any other JSON numeral (fractions,
/// exponents, integers beyond the `i64` range), kept as its decimal text.
/// `NumText` is rendered as a bare numeral when the text is a valid JSON
/// number; any other text is rendered as a JSON string instead.
pub enum JsonValue {
    Null,
    Bool(bool),
    Int(i64),
    NumText(String),
    Str(String),
    Arr(Vec<JsonValue>),
    Obj(Vec<(String, JsonValue)>),
}

/// The specification-level mirror of [`JsonValue`].
#[verifier::ext_equal]
pub ghost enum JsonV {
    Null,
    Bool(bool),
    Int(i64),
    NumText(Seq<char>),
    Str(Seq<char>),
    Arr(Seq<JsonV>),
    Obj(Seq<(Seq<char>, JsonV)>),
}

/// The [`JsonV`] tree that a [`JsonValue`] stands for.
pub open spec fn json_view(v: JsonValue) -> JsonV
    decreases v, 1int,
{
    match v {
        JsonValue::Null => JsonV::Null,
        JsonValue::Bool(b) => JsonV::Bool(b),
        JsonValue::Int(i) => JsonV::Int(i),
        JsonValue::NumText(t) => JsonV::NumText(t@),
        JsonValue::Str(s) => JsonV::Str(s@),
        JsonValue::Arr(a) => JsonV::Arr(arr_view(a@, a@.len() as int)),
        JsonValue::Obj(o) => JsonV::Obj(obj_view(o@, o@.len() as int)),
    }
}

/// The views of the first `n` elements of a JSON array's items.
pub open spec fn arr_view(s: Seq<JsonValue>, n: int) -> Seq<JsonV>
    decreases s, 0int, n,
{
    if n <= 0 || n > s.len() {
        Seq::empty()
    } else {
        arr_view(s, n - 1).push(json_view(s[n - 1]))
    }
}

/// The views of the first `n` entries of a JSON object's fields.
pub open spec fn obj_view(s: Seq<(String, JsonValue)>, n: int) -> Seq<(Seq<char>, JsonV)>
    decreases s, 0int, n,
{
    if n <= 0 || n > s.len() {
        Seq::empty()
    } else {
        obj_view(s, n - 1).push((s[n - 1].0@, json_view(s[n - 1].1)))
    }
}

impl View for JsonValue {
    type V = JsonV;

    open spec fn view(&self) -> JsonV {
        json_view(*self)
    }
}

/// [`arr_view`] is the element-wise view of the array's items.
pub proof fn lemma_arr_view(s: Seq<JsonValue>, n: int)
    requires
        0 <= n <= s.len(),
    ensures
        arr_view(s, n).len() == n,
        forall|i: int| 0 <= i < n ==> arr_view(s, n)[i] == json_view(s[i]),
    decreases n,
{
    if n > 0 {
        lemma_arr_view(s, n - 1);
    }
}

/// [`obj_view`] is the entry-wise view of the object's fields.
pub proof fn lemma_obj_view(s: Seq<(String, JsonValue)>, n: int)
    requires
        0 <= n <= s.len(),
    ensures
        obj_view(s, n).len() == n,
        forall|i: int| 0 <= i < n ==> obj_view(s, n)[i] == (s[i].0@, json_view(s[i].1)),
    decreases n,
{
    if n > 0 {
        lemma_obj_view(s, n - 1);
    }
}

/// A JSON string value.
pub fn jstr(s: &str) -> (r: JsonValue)
    ensures
        r@ == JsonV::Str(s@),
{
    JsonValue::Str(String::from_str(s))
}

/// A JSON string value, from an owned string.
pub fn jstring(s: String) -> (r: JsonValue)
    ensures
        r@ == JsonV::Str(s@),
{
    JsonValue::Str(s)
}

/// A JSON integer value.
pub fn jint(i: i64) -> (r: JsonValue)
    ensures
        r@ == JsonV::Int(i),
{
    JsonValue::Int(i)
}

/// A JSON boolean value.
pub fn jbool(b: bool) -> (r: JsonValue)
    ensures
        r@ == JsonV::Bool(b),
{
    JsonValue::Bool(b)
}

/// A JSON array value.
pub fn jarr(items: Vec<JsonValue>) -> (r: JsonValue)
    ensures
        r@ == JsonV::Arr(Seq::new(items@.len(), |i: int| items@[i]@)),
{
    let r = JsonValue::Arr(items);
    proof {
        lemma_arr_view(items@, items@.len() as int);
        assert(json_view(r) matches JsonV::Arr(s) && s =~= Seq::new(items@.len(), |i: int| items@[i]@));
    }
    r
}

/// The value under `key` in an object's entries: the first entry with that
/// key, as JSON objects coming from the wire are not expected to repeat
/// keys.
pub open spec fn obj_get(es: Seq<(Seq<char>, JsonV)>, key: Seq<char>) -> Option<JsonV>
    decreases es.len(),
{
    if es.len() == 0 {
        None
    } else if es[0].0 == key {
        Some(es[0].1)
    } else {
        obj_get(es.subrange(1, es.len() as int), key)
    }
}

/// Skipping a head entry whose key differs leaves [`obj_get`] unchanged.
proof fn lemma_obj_get_skip(es: Seq<(Seq<char>, JsonV)>, key: Seq<char>, i: int)
    requires
        0 <= i < es.len(),
        forall|j: int| 0 <= j < i ==> es[j].0 != key,
    ensures
        obj_get(es, key) == obj_get(es.subrange(i, es.len() as int), key),
    decreases i,
{
    if i == 0 {
        assert(es.subrange(0, es.len() as int) =~= es);
    } else {
        lemma_obj_get_skip(es, key, i - 1);
        let s1 = es.subrange(i - 1, es.len() as int);
        let s2 = es.subrange(i, es.len() as int);
        assert(s1[0] == es[i - 1]);
        assert(s1.subrange(1, s1.len() as int) =~= s2);
    }
}

/// Looks a key up in an object's entries, mirroring [`obj_get`] on the
/// entries' views.
pub fn obj_lookup<'a>(entries: &'a Vec<(String, JsonValue)>, key: &str) -> (r: Option<
    &'a JsonValue,
>)
    ensures
        match r {
            Some(v) => obj_get(obj_view(entries@, entries@.len() as int), key@) == Some(v@),
            None => obj_get(obj_view(entries@, entries@.len() as int), key@) is None,
        },
{
    let ghost es = obj_view(entries@, entries@.len() as int);
    proof {
        lemma_obj_view(entries@, entries@.len() as int);
    }
    let n = entries.len();
    let mut i: usize = 0;
    while i < n
        invariant
            i <= n,
            n == entries@.len(),
            es == obj_view(entries@, entries@.len() as int),
            es.len() == n,
            forall|j: int| 0 <= j < n ==> es[j] == (entries@[j].0@, entries@[j].1@),
            forall|j: int| 0 <= j < i ==> es[j].0 != key@,
        decreases n - i,
    {
        if str_eq(entries[i].0.as_str(), key) {
            proof {
                lemma_obj_get_skip(es, key@, i as int);
                let tail = es.subrange(i as int, es.len() as int);
                assert(tail.len() > 0);
                assert(tail[0] == es[i as int]);
                assert(es[i as int].0 == key@);
                assert(obj_get(tail, key@) == Some(tail[0].1));
                assert(es[i as int].1 == entries@[i as int].1@);
            }
            return Some(&entries[i].1);
        }
        i = i + 1;
    }
    proof {
        if n > 0 {
            lemma_obj_get_skip(es, key@, n as int - 1);
            let tail = es.subrange(n as int - 1, es.len() as int);
            assert(tail[0] == es[n - 1]);
            assert(tail.subrange(1, tail.len() as int) =~= es.subrange(
                n as int,
                es.len() as int,
            ));
            assert(obj_get(tail, key@) == obj_get(
                es.subrange(n as int, es.len() as int),
                key@,
            ));
            assert(obj_get(es.subrange(n as int, es.len() as int), key@) is None);
        } else {
            assert(obj_get(es, key@) is None);
        }
    }
    None
}

/// Builds a JSON object one field at a time, in order.
pub struct ObjBuilder {
    entries: Vec<(String, JsonValue)>,
}

impl View for ObjBuilder {
    type V = Seq<(Seq<char>, JsonV)>;

    closed spec fn view(&self) -> Seq<(Seq<char>, JsonV)> {
        Seq::new(self.entries@.len(), |i: int| (self.entries@[i].0@, self.entries@[i].1@))
    }
}

impl ObjBuilder {
    /// An object with no fields yet.
    pub fn new() -> (r: Self)
        ensures
            r@ == Seq::<(Seq<char>, JsonV)>::empty(),
    {
        let r = ObjBuilder { entries: Vec::new() };
        proof {
            assert(r@ =~= Seq::<(Seq<char>, JsonV)>::empty());
        }
        r
    }

    /// Append one field.
    pub fn field(&mut self, key: &str, value: JsonValue)
        ensures
            final(self)@ == old(self)@.push((key@, value@)),
    {
        let ghost prev = self@;
        let ghost v = value@;
        self.entries.push((String::from_str(key), value));
        proof {
            assert(self@ =~= prev.push((key@, v)));
        }
    }

    /// Append one field whose key is computed at run time.
    pub fn field_owned_key(&mut self, key: String, value: JsonValue)
        ensures
            final(self)@ == old(self)@.push((key@, value@)),
    {
        let ghost prev = self@;
        let ghost v = value@;
        let ghost k = key@;
        self.entries.push((key, value));
        proof {
            assert(self@ =~= prev.push((k, v)));
        }
    }

    /// Append one field when the value is set; otherwise add nothing, so
    /// that an absent option leaves the wire form entirely.
    pub fn field_opt_string(&mut self, key: &str, o: &Option<String>)
        ensures
            final(self)@ == opt_str_entry(old(self)@, key@, o.deep_view()),
    {
        if let Some(s) = o {
            self.field(key, jstring(s.clone()));
        }
    }

    /// Append one boolean field when the value is set.
    pub fn field_opt_bool(&mut self, key: &str, o: &Option<bool>)
        ensures
            final(self)@ == opt_bool_entry(old(self)@, key@, *o),
    {
        if let Some(b) = o {
            self.field(key, jbool(*b));
        }
    }

    /// Append one unsigned number field when the value is set.
    pub fn field_opt_u64(&mut self, key: &str, o: &Option<u64>)
        ensures
            final(self)@ == opt_u64_entry(old(self)@, key@, *o),
    {
        if let Some(n) = o {
            self.field(key, junum(*n));
        }
    }

    /// Append one size field when the value is set.
    pub fn field_opt_usize(&mut self, key: &str, o: &Option<usize>)
        ensures
            final(self)@ == opt_u64_entry(old(self)@, key@, (match *o {
                Some(n) => Some(n as u64),
                None => None,
            }),
            ),
    {
        if let Some(n) = o {
            self.field(key, junum(*n as u64));
        }
    }

    /// The finished object.
    pub fn finish(self) -> (r: JsonValue)
        ensures
            r@ == JsonV::Obj(self@),
    {
        let ghost m = self@;
        let r = JsonValue::Obj(self.entries);
        proof {
            lemma_obj_view(self.entries@, self.entries@.len() as int);
            assert(json_view(r) matches JsonV::Obj(s) && s =~= m);
        }
        r
    }
}

/// A JSON number for an unsigned value: within the signed 64-bit range as
/// an `Int`, beyond it as its decimal text.
pub open spec fn unum_jsonv(n: u64) -> JsonV {
    if n <= i64::MAX as u64 {
        JsonV::Int(n as i64)
    } else {
        JsonV::NumText(dec_str(n as nat))
    }
}

/// The JSON number for an unsigned value.
pub fn junum(n: u64) -> (r: JsonValue)
    ensures
        r@ == unum_jsonv(n),
{
    if n <= i64::MAX as u64 {
        jint(n as i64)
    } else {
        JsonValue::NumText(u64_to_dec(n))
    }
}

/// The entries with a string field appended when the option is set.
pub open spec fn opt_str_entry(
    es: Seq<(Seq<char>, JsonV)>,
    key: Seq<char>,
    o: Option<Seq<char>>,
) -> Seq<(Seq<char>, JsonV)> {
    match o {
        Some(s) => es.push((key, JsonV::Str(s))),
        None => es,
    }
}

/// The entries with a boolean field appended when the option is set.
pub open spec fn opt_bool_entry(
    es: Seq<(Seq<char>, JsonV)>,
    key: Seq<char>,
    o: Option<bool>,
) -> Seq<(Seq<char>, JsonV)> {
    match o {
        Some(b) => es.push((key, JsonV::Bool(b))),
        None => es,
    }
}

/// The entries with an unsigned number field appended when the option is
/// set.
pub open spec fn opt_u64_entry(
    es: Seq<(Seq<char>, JsonV)>,
    key: Seq<char>,
    o: Option<u64>,
) -> Seq<(Seq<char>, JsonV)> {
    match o {
        Some(n) => es.push((key, unum_jsonv(n))),
        None => es,
    }
}

/// The entries with any JSON field appended when the option is set.
pub open spec fn opt_entry(
    es: Seq<(Seq<char>, JsonV)>,
    key: Seq<char>,
    o: Option<JsonV>,
) -> Seq<(Seq<char>, JsonV)> {
    match o {
        Some(v) => es.push((key, v)),
        None => es,
    }
}

/// The element-wise JSON form of a list of strings.
pub open spec fn strs_jsonv(s: Seq<String>) -> Seq<JsonV> {
    Seq::new(s.len(), |i: int| JsonV::Str(s[i]@))
}

/// A JSON array of strings.
pub fn strs_to_json(xs: &Vec<String>) -> (r: JsonValue)
    ensures
        r@ == JsonV::Arr(strs_jsonv(xs@)),
{
    let mut items: Vec<JsonValue> = Vec::new();
    let mut i: usize = 0;
    while i < xs.len()
        invariant
            i <= xs@.len(),
            items@.len() == i,
            forall|j: int| 0 <= j < i ==> #[trigger] items@[j]@ == JsonV::Str(xs@[j]@),
        decreases xs@.len() - i,
    {
        items.push(jstring(xs[i].clone()));
        i = i + 1;
    }
    let r = jarr(items);
    proof {
        assert(r@ matches JsonV::Arr(s) && s =~= strs_jsonv(xs@));
    }
    r
}

/// Whether an object holds a string under `key`.
pub open spec fn str_field_ok(es: Seq<(Seq<char>, JsonV)>, key: Seq<char>) -> bool {
    obj_get(es, key) matches Some(v) && v is Str
}

/// Whether `s` is the string under `key`.
pub open spec fn str_field_matches(
    s: String,
    es: Seq<(Seq<char>, JsonV)>,
    key: Seq<char>,
) -> bool {
    obj_get(es, key) matches Some(v) && v matches JsonV::Str(t) && s@ == t
}

/// Whether a field is absent, null, or a string: the shapes an optional
/// string field accepts.
pub open spec fn nullable_str_field_ok(es: Seq<(Seq<char>, JsonV)>, key: Seq<char>) -> bool {
    match obj_get(es, key) {
        None => true,
        Some(v) => v is Null || v is Str,
    }
}

/// Whether `o` is the optional string under `key`: `None` when the field
/// is absent or null.
pub open spec fn nullable_str_field_matches(
    o: Option<String>,
    es: Seq<(Seq<char>, JsonV)>,
    key: Seq<char>,
) -> bool {
    match obj_get(es, key) {
        None => o is None,
        Some(v) => match v {
            JsonV::Null => o is None,
            JsonV::Str(t) => o matches Some(s) && s@ == t,
            _ => false,
        },
    }
}

/// Read a required string field.
pub fn lookup_str_field(entries: &Vec<(String, JsonValue)>, key: &str) -> (r: Result<
    String,
    (),
>)
    ensures
        ({
            let es = obj_view(entries@, entries@.len() as int);
            match r {
                Ok(s) => str_field_ok(es, key@) && str_field_matches(s, es, key@),
                Err(_) => !str_field_ok(es, key@),
            }
        }),
{
    match obj_lookup(entries, key) {
        Some(JsonValue::Str(s)) => Ok(s.clone()),
        _ => Err(()),
    }
}

/// Read an optional string field that may also be null.
pub fn lookup_nullable_str_field(entries: &Vec<(String, JsonValue)>, key: &str) -> (r: Result<
    Option<String>,
    (),
>)
    ensures
        ({
            let es = obj_view(entries@, entries@.len() as int);
            match r {
                Ok(o) => nullable_str_field_ok(es, key@) && nullable_str_field_matches(
                    o,
                    es,
                    key@,
                ),
                Err(_) => !nullable_str_field_ok(es, key@),
            }
        }),
{
    match obj_lookup(entries, key) {
        None => Ok(None),
        Some(JsonValue::Null) => Ok(None),
        Some(JsonValue::Str(s)) => Ok(Some(s.clone())),
        Some(_) => Err(()),
    }
}

/// The element-wise JSON form of a list of string lists.
pub open spec fn str_lists_jsonv(s: Seq<Vec<String>>) -> Seq<JsonV> {
    Seq::new(s.len(), |i: int| JsonV::Arr(strs_jsonv(s[i]@)))
}

/// A JSON array of string arrays.
pub fn str_lists_to_json(xs: &Vec<Vec<String>>) -> (r: JsonValue)
    ensures
        r@ == JsonV::Arr(str_lists_jsonv(xs@)),
{
    let mut items: Vec<JsonValue> = Vec::new();
    let mut i: usize = 0;
    while i < xs.len()
        invariant
            i <= xs@.len(),
            items@.len() == i,
            forall|j: int| 0 <= j < i ==> #[trigger] items@[j]@ == JsonV::Arr(
                strs_jsonv(xs@[j]@),
            ),
        decreases xs@.len() - i,
    {
        items.push(strs_to_json(&xs[i]));
        i = i + 1;
    }
    let r = jarr(items);
    proof {
        assert(r@ matches JsonV::Arr(s) && s =~= str_lists_jsonv(xs@));
    }
    r
}

/// The element-wise JSON form of a list of numerals kept as text.
pub open spec fn nums_jsonv(s: Seq<String>) -> Seq<JsonV> {
    Seq::new(s.len(), |i: int| JsonV::NumText(s[i]@))
}

/// A JSON array of numerals kept as text.
pub fn nums_to_json(xs: &Vec<String>) -> (r: JsonValue)
    ensures
        r@ == JsonV::Arr(nums_jsonv(xs@)),
{
    let mut items: Vec<JsonValue> = Vec::new();
    let mut i: usize = 0;
    while i < xs.len()
        invariant
            i <= xs@.len(),
            items@.len() == i,
            forall|j: int| 0 <= j < i ==> #[trigger] items@[j]@ == JsonV::NumText(xs@[j]@),
        decreases xs@.len() - i,
    {
        items.push(JsonValue::NumText(xs[i].clone()));
        i = i + 1;
    }
    let r = jarr(items);
    proof {
        assert(r@ matches JsonV::Arr(s) && s =~= nums_jsonv(xs@));
    }
    r
}

/// Declares `serde_json::Value`, the parsed-tree type of `serde_json`,
/// so that the conversion functions below may name it. The value is
/// opaque here; everything read out of it goes through [`JsonValue`].
#[verifier::external_type_specification]
#[verifier::external_body]
pub struct ExValue(serde_json::Value);

/// The tree that `serde_json` reads out of a text, when the text is valid
/// JSON; `None` when it is not.
pub uninterp spec fn json_of(s: Seq<char>) -> Option<JsonV>;

/// The text that `serde_json` writes for a tree.
pub uninterp spec fn json_text_of(v: JsonV) -> Seq<char>;

/// Relies on `serde_json::from_str::<Value>`: parses a JSON text into a
/// value tree, or fails; the result depends on the text alone. The tree is
/// carried over into the crate's own model, numbers that fit `i64` as
/// `Int` and all others as their printed decimal text.
#[verifier::external_body]
pub fn parse_json(s: &str) -> (r: Option<JsonValue>)
    ensures
        match r {
            Some(v) => json_of(s@) == Some(v@),
            None => json_of(s@) is None,
        },
{
    match serde_json::from_str::<serde_json::Value>(s) {
        Ok(v) => Some(from_value(v)),
        Err(_) => None,
    }
}

/// Relies on `serde_json::Value` and `serde_json::Number`: carries a
/// parsed tree over into the crate's own model, variant by variant.
#[verifier::external_body]
fn from_value(v: serde_json::Value) -> JsonValue {
    match v {
        serde_json::Value::Null => JsonValue::Null,
        serde_json::Value::Bool(b) => JsonValue::Bool(b),
        serde_json::Value::Number(n) => match n.as_i64() {
            Some(i) => JsonValue::Int(i),
            None => JsonValue::NumText(n.to_string()),
        },
        serde_json::Value::String(s) => JsonValue::Str(s),
        serde_json::Value::Array(a) => JsonValue::Arr(a.into_iter().map(from_value).collect()),
        serde_json::Value::Object(m) => JsonValue::Obj(
            m.into_iter().map(|(k, x)| (k, from_value(x))).collect(),
        ),
    }
}

/// Relies on `serde_json::to_string`: writes a tree as compact JSON text;
/// the result depends on the tree alone.
#[verifier::external_body]
pub fn render_json(v: &JsonValue) -> (r: String)
    ensures
        r@ == json_text_of(v@),
{
    match serde_json::to_string(&to_value(v)) {
        Ok(s) => s,
        Err(_) => String::new(),
    }
}

/// Relies on `serde_json::Value` and `serde_json::Number`: carries a tree
/// of the crate's own model over into `serde_json`, variant by variant. A
/// `NumText` whose text does not parse as a JSON number becomes a string.
#[verifier::external_body]
fn to_value(v: &JsonValue) -> serde_json::Value {
    match v {
        JsonValue::Null => serde_json::Value::Null,
        JsonValue::Bool(b) => serde_json::Value::Bool(*b),
        JsonValue::Int(i) => serde_json::Value::from(*i),
        JsonValue::NumText(t) => match t.parse::<serde_json::Number>() {
            Ok(n) => serde_json::Value::Number(n),
            Err(_) => serde_json::Value::String(t.clone()),
        },
        JsonValue::Str(s) => serde_json::Value::String(s.clone()),
        JsonValue::Arr(a) => serde_json::Value::Array(a.iter().map(to_value).collect()),
        JsonValue::Obj(o) => serde_json::Value::Object(
            o.iter().map(|(k, x)| (k.clone(), to_value(x))).collect(),
        ),
    }
}

} // verus!
