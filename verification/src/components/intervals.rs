//! Time intervals, serialized on the wire as `"start/end"`.

use vstd::prelude::*;

verus! {

use crate::json::JsonV;
use crate::json::JsonValue;
use crate::json::jstring;
use crate::text::find_char;
use crate::text::find_char_exec;
use crate::text::lemma_find_char;

/// True when the text begins with `P`, the first letter of an ISO-8601
/// period (duration) string such as `P1D` or `PT3H`.
pub open spec fn starts_with_period(s: Seq<char>) -> bool {
    s.len() > 0 && s[0] == 'P'
}

/// A time interval: a pair of ISO-8601 timestamp-or-period strings.
///
/// At most one of the two sides may be a period string; at least one side
/// must be an absolute timestamp, or the interval has no anchor in time.
#[derive(Debug, Clone, PartialEq, Eq)]
pub struct Interval {
    start: String,
    end: String,
}

/// Error returned when a pair of strings does not form a valid interval:
/// both sides are period strings, or the text being parsed has no `/`.
/// Carries the offending text.
#[derive(Debug, Clone)]
pub struct InvalidISO8601(pub String);

impl Interval {
    /// The characters of the start side.
    pub closed spec fn start_chars(&self) -> Seq<char> {
        self.start@
    }

    /// The characters of the end side.
    pub closed spec fn end_chars(&self) -> Seq<char> {
        self.end@
    }

    /// A well-formed interval does not have a period string on both sides.
    pub open spec fn wf(&self) -> bool {
        !(starts_with_period(self.start_chars()) && starts_with_period(self.end_chars()))
    }

    /// Build an interval from its two sides. Fails, with the combined text
    /// in the error, exactly when both sides begin with `P`.
    pub fn new(start: &str, end: &str) -> (r: Result<Self, InvalidISO8601>)
        ensures
            match r {
                Ok(i) => {
                    &&& i.start_chars() == start@
                    &&& i.end_chars() == end@
                    &&& !(starts_with_period(start@) && starts_with_period(end@))
                },
                Err(e) => {
                    &&& starts_with_period(start@)
                    &&& starts_with_period(end@)
                    &&& e.0@ == start@ + "/"@ + end@
                },
            },
    {
        if starts_with_period_exec(start) && starts_with_period_exec(end) {
            let text = String::from_str(start).concat("/").concat(end);
            Err(InvalidISO8601(text))
        } else {
            Ok(Self { start: String::from_str(start), end: String::from_str(end) })
        }
    }
}

/// Executable check for [`starts_with_period`].
fn starts_with_period_exec(s: &str) -> (r: bool)
    ensures
        r == starts_with_period(s@),
{
    s.unicode_len() > 0 && s.get_char(0) == 'P'
}

/// The wire text of an interval: its two sides joined by `/`.
pub open spec fn interval_text(start: Seq<char>, end: Seq<char>) -> Seq<char> {
    start + "/"@ + end
}

/// How a text splits into the two sides of an interval: the part before
/// the first `/`, and the part between the first and the second `/` (or
/// the rest, when there is no second). `None` when there is no `/` at all.
pub open spec fn parse_parts(s: Seq<char>) -> Option<(Seq<char>, Seq<char>)> {
    match find_char(s, '/') {
        None => None,
        Some(i) => {
            let rest = s.subrange(i + 1, s.len() as int);
            let end = match find_char(rest, '/') {
                None => rest,
                Some(j) => rest.subrange(0, j),
            };
            Some((s.subrange(0, i), end))
        },
    }
}

impl Interval {
    /// The wire text of this interval, `start/end`.
    pub fn to_text(&self) -> (r: String)
        ensures
            r@ == interval_text(self.start_chars(), self.end_chars()),
    {
        self.start.clone().concat("/").concat(self.end.as_str())
    }

    /// This interval as its JSON wire form, a single string.
    pub fn to_json(&self) -> (r: JsonValue)
        ensures
            r@ == interval_jsonv(*self),
    {
        jstring(self.to_text())
    }

    /// Split a text at its slashes and build the interval, enforcing the
    /// same rule as [`Interval::new`]. A text with no `/` is rejected with
    /// the text itself in the error.
    pub fn parse(s: &str) -> (r: Result<Self, InvalidISO8601>)
        ensures
            match parse_parts(s@) {
                None => r matches Err(e) && e.0@ == s@,
                Some(parts) => {
                    if starts_with_period(parts.0) && starts_with_period(parts.1) {
                        r matches Err(e) && e.0@ == parts.0 + "/"@ + parts.1
                    } else {
                        r matches Ok(i) && i.start_chars() == parts.0 && i.end_chars()
                            == parts.1
                    }
                },
            },
    {
        let len = s.unicode_len();
        match find_char_exec(s, '/') {
            None => Err(InvalidISO8601(String::from_str(s))),
            Some(i) => {
                proof {
                    lemma_find_char(s@, '/');
                }
                let start = s.substring_char(0, i);
                let rest = s.substring_char(i + 1, len);
                let end = match find_char_exec(rest, '/') {
                    None => rest,
                    Some(j) => {
                        proof {
                            lemma_find_char(rest@, '/');
                        }
                        rest.substring_char(0, j)
                    },
                };
                Self::new(start, end)
            },
        }
    }
}

impl core::str::FromStr for Interval {
    type Err = InvalidISO8601;

    /// See [`Interval::parse`].
    fn from_str(s: &str) -> Result<Interval, InvalidISO8601> {
        Interval::parse(s)
    }
}

/// The JSON wire form of an interval: the single string `start/end`.
pub open spec fn interval_jsonv(i: Interval) -> JsonV {
    JsonV::Str(interval_text(i.start_chars(), i.end_chars()))
}

/// The element-wise JSON form of a list of intervals.
pub open spec fn intervals_jsonv(s: Seq<Interval>) -> Seq<JsonV> {
    Seq::new(s.len(), |i: int| interval_jsonv(s[i]))
}

/// A JSON array of intervals.
pub fn intervals_to_json(xs: &Vec<Interval>) -> (r: JsonValue)
    ensures
        r@ == JsonV::Arr(intervals_jsonv(xs@)),
{
    let mut items: Vec<JsonValue> = Vec::new();
    let mut i: usize = 0;
    while i < xs.len()
        invariant
            i <= xs@.len(),
            items@.len() == i,
            forall|j: int| 0 <= j < i ==> #[trigger] items@[j]@ == interval_jsonv(xs@[j]),
        decreases xs@.len() - i,
    {
        items.push(xs[i].to_json());
        i = i + 1;
    }
    let r = crate::json::jarr(items);
    proof {
        assert(r@ matches JsonV::Arr(s) && s =~= intervals_jsonv(xs@));
    }
    r
}

/// Parsing the printed form of an interval gives the interval back: for
/// any two sides free of `/`, the text `start/end` splits into exactly
/// `start` and `end` again. (A side that itself holds a `/` would shift
/// the split, so such sides are left out.)
pub proof fn lemma_interval_round_trip(start: Seq<char>, end: Seq<char>)
    requires
        !start.contains('/'),
        !end.contains('/'),
    ensures
        parse_parts(interval_text(start, end)) == Some((start, end)),
{
    reveal_strlit("/");
    let s = interval_text(start, end);
    assert(s.len() == start.len() + 1 + end.len());
    assert(s[start.len() as int] == '/');
    assert(forall|j: int| 0 <= j < start.len() ==> s[j] == start[j]);
    assert(forall|j: int| 0 <= j < start.len() ==> s[j] != '/');
    assert(forall|j: int| 0 <= j < end.len() ==> s[start.len() + 1 + j] == end[j]);
    lemma_find_char(s, '/');
    match find_char(s, '/') {
        None => {
            assert(false);
        },
        Some(i) => {
            assert(s[i] == '/');
            assert(i == start.len()) by {
                if i < start.len() {
                    assert(s[i] != '/');
                } else if i > start.len() {
                    assert(s[start.len() as int] == '/');
                }
            }
            let rest = s.subrange(i + 1, s.len() as int);
            assert(rest =~= end);
            lemma_find_char(rest, '/');
            match find_char(rest, '/') {
                Some(j) => {
                    assert(end[j] == '/');
                    assert(false);
                },
                None => {},
            }
            assert(s.subrange(0, i) =~= start);
        },
    }
}

} // verus!
