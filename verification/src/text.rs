//! Character and string helpers shared by the component constructors and
//! the response decoders.

use vstd::prelude::*;

verus! {

/// Relies on `String::push`: appends one character at the end.
pub assume_specification[ std::string::String::push ](s: &mut String, c: char)
    ensures
        final(s)@ == old(s)@.push(c),
;

/// Whether two strings hold the same characters.
pub fn str_eq(a: &str, b: &str) -> (r: bool)
    ensures
        r == (a@ == b@),
{
    let a_len = a.unicode_len();
    let b_len = b.unicode_len();
    if a_len != b_len {
        proof {
            assert(a@ != b@) by {
                assert(a@.len() != b@.len());
            }
        }
        return false;
    }
    let mut i: usize = 0;
    while i < a_len
        invariant
            i <= a_len,
            a_len == a@.len(),
            b_len == b@.len(),
            a_len == b_len,
            forall|j: int| 0 <= j < i ==> a@[j] == b@[j],
        decreases a_len - i,
    {
        if a.get_char(i) != b.get_char(i) {
            proof {
                assert(a@ != b@) by {
                    assert(a@[i as int] != b@[i as int]);
                }
            }
            return false;
        }
        i = i + 1;
    }
    proof {
        assert(a@ =~= b@);
    }
    true
}

/// The lower-case form of an ASCII letter; any other character is kept.
pub open spec fn lower_char(c: char) -> char {
    if 'A' <= c && c <= 'Z' {
        ((c as u8) + 32) as char
    } else {
        c
    }
}

/// The upper-case form of an ASCII letter; any other character is kept.
pub open spec fn upper_char(c: char) -> char {
    if 'a' <= c && c <= 'z' {
        ((c as u8) - 32) as char
    } else {
        c
    }
}

/// The character-wise ASCII lower-case form of a string.
pub open spec fn lower_chars(s: Seq<char>) -> Seq<char> {
    Seq::new(s.len(), |i: int| lower_char(s[i]))
}

/// The character-wise ASCII upper-case form of a string.
pub open spec fn upper_chars(s: Seq<char>) -> Seq<char> {
    Seq::new(s.len(), |i: int| upper_char(s[i]))
}

/// ASCII lower-casing, character by character.
pub fn to_lower(s: &str) -> (r: String)
    ensures
        r@ == lower_chars(s@),
{
    let len = s.unicode_len();
    let mut r = String::new();
    let mut i: usize = 0;
    while i < len
        invariant
            i <= len,
            len == s@.len(),
            r@ == lower_chars(s@).subrange(0, i as int),
        decreases len - i,
    {
        let c = s.get_char(i);
        let lc = if 'A' <= c && c <= 'Z' {
            ((c as u8) + 32) as char
        } else {
            c
        };
        r.push(lc);
        proof {
            assert(r@ =~= lower_chars(s@).subrange(0, i + 1 as int));
        }
        i = i + 1;
    }
    proof {
        assert(lower_chars(s@).subrange(0, s@.len() as int) =~= lower_chars(s@));
    }
    r
}

/// ASCII upper-casing, character by character.
pub fn to_upper(s: &str) -> (r: String)
    ensures
        r@ == upper_chars(s@),
{
    let len = s.unicode_len();
    let mut r = String::new();
    let mut i: usize = 0;
    while i < len
        invariant
            i <= len,
            len == s@.len(),
            r@ == upper_chars(s@).subrange(0, i as int),
        decreases len - i,
    {
        let c = s.get_char(i);
        let uc = if 'a' <= c && c <= 'z' {
            ((c as u8) - 32) as char
        } else {
            c
        };
        r.push(uc);
        proof {
            assert(r@ =~= upper_chars(s@).subrange(0, i + 1 as int));
        }
        i = i + 1;
    }
    proof {
        assert(upper_chars(s@).subrange(0, s@.len() as int) =~= upper_chars(s@));
    }
    r
}

/// Where the first occurrence of `c` in `s` stands, if anywhere.
pub open spec fn find_char(s: Seq<char>, c: char) -> Option<int>
    decreases s.len(),
{
    if s.len() == 0 {
        None
    } else if s[0] == c {
        Some(0)
    } else {
        match find_char(s.subrange(1, s.len() as int), c) {
            None => None,
            Some(i) => Some(i + 1),
        }
    }
}

/// [`find_char`] returns the first index holding `c`, or `None` when no
/// index does.
pub proof fn lemma_find_char(s: Seq<char>, c: char)
    ensures
        match find_char(s, c) {
            Some(i) => 0 <= i < s.len() && s[i] == c && (forall|j: int|
                0 <= j < i ==> s[j] != c),
            None => forall|j: int| 0 <= j < s.len() ==> s[j] != c,
        },
    decreases s.len(),
{
    if s.len() > 0 && s[0] != c {
        let sub = s.subrange(1, s.len() as int);
        lemma_find_char(sub, c);
        assert(forall|j: int| 0 <= j < sub.len() ==> sub[j] == s[j + 1]);
        assert(forall|j: int| 1 <= j < s.len() ==> s[j] == sub[j - 1]);
    }
}

/// The first index of `c` in `s`, matching [`find_char`].
pub fn find_char_exec(s: &str, c: char) -> (r: Option<usize>)
    ensures
        match r {
            Some(i) => find_char(s@, c) == Some(i as int),
            None => find_char(s@, c) is None,
        },
{
    let len = s.unicode_len();
    let mut i: usize = 0;
    while i < len
        invariant
            i <= len,
            len == s@.len(),
            forall|j: int| 0 <= j < i ==> s@[j] != c,
        decreases len - i,
    {
        if s.get_char(i) == c {
            proof {
                lemma_find_char(s@, c);
            }
            return Some(i);
        }
        i = i + 1;
    }
    proof {
        lemma_find_char(s@, c);
    }
    None
}

/// Whether `s` holds two equality signs side by side, the crude check the
/// join condition must pass.
pub open spec fn has_double_eq(s: Seq<char>) -> bool {
    exists|i: int| 0 <= i && i + 1 < s.len() && #[trigger] s[i] == '=' && s[i + 1] == '='
}

/// Executable check for [`has_double_eq`].
pub fn has_double_eq_exec(s: &str) -> (r: bool)
    ensures
        r == has_double_eq(s@),
{
    let len = s.unicode_len();
    if len < 2 {
        return false;
    }
    let mut i: usize = 0;
    while i + 1 < len
        invariant
            len == s@.len(),
            i + 1 <= len,
            forall|j: int| 0 <= j && j + 1 < i + 1 ==> !(#[trigger] s@[j] == '=' && s@[j + 1] == '='),
        decreases len - i,
    {
        if s.get_char(i) == '=' && s.get_char(i + 1) == '=' {
            return true;
        }
        i = i + 1;
    }
    false
}

/// The character standing for one decimal digit.
pub open spec fn digit_char(d: int) -> char {
    if d == 0 {
        '0'
    } else if d == 1 {
        '1'
    } else if d == 2 {
        '2'
    } else if d == 3 {
        '3'
    } else if d == 4 {
        '4'
    } else if d == 5 {
        '5'
    } else if d == 6 {
        '6'
    } else if d == 7 {
        '7'
    } else if d == 8 {
        '8'
    } else {
        '9'
    }
}

/// The decimal numeral for `n`, most significant digit first.
pub open spec fn dec_str(n: nat) -> Seq<char>
    decreases n,
{
    if n < 10 {
        seq![digit_char(n as int)]
    } else {
        dec_str(n / 10).push(digit_char((n % 10) as int))
    }
}

/// The decimal numeral of an unsigned number, for JSON fields whose values
/// may exceed the signed 64-bit range.
pub fn u64_to_dec(n: u64) -> (r: String)
    ensures
        r@ == dec_str(n as nat),
{
    let mut digits: Vec<char> = Vec::new();
    let mut m = n;
    loop
        invariant_except_break
            dec_str(n as nat) == dec_str(m as nat) + digits@.reverse(),
        ensures
            dec_str(n as nat) == digits@.reverse(),
        decreases m,
    {
        let ghost digits_before = digits@;
        let d = (m % 10) as u8;
        let c = digit_char_exec(d);
        digits.push(c);
        if m < 10 {
            proof {
                assert(dec_str(m as nat) =~= seq![digit_char(m as int)]);
                assert(dec_str(n as nat) =~= digits@.reverse()) by {
                    assert(digits@ == digits_before.push(digit_char(m as int)));
                    assert(digits@.reverse() =~= seq![digit_char(m as int)] + digits_before.reverse());
                }
            }
            break;
        }
        proof {
            assert(dec_str(m as nat) == dec_str(m as nat / 10).push(digit_char(m as int % 10)));
            assert(dec_str(m as nat / 10).push(digit_char(m as int % 10)) + digits_before.reverse()
                =~= dec_str(m as nat / 10) + digits@.reverse()) by {
                assert(digits@.reverse() =~= seq![digit_char(m as int % 10)] + digits_before.reverse());
            }
        }
        m = m / 10;
    }
    let mut r = String::new();
    let mut i: usize = digits.len();
    while i > 0
        invariant
            i <= digits@.len(),
            r@ == digits@.reverse().subrange(0, (digits@.len() - i) as int),
        decreases i,
    {
        i = i - 1;
        let c = digits[i];
        r.push(c);
        proof {
            assert(r@ =~= digits@.reverse().subrange(0, (digits@.len() - i) as int));
        }
    }
    proof {
        assert(digits@.reverse().subrange(0, digits@.len() as int) =~= digits@.reverse());
    }
    r
}

/// The character for the digit `d`, which must be below ten.
fn digit_char_exec(d: u8) -> (c: char)
    requires
        d < 10,
    ensures
        c == digit_char(d as int),
{
    if d == 0 {
        '0'
    } else if d == 1 {
        '1'
    } else if d == 2 {
        '2'
    } else if d == 3 {
        '3'
    } else if d == 4 {
        '4'
    } else if d == 5 {
        '5'
    } else if d == 6 {
        '6'
    } else if d == 7 {
        '7'
    } else if d == 8 {
        '8'
    } else {
        '9'
    }
}

/// Whether a character is ASCII whitespace: space, tab, newline or
/// carriage return.
pub open spec fn is_ws(c: char) -> bool {
    c == ' ' || c == '\t' || c == '\n' || c == '\r'
}

/// Executable check for [`is_ws`].
pub fn is_ws_exec(c: char) -> (r: bool)
    ensures
        r == is_ws(c),
{
    c == ' ' || c == '\t' || c == '\n' || c == '\r'
}

/// The text without its leading whitespace.
pub open spec fn trim_start_chars(s: Seq<char>) -> Seq<char>
    decreases s.len(),
{
    if s.len() > 0 && is_ws(s[0]) {
        trim_start_chars(s.subrange(1, s.len() as int))
    } else {
        s
    }
}

/// The text without its trailing whitespace.
pub open spec fn trim_end_chars(s: Seq<char>) -> Seq<char>
    decreases s.len(),
{
    if s.len() > 0 && is_ws(s[s.len() - 1]) {
        trim_end_chars(s.subrange(0, s.len() - 1))
    } else {
        s
    }
}

/// The text without leading and trailing whitespace.
pub open spec fn trim_chars(s: Seq<char>) -> Seq<char> {
    trim_end_chars(trim_start_chars(s))
}

/// [`trim_start_chars`] keeps the suffix from the first index on.
proof fn lemma_trim_start_skip(s: Seq<char>, a: int)
    requires
        0 <= a <= s.len(),
        forall|j: int| 0 <= j < a ==> is_ws(s[j]),
    ensures
        trim_start_chars(s) == trim_start_chars(s.subrange(a, s.len() as int)),
    decreases a,
{
    if a == 0 {
        assert(s.subrange(0, s.len() as int) =~= s);
    } else {
        lemma_trim_start_skip(s, a - 1);
        let s1 = s.subrange(a - 1, s.len() as int);
        let s2 = s.subrange(a, s.len() as int);
        assert(s1[0] == s[a - 1]);
        assert(s1.subrange(1, s1.len() as int) =~= s2);
    }
}

/// [`trim_end_chars`] keeps the prefix up to the last kept index.
proof fn lemma_trim_end_skip(s: Seq<char>, b: int)
    requires
        0 <= b <= s.len(),
        forall|j: int| b <= j < s.len() ==> is_ws(s[j]),
    ensures
        trim_end_chars(s) == trim_end_chars(s.subrange(0, b)),
    decreases s.len() - b,
{
    if b == s.len() {
        assert(s.subrange(0, s.len() as int) =~= s);
    } else {
        lemma_trim_end_skip_one(s);
        lemma_trim_end_skip(s.subrange(0, s.len() - 1), b);
        assert(s.subrange(0, s.len() - 1).subrange(0, b) =~= s.subrange(0, b));
    }
}

/// Dropping one trailing whitespace character keeps [`trim_end_chars`].
proof fn lemma_trim_end_skip_one(s: Seq<char>)
    requires
        s.len() > 0,
        is_ws(s[s.len() - 1]),
    ensures
        trim_end_chars(s) == trim_end_chars(s.subrange(0, s.len() - 1)),
{
}

/// ASCII trim, matching [`trim_chars`].
pub fn trim_exec(s: &str) -> (r: String)
    ensures
        r@ == trim_chars(s@),
{
    let len = s.unicode_len();
    let mut a: usize = 0;
    while a < len && is_ws_exec(s.get_char(a))
        invariant
            a <= len,
            len == s@.len(),
            forall|j: int| 0 <= j < a ==> is_ws(s@[j]),
        decreases len - a,
    {
        a = a + 1;
    }
    let mut b: usize = len;
    while b > a && is_ws_exec(s.get_char(b - 1))
        invariant
            a <= b <= len,
            len == s@.len(),
            forall|j: int| 0 <= j < a ==> is_ws(s@[j]),
            forall|j: int| b <= j < len ==> is_ws(s@[j]),
        decreases b,
    {
        b = b - 1;
    }
    let piece = String::from_str(s.substring_char(a, b));
    proof {
        lemma_trim_start_skip(s@, a as int);
        let tail = s@.subrange(a as int, s@.len() as int);
        if a < b {
            assert(!is_ws(s@[a as int]));
            assert(tail[0] == s@[a as int]);
            assert(trim_start_chars(tail) == tail);
            lemma_trim_end_skip(tail, b - a);
            assert(tail.subrange(0, b - a) =~= s@.subrange(a as int, b as int));
            let kept = tail.subrange(0, b - a);
            assert(kept[kept.len() - 1] == s@[b - 1]);
            assert(!is_ws(s@[b - 1]));
            assert(trim_end_chars(kept) == kept);
        } else {
            assert(tail =~= s@.subrange(a as int, b as int));
            assert(trim_start_chars(tail) == tail) by {
                if tail.len() > 0 {
                    assert(tail[0] == s@[a as int]);
                }
            }
            assert(trim_end_chars(tail) == tail);
        }
    }
    piece
}

/// The pieces of a text split at every newline; one more piece than there
/// are newlines.
pub open spec fn split_newline(s: Seq<char>) -> Seq<Seq<char>>
    decreases s.len(),
{
    match find_char(s, '\n') {
        None => seq![s],
        Some(i) => {
            if 0 <= i < s.len() {
                seq![s.subrange(0, i)] + split_newline(s.subrange(i + 1, s.len() as int))
            } else {
                seq![s]
            }
        },
    }
}

/// The text's lines: split at newlines, a final empty piece dropped, and
/// one trailing carriage return stripped from each line.
pub open spec fn lines_of(s: Seq<char>) -> Seq<Seq<char>> {
    let ps = split_newline(s);
    let kept = if ps.len() > 0 && ps.last().len() == 0 {
        ps.drop_last()
    } else {
        ps
    };
    Seq::new(kept.len(), |i: int| strip_cr(kept[i]))
}

/// The text without one trailing carriage return.
pub open spec fn strip_cr(s: Seq<char>) -> Seq<char> {
    if s.len() > 0 && s[s.len() - 1] == '\r' {
        s.subrange(0, s.len() - 1)
    } else {
        s
    }
}

/// Split at newlines, matching [`split_newline`].
pub fn split_newline_exec(s: &str) -> (r: Vec<String>)
    ensures
        r.deep_view() == split_newline(s@),
    decreases s@.len(),
{
    let len = s.unicode_len();
    match find_char_exec(s, '\n') {
        None => {
            let mut v: Vec<String> = Vec::new();
            v.push(String::from_str(s));
            proof {
                assert(v.deep_view() =~= split_newline(s@));
            }
            v
        },
        Some(i) => {
            proof {
                lemma_find_char(s@, '\n');
            }
            let head = s.substring_char(0, i);
            let tail = s.substring_char(i + 1, len);
            let rest = split_newline_exec(tail);
            let mut v: Vec<String> = Vec::new();
            v.push(String::from_str(head));
            let mut k: usize = 0;
            let n = rest.len();
            while k < n
                invariant
                    k <= n,
                    n == rest@.len(),
                    v@.len() == k + 1,
                    v@[0]@ == head@,
                    forall|j: int| 1 <= j < k + 1 ==> #[trigger] v@[j]@ == rest@[j - 1]@,
                decreases n - k,
            {
                v.push(rest[k].clone());
                k = k + 1;
            }
            proof {
                assert(v.deep_view() =~= seq![head@] + rest.deep_view());
                assert(v.deep_view() =~= split_newline(s@));
            }
            v
        },
    }
}

/// The text's lines, matching [`lines_of`].
pub fn lines_exec(s: &str) -> (r: Vec<String>)
    ensures
        r.deep_view() == lines_of(s@),
{
    let mut pieces = split_newline_exec(s);
    if pieces.len() > 0 && pieces[pieces.len() - 1].as_str().unicode_len() == 0 {
        let ghost before = pieces.deep_view();
        pieces.pop();
        proof {
            assert(pieces.deep_view() =~= before.drop_last());
        }
    }
    let mut r: Vec<String> = Vec::new();
    let mut i: usize = 0;
    let n = pieces.len();
    while i < n
        invariant
            i <= n,
            n == pieces@.len(),
            r@.len() == i,
            forall|j: int| 0 <= j < i ==> #[trigger] r@[j]@ == strip_cr(pieces@[j]@),
        decreases n - i,
    {
        let p = &pieces[i];
        let plen = p.as_str().unicode_len();
        if plen > 0 && p.as_str().get_char(plen - 1) == '\r' {
            r.push(String::from_str(p.as_str().substring_char(0, plen - 1)));
        } else {
            r.push(p.clone());
        }
        i = i + 1;
    }
    proof {
        assert(r.deep_view() =~= lines_of(s@));
    }
    r
}

} // verus!
