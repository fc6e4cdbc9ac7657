//! Character-level text utilities shared by the parsers and name builders.
//!
//! Everything here works on the character view of a string (`Seq<char>`):
//! trimming, ASCII case folding, splitting on a separator, decimal
//! formatting and unsigned-integer parsing, each with the meaning the
//! corresponding `str` method has.
use vstd::prelude::*;
use vstd::string::*;

verus! {

// ---------------------------------------------------------------------
// Specifications
// ---------------------------------------------------------------------

/// Unicode `White_Space`, the set `char::is_whitespace` tests.
pub open spec fn is_ws(c: char) -> bool {
    let u = c as u32;
    ||| 9 <= u <= 13
    ||| u == 32
    ||| u == 0x85
    ||| u == 0xA0
    ||| u == 0x1680
    ||| 0x2000 <= u <= 0x200A
    ||| u == 0x2028
    ||| u == 0x2029
    ||| u == 0x202F
    ||| u == 0x205F
    ||| u == 0x3000
}

/// `s` without its leading characters satisfying `p`.
pub open spec fn trim_start_by(s: Seq<char>, p: spec_fn(char) -> bool) -> Seq<char>
    decreases s.len(),
{
    if s.len() > 0 && p(s[0]) {
        trim_start_by(s.drop_first(), p)
    } else {
        s
    }
}

/// `s` without its trailing characters satisfying `p`.
pub open spec fn trim_end_by(s: Seq<char>, p: spec_fn(char) -> bool) -> Seq<char>
    decreases s.len(),
{
    if s.len() > 0 && p(s.last()) {
        trim_end_by(s.drop_last(), p)
    } else {
        s
    }
}

pub open spec fn ws_pred() -> spec_fn(char) -> bool {
    |c: char| is_ws(c)
}

pub open spec fn char_pred(x: char) -> spec_fn(char) -> bool {
    |c: char| c == x
}

/// `str::trim`: leading and trailing whitespace removed.
pub open spec fn trim(s: Seq<char>) -> Seq<char> {
    trim_end_by(trim_start_by(s, ws_pred()), ws_pred())
}

/// `char::to_ascii_lowercase`.
pub open spec fn ascii_lower(c: char) -> char {
    if 'A' <= c <= 'Z' {
        ((c as u32) + 32) as char
    } else {
        c
    }
}

/// `str::to_ascii_lowercase`.
pub open spec fn lower(s: Seq<char>) -> Seq<char> {
    s.map_values(|c: char| ascii_lower(c))
}

/// `str::split(sep)`: the pieces between occurrences of `sep`, in order.
/// The empty string splits into one empty piece.
pub open spec fn split(s: Seq<char>, sep: char) -> Seq<Seq<char>>
    decreases s.len(),
{
    if s.len() == 0 {
        seq![Seq::<char>::empty()]
    } else {
        let rest = split(s.drop_last(), sep);
        if s.last() == sep {
            rest.push(Seq::<char>::empty())
        } else {
            rest.update(rest.len() - 1, rest.last().push(s.last()))
        }
    }
}

/// The character of a decimal digit value.
pub open spec fn digit_char(d: nat) -> char {
    ((d + 48) as u32) as char
}

/// The decimal representation of `n` (no sign, no leading zeros).
pub open spec fn decimal(n: nat) -> Seq<char>
    decreases n,
{
    if n < 10 {
        seq![digit_char(n)]
    } else {
        decimal(n / 10).push(digit_char(n % 10))
    }
}

pub open spec fn is_digit(c: char) -> bool {
    '0' <= c <= '9'
}

pub open spec fn all_digits(s: Seq<char>) -> bool {
    forall|i: int| 0 <= i < s.len() ==> is_digit(#[trigger] s[i])
}

/// Value of a string of decimal digits.
pub open spec fn digits_value(s: Seq<char>) -> nat
    decreases s.len(),
{
    if s.len() == 0 {
        0
    } else {
        digits_value(s.drop_last()) * 10 + ((s.last() as u32) - 48) as nat
    }
}

/// `str::parse` of an unsigned integer type whose largest value is `max`:
/// an optional `+`, then at least one decimal digit, the value in range.
pub open spec fn parse_unsigned(s: Seq<char>, max: nat) -> Option<nat> {
    let body = if s.len() > 0 && s[0] == '+' {
        s.drop_first()
    } else {
        s
    };
    if body.len() > 0 && all_digits(body) && digits_value(body) <= max {
        Some(digits_value(body))
    } else {
        None
    }
}

/// Joins `parts` with `sep` between consecutive parts.
pub open spec fn join(parts: Seq<Seq<char>>, sep: char) -> Seq<char>
    decreases parts.len(),
{
    if parts.len() == 0 {
        Seq::<char>::empty()
    } else if parts.len() == 1 {
        parts[0]
    } else {
        join(parts.drop_last(), sep).push(sep) + parts.last()
    }
}

/// Position of the first character of `s` satisfying `p`.
pub open spec fn find_first(s: Seq<char>, p: spec_fn(char) -> bool) -> Option<nat>
    decreases s.len(),
{
    if s.len() == 0 {
        None
    } else if p(s[0]) {
        Some(0)
    } else {
        match find_first(s.drop_first(), p) {
            Some(i) => Some(i + 1),
            None => None,
        }
    }
}

/// Whether `s` begins with `prefix`.
pub open spec fn starts_with(s: Seq<char>, prefix: Seq<char>) -> bool {
    prefix.len() <= s.len() && s.take(prefix.len() as int) == prefix
}

/// The character views of a sequence of strings.
pub open spec fn views(v: Seq<String>) -> Seq<Seq<char>> {
    v.map_values(|x: String| x@)
}

// ---------------------------------------------------------------------
// Lemmas
// ---------------------------------------------------------------------

pub proof fn lemma_trim_start_skip(s: Seq<char>, p: spec_fn(char) -> bool, i: int)
    requires
        0 <= i <= s.len(),
        forall|j: int| 0 <= j < i ==> p(#[trigger] s[j]),
    ensures
        trim_start_by(s, p) == trim_start_by(s.subrange(i, s.len() as int), p),
    decreases i,
{
    if i > 0 {
        assert(s.drop_first().subrange(i - 1, s.drop_first().len() as int) =~= s.subrange(
            i,
            s.len() as int,
        ));
        lemma_trim_start_skip(s.drop_first(), p, i - 1);
    } else {
        assert(s.subrange(0, s.len() as int) =~= s);
    }
}

pub proof fn lemma_trim_end_take(s: Seq<char>, p: spec_fn(char) -> bool, i: int)
    requires
        0 <= i <= s.len(),
        forall|j: int| i <= j < s.len() ==> p(#[trigger] s[j]),
    ensures
        trim_end_by(s, p) == trim_end_by(s.subrange(0, i), p),
    decreases s.len() - i,
{
    if i < s.len() {
        assert(s.drop_last().subrange(0, i) =~= s.subrange(0, i));
        lemma_trim_end_take(s.drop_last(), p, i);
    } else {
        assert(s.subrange(0, s.len() as int) =~= s);
    }
}

/// `find_first` is the least position satisfying `p`.
pub proof fn lemma_find_first(s: Seq<char>, p: spec_fn(char) -> bool)
    ensures
        match find_first(s, p) {
            Some(i) => i < s.len() && p(s[i as int]) && forall|j: int| 0 <= j < i ==> !p(#[trigger] s[j]),
            None => forall|j: int| 0 <= j < s.len() ==> !p(#[trigger] s[j]),
        },
    decreases s.len(),
{
    if s.len() > 0 && !p(s[0]) {
        lemma_find_first(s.drop_first(), p);
        assert forall|j: int| 1 <= j < s.len() implies #[trigger] s[j] == s.drop_first()[j - 1] by {}
    }
}

/// The least position satisfying `p` is what `find_first` gives.
pub proof fn lemma_find_first_at(s: Seq<char>, p: spec_fn(char) -> bool, i: int)
    requires
        0 <= i <= s.len(),
        i < s.len() ==> p(s[i]),
        forall|j: int| 0 <= j < i ==> !p(#[trigger] s[j]),
    ensures
        find_first(s, p) == (if i < s.len() {
            Some(i as nat)
        } else {
            None::<nat>
        }),
{
    lemma_find_first(s, p);
    match find_first(s, p) {
        Some(k) => {
            if (k as int) < i {
                assert(!p(s[k as int]));
            } else if (k as int) > i {
                assert(!p(s[i]));
            }
        },
        None => {
            if i < s.len() {
                assert(!p(s[i]));
            }
        },
    }
}

/// Position of the first `c` in `v[lo..hi]`, relative to `lo`.
pub fn find_char_range(v: &Vec<char>, lo: usize, hi: usize, c: char) -> (r: Option<usize>)
    requires
        lo <= hi <= v@.len(),
    ensures
        match r {
            Some(i) => i < hi - lo && find_first(v@.subrange(lo as int, hi as int), char_pred(c))
                == Some(i as nat),
            None => find_first(v@.subrange(lo as int, hi as int), char_pred(c)) == None::<nat>,
        },
{
    let ghost s = v@.subrange(lo as int, hi as int);
    let mut i = lo;
    while i < hi
        invariant
            lo <= i <= hi <= v@.len(),
            s == v@.subrange(lo as int, hi as int),
            forall|j: int| lo <= j < i ==> #[trigger] v@[j] != c,
        decreases hi - i,
    {
        if v[i] == c {
            proof {
                assert forall|j: int| 0 <= j < i - lo implies !char_pred(c)(#[trigger] s[j]) by {
                    assert(s[j] == v@[lo + j]);
                }
                lemma_find_first_at(s, char_pred(c), i - lo);
            }
            return Some(i - lo);
        }
        i += 1;
    }
    proof {
        assert forall|j: int| 0 <= j < s.len() implies !char_pred(c)(#[trigger] s[j]) by {
            assert(s[j] == v@[lo + j]);
        }
        lemma_find_first_at(s, char_pred(c), s.len() as int);
    }
    None
}

/// Position of the first whitespace character in `v[lo..hi]`, relative to
/// `lo`, or the range's length when there is none.
pub fn find_ws_range(v: &Vec<char>, lo: usize, hi: usize) -> (r: usize)
    requires
        lo <= hi <= v@.len(),
    ensures
        r <= hi - lo,
        find_first(v@.subrange(lo as int, hi as int), ws_pred()) == (if r < hi - lo {
            Some(r as nat)
        } else {
            None::<nat>
        }),
{
    let ghost s = v@.subrange(lo as int, hi as int);
    let mut i = lo;
    while i < hi && !is_whitespace(v[i])
        invariant
            lo <= i <= hi <= v@.len(),
            s == v@.subrange(lo as int, hi as int),
            forall|j: int| lo <= j < i ==> !is_ws(#[trigger] v@[j]),
        decreases hi - i,
    {
        i += 1;
    }
    proof {
        assert forall|j: int| 0 <= j < i - lo implies !ws_pred()(#[trigger] s[j]) by {
            assert(s[j] == v@[lo + j]);
        }
        if i < hi {
            assert(s[i - lo] == v@[i as int]);
        }
        lemma_find_first_at(s, ws_pred(), i - lo);
    }
    i - lo
}

pub proof fn lemma_split_push(s: Seq<char>, c: char, sep: char)
    ensures
        split(s.push(c), sep) == (if c == sep {
            split(s, sep).push(Seq::<char>::empty())
        } else {
            let r = split(s, sep);
            r.update(r.len() - 1, r.last().push(c))
        }),
{
    assert(s.push(c).drop_last() =~= s);
}

pub proof fn lemma_split_len(s: Seq<char>, sep: char)
    ensures
        split(s, sep).len() >= 1,
    decreases s.len(),
{
    if s.len() > 0 {
        lemma_split_len(s.drop_last(), sep);
    }
}

pub proof fn lemma_digits_push(s: Seq<char>, c: char)
    ensures
        digits_value(s.push(c)) == digits_value(s) * 10 + ((c as u32) - 48) as nat,
{
    assert(s.push(c).drop_last() =~= s);
}

// ---------------------------------------------------------------------
// Executable helpers
// ---------------------------------------------------------------------

/// Appends one character to a string (`String::push`).
#[verifier::external_body]
pub(crate) fn push_char(s: &mut String, c: char)
    ensures
        final(s)@ == old(s)@.push(c),
{
    s.push(c);
}

/// The characters of `s`, in order.
pub fn chars_of(s: &str) -> (r: Vec<char>)
    ensures
        r@ == s@,
{
    let n = s.unicode_len();
    let mut out: Vec<char> = Vec::new();
    let mut i: usize = 0;
    while i < n
        invariant
            n == s@.len(),
            i <= n,
            out@ == s@.subrange(0, i as int),
        decreases n - i,
    {
        out.push(s.get_char(i));
        i += 1;
    }
    out
}

/// A string holding the characters `v[lo..hi]`.
pub fn string_of(v: &Vec<char>, lo: usize, hi: usize) -> (r: String)
    requires
        lo <= hi <= v@.len(),
    ensures
        r@ == v@.subrange(lo as int, hi as int),
{
    let mut out = String::new();
    let mut i = lo;
    while i < hi
        invariant
            lo <= i <= hi <= v@.len(),
            out@ == v@.subrange(lo as int, i as int),
        decreases hi - i,
    {
        push_char(&mut out, v[i]);
        assert(v@.subrange(lo as int, i + 1) =~= v@.subrange(lo as int, i as int).push(v@[i as int]));
        i += 1;
    }
    out
}

/// Appends `t` to `s` character by character.
pub fn push_str(s: &mut String, t: &str)
    ensures
        final(s)@ == old(s)@ + t@,
{
    let v = chars_of(t);
    let mut i: usize = 0;
    while i < v.len()
        invariant
            i <= v@.len(),
            v@ == t@,
            s@ == old(s)@ + v@.subrange(0, i as int),
        decreases v.len() - i,
    {
        push_char(s, v[i]);
        assert(v@.subrange(0, i + 1) =~= v@.subrange(0, i as int).push(v@[i as int]));
        i += 1;
    }
    assert(v@.subrange(0, v@.len() as int) =~= v@);
}

/// `char::is_whitespace`.
pub fn is_whitespace(c: char) -> (r: bool)
    ensures
        r == is_ws(c),
{
    let u = c as u32;
    (9 <= u && u <= 13) || u == 32 || u == 0x85 || u == 0xA0 || u == 0x1680 || (0x2000 <= u && u
        <= 0x200A) || u == 0x2028 || u == 0x2029 || u == 0x202F || u == 0x205F || u == 0x3000
}

/// `char::to_ascii_lowercase`.
pub fn to_ascii_lower(c: char) -> (r: char)
    ensures
        r == ascii_lower(c),
{
    if 'A' <= c && c <= 'Z' {
        let b = (c as u8) + 32;
        b as char
    } else {
        c
    }
}

/// The bounds of `v[lo..hi]` with surrounding whitespace removed.
pub fn trim_range(v: &Vec<char>, lo: usize, hi: usize) -> (r: (usize, usize))
    requires
        lo <= hi <= v@.len(),
    ensures
        lo <= r.0 <= r.1 <= hi,
        v@.subrange(r.0 as int, r.1 as int) == trim(v@.subrange(lo as int, hi as int)),
{
    let ghost s = v@.subrange(lo as int, hi as int);
    let mut a = lo;
    while a < hi && is_whitespace(v[a])
        invariant
            lo <= a <= hi <= v@.len(),
            forall|j: int| lo <= j < a ==> is_ws(#[trigger] v@[j]),
        decreases hi - a,
    {
        a += 1;
    }
    proof {
        assert forall|j: int| 0 <= j < a - lo implies ws_pred()(#[trigger] s[j]) by {
            assert(s[j] == v@[lo + j]);
        }
        lemma_trim_start_skip(s, ws_pred(), a - lo);
        assert(s.subrange(a - lo, s.len() as int) =~= v@.subrange(a as int, hi as int));
        let t = v@.subrange(a as int, hi as int);
        if t.len() > 0 {
            assert(t[0] == v@[a as int]);
        }
        assert(trim_start_by(s, ws_pred()) == t);
    }
    let mut b = hi;
    while b > a && is_whitespace(v[b - 1])
        invariant
            lo <= a <= b <= hi <= v@.len(),
            forall|j: int| b <= j < hi ==> is_ws(#[trigger] v@[j]),
        decreases b - a,
    {
        b -= 1;
    }
    proof {
        let t = v@.subrange(a as int, hi as int);
        assert forall|j: int| b - a <= j < t.len() implies ws_pred()(#[trigger] t[j]) by {
            assert(t[j] == v@[a + j]);
        }
        lemma_trim_end_take(t, ws_pred(), b - a);
        assert(t.subrange(0, b - a) =~= v@.subrange(a as int, b as int));
        let u = v@.subrange(a as int, b as int);
        if u.len() > 0 {
            assert(u.last() == v@[b - 1]);
        }
    }
    (a, b)
}

/// The bounds of `v[lo..hi]` with leading occurrences of `c` removed
/// (`str::trim_start_matches(c)`).
pub fn strip_leading_range(v: &Vec<char>, lo: usize, hi: usize, c: char) -> (r: usize)
    requires
        lo <= hi <= v@.len(),
    ensures
        lo <= r <= hi,
        v@.subrange(r as int, hi as int) == trim_start_by(
            v@.subrange(lo as int, hi as int),
            char_pred(c),
        ),
{
    let ghost s = v@.subrange(lo as int, hi as int);
    let mut a = lo;
    while a < hi && v[a] == c
        invariant
            lo <= a <= hi <= v@.len(),
            forall|j: int| lo <= j < a ==> #[trigger] v@[j] == c,
        decreases hi - a,
    {
        a += 1;
    }
    proof {
        assert forall|j: int| 0 <= j < a - lo implies char_pred(c)(#[trigger] s[j]) by {
            assert(s[j] == v@[lo + j]);
        }
        lemma_trim_start_skip(s, char_pred(c), a - lo);
        assert(s.subrange(a - lo, s.len() as int) =~= v@.subrange(a as int, hi as int));
        let t = v@.subrange(a as int, hi as int);
        if t.len() > 0 {
            assert(t[0] == v@[a as int]);
        }
    }
    a
}

/// The bounds of `v[lo..hi]` with trailing occurrences of `c` removed
/// (`str::trim_end_matches(c)`).
pub fn strip_trailing_range(v: &Vec<char>, lo: usize, hi: usize, c: char) -> (r: usize)
    requires
        lo <= hi <= v@.len(),
    ensures
        lo <= r <= hi,
        v@.subrange(lo as int, r as int) == trim_end_by(
            v@.subrange(lo as int, hi as int),
            char_pred(c),
        ),
{
    let ghost t = v@.subrange(lo as int, hi as int);
    let mut b = hi;
    while b > lo && v[b - 1] == c
        invariant
            lo <= b <= hi <= v@.len(),
            forall|j: int| b <= j < hi ==> #[trigger] v@[j] == c,
        decreases b - lo,
    {
        b -= 1;
    }
    proof {
        assert forall|j: int| b - lo <= j < t.len() implies char_pred(c)(#[trigger] t[j]) by {
            assert(t[j] == v@[lo + j]);
        }
        lemma_trim_end_take(t, char_pred(c), b - lo);
        assert(t.subrange(0, b - lo) =~= v@.subrange(lo as int, b as int));
        let u = v@.subrange(lo as int, b as int);
        if u.len() > 0 {
            assert(u.last() == v@[b - 1]);
        }
    }
    b
}

/// `str::trim` as an owned string.
pub fn trimmed(s: &str) -> (r: String)
    ensures
        r@ == trim(s@),
{
    let v = chars_of(s);
    let (a, b) = trim_range(&v, 0, v.len());
    assert(v@.subrange(0, v@.len() as int) =~= v@);
    string_of(&v, a, b)
}

/// Whether `v[lo..hi]` equals `t` character for character.
pub fn range_eq(v: &Vec<char>, lo: usize, hi: usize, t: &str) -> (r: bool)
    requires
        lo <= hi <= v@.len(),
    ensures
        r == (v@.subrange(lo as int, hi as int) == t@),
{
    let w = chars_of(t);
    if hi - lo != w.len() {
        return false;
    }
    let mut i: usize = 0;
    while i < w.len()
        invariant
            w@ == t@,
            hi - lo == w@.len(),
            lo <= hi <= v@.len(),
            i <= w@.len(),
            forall|j: int| 0 <= j < i ==> v@[lo + j] == w@[j],
        decreases w.len() - i,
    {
        if v[lo + i] != w[i] {
            assert(v@.subrange(lo as int, hi as int)[i as int] != t@[i as int]);
            return false;
        }
        i += 1;
    }
    assert(v@.subrange(lo as int, hi as int) =~= t@);
    true
}

/// Whether two strings have the same characters.
pub fn str_eq(a: &str, b: &str) -> (r: bool)
    ensures
        r == (a@ == b@),
{
    let v = chars_of(a);
    assert(v@.subrange(0, v@.len() as int) =~= v@);
    range_eq(&v, 0, v.len(), b)
}

/// Whether `v[lo..hi]` starts with `t`.
pub fn range_starts_with(v: &Vec<char>, lo: usize, hi: usize, t: &str) -> (r: bool)
    requires
        lo <= hi <= v@.len(),
    ensures
        r == (t@.len() <= hi - lo && v@.subrange(lo as int, lo + t@.len()) == t@),
{
    let w = chars_of(t);
    if w.len() > hi - lo {
        return false;
    }
    range_eq(v, lo, lo + w.len(), t)
}

/// `str::split(sep)`, each piece as an owned string.
pub fn split_chars(v: &Vec<char>, lo: usize, hi: usize, sep: char) -> (r: Vec<String>)
    requires
        lo <= hi <= v@.len(),
    ensures
        views(r@) == split(v@.subrange(lo as int, hi as int), sep),
{
    let mut out: Vec<String> = Vec::new();
    let mut cur = String::new();
    let mut i = lo;
    assert(v@.subrange(lo as int, lo as int) =~= Seq::<char>::empty());
    while i < hi
        invariant
            lo <= i <= hi <= v@.len(),
            views(out@).push(cur@) == split(v@.subrange(lo as int, i as int), sep),
        decreases hi - i,
    {
        let c = v[i];
        let ghost pre = v@.subrange(lo as int, i as int);
        proof {
            assert(v@.subrange(lo as int, i + 1) =~= pre.push(c));
            lemma_split_push(pre, c, sep);
        }
        if c == sep {
            let piece = cur;
            out.push(piece);
            cur = String::new();
            assert(views(out@).push(cur@) =~= split(pre, sep).push(Seq::<char>::empty()));
        } else {
            let ghost old_cur = cur@;
            push_char(&mut cur, c);
            assert(views(out@).push(cur@) =~= split(pre, sep).update(
                split(pre, sep).len() - 1,
                split(pre, sep).last().push(c),
            ));
        }
        i += 1;
    }
    out.push(cur);
    assert(views(out@) =~= split(v@.subrange(lo as int, hi as int), sep));
    out
}

/// `str::split(sep)` of a whole string.
pub fn split_str(s: &str, sep: char) -> (r: Vec<String>)
    ensures
        views(r@) == split(s@, sep),
{
    let v = chars_of(s);
    assert(v@.subrange(0, v@.len() as int) =~= v@);
    split_chars(&v, 0, v.len(), sep)
}

pub proof fn lemma_decimal_injective(a: nat, b: nat)
    requires
        decimal(a) == decimal(b),
    ensures
        a == b,
{
    lemma_decimal_value(a);
    lemma_decimal_value(b);
}

pub proof fn lemma_decimal_value(n: nat)
    ensures
        all_digits(decimal(n)),
        digits_value(decimal(n)) == n,
    decreases n,
{
    if n >= 10 {
        lemma_decimal_value(n / 10);
        lemma_digits_push(decimal(n / 10), digit_char(n % 10));
        let d = decimal(n);
        assert forall|i: int| 0 <= i < d.len() implies is_digit(#[trigger] d[i]) by {
            if i < d.len() - 1 {
                assert(d[i] == decimal(n / 10)[i]);
            }
        }
    } else {
        lemma_digits_push(Seq::<char>::empty(), digit_char(n));
        assert(seq![digit_char(n)] =~= Seq::<char>::empty().push(digit_char(n)));
    }
}

/// The decimal representation of a signed integer: a `-` before the
/// digits of its magnitude when negative.
pub open spec fn signed_decimal(n: int) -> Seq<char> {
    if n < 0 {
        seq!['-'] + decimal((-n) as nat)
    } else {
        decimal(n as nat)
    }
}

/// Appends the decimal representation of a signed integer.
pub fn push_signed(s: &mut String, n: i64)
    ensures
        final(s)@ == old(s)@ + signed_decimal(n as int),
{
    if n < 0 {
        push_char(s, '-');
        let m: u64 = if n == i64::MIN {
            9_223_372_036_854_775_808u64
        } else {
            (-n) as u64
        };
        push_decimal(s, m);
        assert(s@ =~= old(s)@ + signed_decimal(n as int));
    } else {
        push_decimal(s, n as u64);
    }
}

/// Appends the decimal representation of `n`.
pub fn push_decimal(s: &mut String, n: u64)
    ensures
        final(s)@ == old(s)@ + decimal(n as nat),
    decreases n,
{
    if n >= 10 {
        push_decimal(s, n / 10);
        push_char(s, ((n % 10) as u8 + 48) as char);
        proof {
            assert(decimal(n as nat) == decimal((n / 10) as nat).push(digit_char((n % 10) as nat)));
        }
        assert(s@ =~= old(s)@ + decimal(n as nat));
    } else {
        push_char(s, (n as u8 + 48) as char);
        assert(s@ =~= old(s)@ + decimal(n as nat));
    }
}

/// Parses `v[lo..hi]` as an unsigned integer no larger than `max`
/// (`str::parse::<u8>()`, `::<u32>()`, ... with `max` the type's largest value).
pub fn parse_unsigned_range(v: &Vec<char>, lo: usize, hi: usize, max: u64) -> (r: Option<u64>)
    requires
        lo <= hi <= v@.len(),
        max < 0x1_0000_0000,
    ensures
        r.is_some() == parse_unsigned(v@.subrange(lo as int, hi as int), max as nat).is_some(),
        r matches Some(x) ==> parse_unsigned(v@.subrange(lo as int, hi as int), max as nat)
            == Some(x as nat),
{
    let ghost s = v@.subrange(lo as int, hi as int);
    let mut i = lo;
    if i < hi && v[i] == '+' {
        i += 1;
    }
    let start = i;
    let ghost body = v@.subrange(start as int, hi as int);
    proof {
        if s.len() > 0 && s[0] == '+' {
            assert(body =~= s.drop_first());
        } else {
            assert(body =~= s);
        }
    }
    if start == hi {
        return None;
    }
    let mut val: u64 = 0;
    while i < hi
        invariant
            lo <= start <= i <= hi <= v@.len(),
            max < 0x1_0000_0000,
            s == v@.subrange(lo as int, hi as int),
            body == v@.subrange(start as int, hi as int),
            body == (if s.len() > 0 && s[0] == '+' { s.drop_first() } else { s }),
            val <= max,
            all_digits(v@.subrange(start as int, i as int)),
            val as nat == digits_value(v@.subrange(start as int, i as int)),
        decreases hi - i,
    {
        let c = v[i];
        proof {
            assert(v@.subrange(start as int, i + 1) =~= v@.subrange(start as int, i as int).push(
                c,
            ));
            lemma_digits_push(v@.subrange(start as int, i as int), c);
        }
        if !('0' <= c && c <= '9') {
            proof {
                assert(!is_digit(body[i - start]));
            }
            return None;
        }
        let d = (c as u32 - 48) as u64;
        let next = val * 10 + d;
        if next > max {
            proof {
                if all_digits(body) {
                    lemma_digits_prefix_bound(body, i - start + 1);
                    assert(body.subrange(0, i - start + 1) =~= v@.subrange(start as int, i + 1));
                }
            }
            return None;
        }
        val = next;
        i += 1;
    }
    assert(v@.subrange(start as int, hi as int) =~= body);
    Some(val)
}

/// A longer digit string never has a smaller value than its prefix.
pub proof fn lemma_digits_prefix_bound(s: Seq<char>, k: int)
    requires
        0 <= k <= s.len(),
        all_digits(s),
    ensures
        digits_value(s.subrange(0, k)) <= digits_value(s),
    decreases s.len() - k,
{
    if k < s.len() {
        let t = s.drop_last();
        assert(t.subrange(0, k) =~= s.subrange(0, k));
        assert forall|i: int| 0 <= i < t.len() implies is_digit(#[trigger] t[i]) by {
            assert(t[i] == s[i]);
        }
        lemma_digits_prefix_bound(t, k);
    } else {
        assert(s.subrange(0, k) =~= s);
    }
}

/// Joins strings with a separator character.
pub fn join_strings(parts: &Vec<String>, sep: char) -> (r: String)
    ensures
        r@ == join(views(parts@), sep),
{
    let mut out = String::new();
    let mut i: usize = 0;
    while i < parts.len()
        invariant
            i <= parts@.len(),
            out@ == join(views(parts@.subrange(0, i as int)), sep),
        decreases parts.len() - i,
    {
        let ghost pre = views(parts@.subrange(0, i as int));
        if i > 0 {
            push_char(&mut out, sep);
        }
        push_str(&mut out, parts[i].as_str());
        proof {
            let nxt = views(parts@.subrange(0, i + 1));
            assert(nxt.drop_last() =~= pre);
            assert(nxt.last() == parts@[i as int]@);
            if i == 0 {
                assert(nxt.len() == 1);
                assert(out@ =~= nxt[0]);
            }
        }
        i += 1;
    }
    assert(parts@.subrange(0, parts@.len() as int) =~= parts@);
    out
}

} // verus!
