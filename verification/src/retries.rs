//! Retry policy: the retry-delay hint found in error messages, and the
//! decisions of the retry loop (when to stop, how long to wait).

use crate::error::AISDKError;
use crate::text::chars_of;
use tokio_util::sync::CancellationToken;
use vstd::prelude::*;
use vstd::arithmetic::power2::pow2;

verus! {

broadcast use vstd::string::group_string_axioms;

/// Declares `tokio_util::sync::CancellationToken`, which a retry
/// configuration carries to the loop that checks it.
#[verifier::external_type_specification]
#[verifier::external_body]
pub struct ExCancellationToken(CancellationToken);

// ---------------------------------------------------------------------
// Characters
// ---------------------------------------------------------------------

/// Unicode `White_Space`, the property that `char::is_whitespace` and
/// `str::split_whitespace` test.
pub open spec fn is_white_space(c: char) -> bool {
    let u = c as u32;
    ||| 0x09 <= u <= 0x0d
    ||| u == 0x20
    ||| u == 0x85
    ||| u == 0xa0
    ||| u == 0x1680
    ||| 0x2000 <= u <= 0x200a
    ||| u == 0x2028
    ||| u == 0x2029
    ||| u == 0x202f
    ||| u == 0x205f
    ||| u == 0x3000
}

/// An ASCII decimal digit.
pub open spec fn is_digit(c: char) -> bool {
    '0' <= c <= '9'
}

/// The value of an ASCII digit.
pub open spec fn digit_value(c: char) -> nat {
    (c as u32 - '0' as u32) as nat
}

fn white_space(c: char) -> (r: bool)
    ensures
        r == is_white_space(c),
{
    let u = c as u32;
    (0x09 <= u && u <= 0x0d) || u == 0x20 || u == 0x85 || u == 0xa0 || u == 0x1680 || (0x2000
        <= u && u <= 0x200a) || u == 0x2028 || u == 0x2029 || u == 0x202f || u == 0x205f || u
        == 0x3000
}

// ---------------------------------------------------------------------
// The meaning of the hint
// ---------------------------------------------------------------------

/// The text `retry`.
pub open spec fn retry_word() -> Seq<char> {
    seq!['r', 'e', 't', 'r', 'y']
}

/// `pat` occurs in `s` at position `i`.
pub open spec fn occurs_at(s: Seq<char>, pat: Seq<char>, i: int) -> bool {
    0 <= i && i + pat.len() <= s.len() && s.subrange(i, i + pat.len()) == pat
}

/// The first position at or after `i` where `pat` occurs in `s`.
pub open spec fn find_from(s: Seq<char>, pat: Seq<char>, i: int) -> Option<int>
    decreases s.len() + 1 - i,
{
    if i < 0 || i > s.len() || i + pat.len() > s.len() {
        None
    } else if occurs_at(s, pat, i) {
        Some(i)
    } else {
        find_from(s, pat, i + 1)
    }
}

/// The first position at or after `p` that is not white space.
pub open spec fn skip_white_space(s: Seq<char>, p: int) -> int
    decreases s.len() - p,
{
    if 0 <= p < s.len() && is_white_space(s[p]) {
        skip_white_space(s, p + 1)
    } else {
        p
    }
}

/// The end of the run of non-white-space characters that starts at `p`.
pub open spec fn word_end(s: Seq<char>, p: int) -> int
    decreases s.len() - p,
{
    if 0 <= p < s.len() && !is_white_space(s[p]) {
        word_end(s, p + 1)
    } else {
        p
    }
}

/// The first position at or after `i` that holds a digit.
pub open spec fn first_digit_from(w: Seq<char>, i: int) -> int
    decreases w.len() - i,
{
    if 0 <= i < w.len() && !is_digit(w[i]) {
        first_digit_from(w, i + 1)
    } else {
        i
    }
}

/// The end of `w.take(j)` once trailing non-digits are removed.
pub open spec fn last_digit_end(w: Seq<char>, j: int) -> int
    decreases j,
{
    if 0 < j <= w.len() && !is_digit(w[j - 1]) {
        last_digit_end(w, j - 1)
    } else {
        j
    }
}

/// `w` with non-digits removed from both ends.
pub open spec fn trim_non_digits(w: Seq<char>) -> Seq<char> {
    let a = first_digit_from(w, 0);
    let b = last_digit_end(w, w.len() as int);
    if a < b {
        w.subrange(a, b)
    } else {
        Seq::empty()
    }
}

/// The number that a string of digits denotes.
pub open spec fn digits_value(t: Seq<char>) -> nat
    decreases t.len(),
{
    if t.len() == 0 {
        0
    } else {
        digits_value(t.drop_last()) * 10 + digit_value(t.last())
    }
}

/// Every character is a digit.
pub open spec fn all_digits(t: Seq<char>) -> bool {
    forall|i: int| 0 <= i < t.len() ==> is_digit(#[trigger] t[i])
}

/// The result of parsing `t` as a `u64` in decimal: `t` is a non-empty
/// string of digits whose value fits.
pub open spec fn parse_u64(t: Seq<char>) -> Option<u64> {
    if t.len() > 0 && all_digits(t) && digits_value(t) <= u64::MAX {
        Some(digits_value(t) as u64)
    } else {
        None
    }
}

/// The value of the first word at or after `p` that, stripped of
/// non-digits at both ends, parses as a `u64`.
pub open spec fn first_number_from(s: Seq<char>, p: int) -> Option<u64>
    decreases s.len() - p,
{
    let a = skip_white_space(s, p);
    if p < 0 || a >= s.len() || a < p {
        None
    } else {
        let b = word_end(s, a);
        if b <= a || b > s.len() {
            None
        } else {
            match parse_u64(trim_non_digits(s.subrange(a, b))) {
                Some(v) => Some(v),
                None => first_number_from(s, b),
            }
        }
    }
}

/// The longest delay, in seconds, that a hint can ask for.
pub open spec fn max_hint_seconds() -> u64 {
    3600
}

/// The delay, in seconds, that an error message asks for once it is in
/// lower case: the first number in the words that start at the first
/// `retry`, at most an hour.
pub open spec fn spec_retry_delay_from_lowercase(lower: Seq<char>) -> Option<u64> {
    match find_from(lower, retry_word(), 0) {
        None => None,
        Some(i) => match first_number_from(lower, i) {
            None => None,
            Some(v) => Some(if v > max_hint_seconds() { max_hint_seconds() } else { v }),
        },
    }
}

/// What `str::to_lowercase` returns for a string (named; it follows the
/// Unicode case tables).
pub uninterp spec fn lowercase_of(s: Seq<char>) -> Seq<char>;

/// Calls `str::to_lowercase`; the result is named `lowercase_of` of the
/// argument's characters and nothing more is claimed of it.
#[verifier::external_body]
fn to_lowercase(s: &str) -> (r: String)
    ensures
        r@ == lowercase_of(s@),
{
    s.to_lowercase()
}

// ---------------------------------------------------------------------
// Lemmas
// ---------------------------------------------------------------------

proof fn lemma_skip_white_space_ge(s: Seq<char>, p: int)
    ensures
        skip_white_space(s, p) >= p,
        0 <= p ==> skip_white_space(s, p) <= s.len() || skip_white_space(s, p) == p,
    decreases s.len() - p,
{
    if 0 <= p < s.len() && is_white_space(s[p]) {
        lemma_skip_white_space_ge(s, p + 1);
    }
}

proof fn lemma_last_digit_end_le(w: Seq<char>, j: int)
    ensures
        last_digit_end(w, j) <= j,
    decreases j,
{
    if 0 < j <= w.len() && !is_digit(w[j - 1]) {
        lemma_last_digit_end_le(w, j - 1);
    }
}

proof fn lemma_word_end_ge(s: Seq<char>, p: int)
    ensures
        word_end(s, p) >= p,
    decreases s.len() - p,
{
    if 0 <= p < s.len() && !is_white_space(s[p]) {
        lemma_word_end_ge(s, p + 1);
    }
}

proof fn lemma_digits_value_prefix(t: Seq<char>, m: int)
    requires
        0 <= m <= t.len(),
    ensures
        digits_value(t.take(m)) <= digits_value(t),
    decreases t.len(),
{
    if m < t.len() {
        lemma_digits_value_prefix(t.drop_last(), m);
        assert(t.drop_last().take(m) =~= t.take(m));
    } else {
        assert(t.take(m) =~= t);
    }
}

/// From position `i`, the scan for a digit passes only non-digits and
/// stops at a digit or at the end.
proof fn lemma_first_digit_from(w: Seq<char>, i: int)
    requires
        0 <= i <= w.len(),
    ensures
        i <= first_digit_from(w, i) <= w.len(),
        forall|k: int| i <= k < first_digit_from(w, i) ==> !is_digit(#[trigger] w[k]),
        first_digit_from(w, i) < w.len() ==> is_digit(w[first_digit_from(w, i)]),
    decreases w.len() - i,
{
    if i < w.len() && !is_digit(w[i]) {
        lemma_first_digit_from(w, i + 1);
    }
}

/// Going back from `j`, the scan for a digit passes only non-digits and
/// stops after a digit or at the start.
proof fn lemma_last_digit_end(w: Seq<char>, j: int)
    requires
        0 <= j <= w.len(),
    ensures
        0 <= last_digit_end(w, j) <= j,
        forall|k: int| last_digit_end(w, j) <= k < j ==> !is_digit(#[trigger] w[k]),
        last_digit_end(w, j) > 0 ==> is_digit(w[last_digit_end(w, j) - 1]),
    decreases j,
{
    if 0 < j && !is_digit(w[j - 1]) {
        lemma_last_digit_end(w, j - 1);
    }
}

/// Trimming a word of non-digits at both ends leaves the part of the word
/// from its first digit to its last digit: it is empty exactly when the
/// word holds no digit, and otherwise it starts and ends with a digit and
/// only non-digits were dropped before and after it.
pub proof fn lemma_trim_non_digits(w: Seq<char>) -> (ab: (int, int))
    ensures
        0 <= ab.0 <= ab.1 <= w.len(),
        trim_non_digits(w) == w.subrange(ab.0, ab.1),
        forall|k: int| 0 <= k < ab.0 ==> !is_digit(#[trigger] w[k]),
        forall|k: int| ab.1 <= k < w.len() ==> !is_digit(#[trigger] w[k]),
        (exists|k: int| 0 <= k < w.len() && #[trigger] is_digit(w[k])) <==> trim_non_digits(w).len()
            > 0,
        trim_non_digits(w).len() > 0 ==> is_digit(trim_non_digits(w)[0]) && is_digit(
            trim_non_digits(w).last(),
        ),
{
    let a = first_digit_from(w, 0);
    let b = last_digit_end(w, w.len() as int);
    lemma_first_digit_from(w, 0);
    lemma_last_digit_end(w, w.len() as int);
    if a < b {
        assert(is_digit(w[a]));
        (a, b)
    } else {
        assert(trim_non_digits(w) =~= w.subrange(a, a));
        assert forall|k: int| 0 <= k < w.len() implies !is_digit(#[trigger] w[k]) by {
            if k >= a {
                assert(b <= k);
            }
        }
        (a, a)
    }
}

/// A run of digits with non-digits before and after it is trimmed to the
/// digits, and a hint word made of a number followed by non-digits (such
/// as `30s.`) is read as that number.
pub proof fn lemma_trim_number_word(p: Seq<char>, d: Seq<char>, x: Seq<char>)
    requires
        d.len() > 0,
        all_digits(d),
        forall|k: int| 0 <= k < p.len() ==> !is_digit(#[trigger] p[k]),
        forall|k: int| 0 <= k < x.len() ==> !is_digit(#[trigger] x[k]),
    ensures
        trim_non_digits(p + d + x) == d,
        digits_value(d) <= u64::MAX ==> parse_u64(trim_non_digits(p + d + x)) == Some(
            digits_value(d) as u64,
        ),
{
    let w = p + d + x;
    let ab = lemma_trim_non_digits(w);
    let (a, b) = ab;
    assert(w[p.len() as int] == d[0]);
    assert(is_digit(d[0]));
    assert(w[p.len() + d.len() - 1] == d[d.len() - 1]);
    assert(is_digit(d[d.len() - 1]));
    assert(a <= p.len());
    assert(b >= p.len() + d.len());
    let t = trim_non_digits(w);
    if a < p.len() {
        assert(t[0] == w[a]);
        assert(w[a] == p[a]);
    }
    if b > p.len() + d.len() {
        assert(t.last() == w[b - 1]);
        assert(w[b - 1] == x[b - 1 - p.len() - d.len()]);
    }
    assert(t =~= d);
}

/// A word ends at the first white space after it, or at the end.
proof fn lemma_word_end_at(s: Seq<char>, p: int, q: int)
    requires
        0 <= p <= q <= s.len(),
        forall|k: int| p <= k < q ==> !is_white_space(#[trigger] s[k]),
        q == s.len() || is_white_space(s[q]),
    ensures
        word_end(s, p) == q,
    decreases q - p,
{
    if p < q {
        lemma_word_end_at(s, p + 1, q);
    }
}

/// A word that holds no digit is read as no number.
proof fn lemma_no_digit_word(w: Seq<char>)
    requires
        forall|k: int| 0 <= k < w.len() ==> !is_digit(#[trigger] w[k]),
    ensures
        parse_u64(trim_non_digits(w)) is None,
{
    let ab = lemma_trim_non_digits(w);
    if trim_non_digits(w).len() > 0 {
        let k = choose|k: int| 0 <= k < w.len() && #[trigger] is_digit(w[k]);
        assert(is_digit(w[k]));
    }
}

/// A message that says `retry after` and then a number directly followed by
/// non-digits (such as `30s.`) asks for that many seconds, at most an hour.
pub proof fn lemma_retry_after_number(d: Seq<char>, x: Seq<char>, rest: Seq<char>)
    requires
        d.len() > 0,
        all_digits(d),
        digits_value(d) <= u64::MAX,
        forall|k: int| 0 <= k < x.len() ==> !is_digit(#[trigger] x[k]) && !is_white_space(x[k]),
        rest.len() == 0 || is_white_space(rest[0]),
    ensures
        spec_retry_delay_from_lowercase("retry after "@ + d + x + rest) == Some(
            if digits_value(d) > 3600 {
                3600u64
            } else {
                digits_value(d) as u64
            },
        ),
{
    reveal_strlit("retry after ");
    let pre = "retry after "@;
    let s = pre + d + x + rest;
    let n: int = (d.len() + x.len()) as int;
    assert(pre.len() == 12);
    // `retry` occurs at the start.
    assert(s.subrange(0, 5) =~= retry_word());
    assert(occurs_at(s, retry_word(), 0));
    assert(find_from(s, retry_word(), 0) == Some(0int));
    // The words `retry` and `after` hold no number.
    assert(!is_white_space(s[0]));
    assert(skip_white_space(s, 0) == 0);
    assert forall|k: int| 0 <= k < 5 implies !is_white_space(#[trigger] s[k]) by {
        assert(s[k] == pre[k]);
    }
    assert(is_white_space(s[5]));
    lemma_word_end_at(s, 0, 5);
    let w1 = s.subrange(0, 5);
    assert forall|k: int| 0 <= k < w1.len() implies !is_digit(#[trigger] w1[k]) by {
        assert(w1[k] == pre[k]);
    }
    lemma_no_digit_word(w1);
    assert(is_white_space(s[5]));
    assert(!is_white_space(s[6]));
    assert(skip_white_space(s, 6) == 6);
    assert(skip_white_space(s, 5) == 6);
    assert forall|k: int| 6 <= k < 11 implies !is_white_space(#[trigger] s[k]) by {
        assert(s[k] == pre[k]);
    }
    assert(is_white_space(s[11]));
    lemma_word_end_at(s, 6, 11);
    let w2 = s.subrange(6, 11);
    assert forall|k: int| 0 <= k < w2.len() implies !is_digit(#[trigger] w2[k]) by {
        assert(w2[k] == pre[k + 6]);
    }
    lemma_no_digit_word(w2);
    // The number word.
    assert(s[12] == d[0]);
    assert(!is_white_space(s[12]));
    assert(skip_white_space(s, 12) == 12);
    assert(skip_white_space(s, 11) == 12);
    assert forall|k: int| 12 <= k < 12 + n implies !is_white_space(#[trigger] s[k]) by {
        if k < 12 + d.len() {
            assert(s[k] == d[k - 12]);
            assert(is_digit(d[k - 12]));
        } else {
            assert(s[k] == x[k - 12 - d.len()]);
        }
    }
    if rest.len() > 0 {
        assert(s[12 + n] == rest[0]);
    }
    lemma_word_end_at(s, 12, 12 + n);
    let w3 = s.subrange(12, 12 + n);
    assert(w3 =~= Seq::<char>::empty() + d + x);
    lemma_trim_number_word(Seq::<char>::empty(), d, x);
    assert(first_number_from(s, 12) == Some(digits_value(d) as u64));
    assert(first_number_from(s, 11) == Some(digits_value(d) as u64));
    assert(first_number_from(s, 6) == first_number_from(s, 11));
    assert(first_number_from(s, 5) == first_number_from(s, 11));
    assert(first_number_from(s, 0) == first_number_from(s, 5));
}

// ---------------------------------------------------------------------
// Executable parsing
// ---------------------------------------------------------------------

/// The value of the characters `s[a..b]` with non-digits removed at both
/// ends, parsed as a `u64`.
fn parse_trimmed_word(s: &Vec<char>, a: usize, b: usize) -> (r: Option<u64>)
    requires
        a <= b <= s@.len(),
    ensures
        r == parse_u64(trim_non_digits(s@.subrange(a as int, b as int))),
{
    let ghost w = s@.subrange(a as int, b as int);
    let mut st = a;
    while st < b && !(s[st] >= '0' && s[st] <= '9')
        invariant
            a <= st <= b <= s@.len(),
            w == s@.subrange(a as int, b as int),
            first_digit_from(w, 0) == first_digit_from(w, st - a),
        decreases b - st,
    {
        assert(w[st - a] == s@[st as int]);
        st = st + 1;
    }
    if st == b {
        assert(first_digit_from(w, 0) == w.len());
        proof {
            lemma_last_digit_end_le(w, w.len() as int);
        }
        return None;
    }
    assert(w[st - a] == s@[st as int]);
    assert(first_digit_from(w, 0) == st - a);
    let mut en = b;
    while en > st && !(s[en - 1] >= '0' && s[en - 1] <= '9')
        invariant
            a <= st < en <= b <= s@.len(),
            w == s@.subrange(a as int, b as int),
            is_digit(s@[st as int]),
            last_digit_end(w, w.len() as int) == last_digit_end(w, en - a),
        decreases en,
    {
        assert(w[en - 1 - a] == s@[en - 1]);
        en = en - 1;
    }
    if en > st {
        assert(w[en - 1 - a] == s@[en - 1]);
    }
    assert(last_digit_end(w, w.len() as int) == en - a);
    let ghost t = w.subrange(st - a, en - a);
    assert(trim_non_digits(w) == t);
    assert(t =~= s@.subrange(st as int, en as int));
    let mut acc: u64 = 0;
    let mut k = st;
    while k < en
        invariant
            st <= k <= en <= s@.len(),
            t == s@.subrange(st as int, en as int),
            trim_non_digits(s@.subrange(a as int, b as int)) == t,
            all_digits(t.take(k - st)),
            acc as nat == digits_value(t.take(k - st)),
        decreases en - k,
    {
        let c = s[k];
        assert(t[k - st] == c);
        if !(c >= '0' && c <= '9') {
            assert(!all_digits(t));
            return None;
        }
        let d = (c as u32 - '0' as u32) as u64;
        assert(t.take(k + 1 - st).drop_last() =~= t.take(k - st));
        assert(t.take(k + 1 - st).last() == c);
        if acc > (u64::MAX - d) / 10 {
            assert(digits_value(t.take(k + 1 - st)) > u64::MAX) by (nonlinear_arith)
                requires
                    acc > (u64::MAX - d) / 10,
                    digits_value(t.take(k + 1 - st)) == acc * 10 + d,
                    d <= 9,
            ;
            proof {
                lemma_digits_value_prefix(t, k + 1 - st);
            }
            return None;
        }
        acc = acc * 10 + d;
        k = k + 1;
    }
    assert(t.take(en - st) =~= t);
    Some(acc)
}

/// The first position of `retry` in `s`.
fn find_retry(s: &Vec<char>) -> (r: Option<usize>)
    ensures
        match r {
            Some(i) => find_from(s@, retry_word(), 0) == Some(i as int) && i < s@.len(),
            None => find_from(s@, retry_word(), 0) is None,
        },
{
    let n = s.len();
    let ghost pat = retry_word();
    let mut i: usize = 0;
    while i < n && n - i >= 5
        invariant
            n == s@.len(),
            pat == retry_word(),
            find_from(s@, pat, 0) == find_from(s@, pat, i as int),
        decreases n - i,
    {
        if s[i] == 'r' && s[i + 1] == 'e' && s[i + 2] == 't' && s[i + 3] == 'r' && s[i + 4] == 'y' {
            assert(s@.subrange(i as int, i + 5) =~= pat);
            return Some(i);
        }
        assert(!occurs_at(s@, pat, i as int)) by {
            if occurs_at(s@, pat, i as int) {
                assert(s@.subrange(i as int, i + 5)[0] == s@[i as int]);
                assert(s@.subrange(i as int, i + 5)[1] == s@[i + 1]);
                assert(s@.subrange(i as int, i + 5)[2] == s@[i + 2]);
                assert(s@.subrange(i as int, i + 5)[3] == s@[i + 3]);
                assert(s@.subrange(i as int, i + 5)[4] == s@[i + 4]);
            }
        }
        i = i + 1;
    }
    None
}

/// The delay, in seconds, that an error message already in lower case asks
/// for: after the first `retry`, the first whitespace-separated word that,
/// with non-digits stripped from both ends, is a decimal `u64`; capped at
/// 3600 seconds. `None` when there is no `retry` or no such word.
pub fn retry_delay_from_lowercase(lower: &str) -> (r: Option<u64>)
    ensures
        r == spec_retry_delay_from_lowercase(lower@),
{
    let s = chars_of(lower);
    let n = s.len();
    let i = match find_retry(&s) {
        Some(i) => i,
        None => {
            return None;
        },
    };
    let mut p = i;
    loop
        invariant
            n == s@.len(),
            s@ == lower@,
            i <= p <= n,
            find_from(s@, retry_word(), 0) == Some(i as int),
            first_number_from(s@, i as int) == first_number_from(s@, p as int),
        decreases n - p,
    {
        let ghost p0 = p;
        while p < n && white_space(s[p])
            invariant
                n == s@.len(),
                p0 <= p <= n,
                skip_white_space(s@, p0 as int) == skip_white_space(s@, p as int),
            decreases n - p,
        {
            p = p + 1;
        }
        if p >= n {
            return None;
        }
        let a = p;
        let mut b = p;
        while b < n && !white_space(s[b])
            invariant
                n == s@.len(),
                a <= b <= n,
                word_end(s@, a as int) == word_end(s@, b as int),
            decreases n - b,
        {
            b = b + 1;
        }
        assert(skip_white_space(s@, p0 as int) == a);
        assert(word_end(s@, a as int) == b);
        assert(b > a);
        match parse_trimmed_word(&s, a, b) {
            Some(v) => {
                return Some(if v > 3600 { 3600 } else { v });
            },
            None => {
                p = b;
            },
        }
    }
}

/// The delay, in seconds, that an error message asks for: the message is
/// put in lower case and read by `retry_delay_from_lowercase`.
pub fn extract_retry_delay_from_error(error_message: &str) -> (r: Option<u64>)
    ensures
        r == spec_retry_delay_from_lowercase(lowercase_of(error_message@)),
{
    let lower = to_lowercase(error_message);
    retry_delay_from_lowercase(lower.as_str())
}


// ---------------------------------------------------------------------
// Retry configuration and the decisions of the retry loop
// ---------------------------------------------------------------------

/// How often, and until when, a failing operation is tried again.
#[derive(Debug)]
pub struct RetryConfig {
    /// Maximum number of retries after the first attempt.
    pub max_retries: u32,
    /// Token whose cancellation stops further attempts.
    pub abort_signal: Option<CancellationToken>,
}

/// Validates and prepares a retry configuration: the number of retries
/// defaults to 2. A `u32` is never negative, so this always succeeds.
pub fn prepare_retries(max_retries: Option<u32>, abort_signal: Option<CancellationToken>) -> (r:
    Result<RetryConfig, AISDKError>)
    ensures
        r matches Ok(c) && c.max_retries == (match max_retries {
            Some(m) => m,
            None => 2,
        }) && c.abort_signal == abort_signal,
{
    let max = match max_retries {
        Some(m) => m,
        None => 2,
    };
    Ok(RetryConfig { max_retries: max, abort_signal })
}

/// The delay before the first retry when no hint is given, in milliseconds.
pub open spec fn initial_delay_ms() -> u128 {
    100
}

/// The longest delay that a `std::time::Duration` can hold, in whole
/// milliseconds.
pub open spec fn max_duration_ms() -> u128 {
    18_446_744_073_709_551_615_999
}

/// Where a retry loop stands: how many retries it has made and the delay it
/// will wait next when no hint is given.
#[derive(Debug, Clone, Copy, PartialEq, Eq)]
pub struct RetryState {
    /// Retries made so far.
    pub retries: u32,
    /// Next default delay, in milliseconds.
    pub default_delay_ms: u128,
}

/// What a retry loop does after a failed attempt.
#[derive(Debug, Clone, Copy, PartialEq, Eq)]
pub enum RetryDecision {
    /// Stop and report the failure.
    GiveUp,
    /// Wait `delay_ms` milliseconds, then try again from state `next`.
    RetryAfter { delay_ms: u128, next: RetryState },
}

/// The decision after a failed attempt in state `state`, given the delay
/// hint of the failure in milliseconds.
pub open spec fn spec_decision(max_retries: u32, state: RetryState, hint_ms: Option<u64>) -> RetryDecision {
    if state.retries >= max_retries {
        RetryDecision::GiveUp
    } else {
        RetryDecision::RetryAfter {
            delay_ms: match hint_ms {
                Some(h) => h as u128,
                None => state.default_delay_ms,
            },
            next: RetryState {
                retries: (state.retries + 1) as u32,
                default_delay_ms: (state.default_delay_ms * 2) as u128,
            },
        }
    }
}

/// The state of a loop that has retried `k` times.
pub open spec fn state_after(k: nat) -> RetryState {
    RetryState {
        retries: k as u32,
        default_delay_ms: (initial_delay_ms() * pow2(k)) as u128,
    }
}

impl RetryState {
    /// The state before the first attempt: no retries, a default delay of
    /// 100 ms.
    pub fn initial() -> (s: RetryState)
        ensures
            s == state_after(0),
    {
        proof {
            vstd::arithmetic::power2::lemma2_to64();
        }
        RetryState { retries: 0, default_delay_ms: 100 }
    }
}

impl RetryConfig {
    /// The decision after a failed attempt: give up once `max_retries`
    /// retries have been made; otherwise wait for the hinted delay, or the
    /// default delay, which doubles with every retry.
    pub fn decide_after_failure(&self, state: RetryState, hint_ms: Option<u64>) -> (d: RetryDecision)
        requires
            state.retries >= self.max_retries || state.default_delay_ms * 2 <= max_duration_ms(),
        ensures
            d == spec_decision(self.max_retries, state, hint_ms),
    {
        if state.retries >= self.max_retries {
            RetryDecision::GiveUp
        } else {
            let delay_ms = match hint_ms {
                Some(h) => h as u128,
                None => state.default_delay_ms,
            };
            RetryDecision::RetryAfter {
                delay_ms,
                next: RetryState {
                    retries: state.retries + 1,
                    default_delay_ms: state.default_delay_ms * 2,
                },
            }
        }
    }
}

/// The delay that an error asks for, in milliseconds: the `retry_after_ms`
/// of a retryable error, nothing for other errors.
pub fn retry_hint(e: &AISDKError) -> (h: Option<u64>)
    ensures
        h == (match e {
            AISDKError::RetryableError { retry_after_ms, .. } => *retry_after_ms,
            _ => None,
        }),
{
    match e {
        AISDKError::RetryableError { retry_after_ms, .. } => *retry_after_ms,
        _ => None,
    }
}

/// The delay that an error message asks for, in milliseconds.
pub fn retry_hint_from_message(message: &str) -> (h: Option<u64>)
    ensures
        h == (match spec_retry_delay_from_lowercase(lowercase_of(message@)) {
            Some(s) => Some((s * 1000) as u64),
            None => None,
        }),
{
    match extract_retry_delay_from_error(message) {
        Some(secs) => Some(secs * 1000),
        None => None,
    }
}

/// The error that a failed model call with message `message` becomes: a
/// retryable error carrying the delay the message asks for, if it asks for
/// one, and a model error otherwise.
pub fn model_call_error(message: &str) -> (e: AISDKError)
    ensures
        match spec_retry_delay_from_lowercase(lowercase_of(message@)) {
            Some(s) => e matches AISDKError::RetryableError { message: m, retry_after_ms }
                && m@ == message@ && retry_after_ms == Some((s * 1000) as u64),
            None => e matches AISDKError::ModelError { message: m } && m@ == message@,
        },
{
    match retry_hint_from_message(message) {
        Some(ms) => AISDKError::retryable_error_with_delay(message, ms),
        None => AISDKError::model_error(message),
    }
}

/// The state a loop reaches after `k` failed attempts without hints.
pub open spec fn run_state(max_retries: u32, k: nat) -> RetryState
    decreases k,
{
    if k == 0 {
        state_after(0)
    } else {
        match spec_decision(max_retries, run_state(max_retries, (k - 1) as nat), None) {
            RetryDecision::GiveUp => run_state(max_retries, (k - 1) as nat),
            RetryDecision::RetryAfter { next, .. } => next,
        }
    }
}

/// A loop whose attempts all fail retries exactly `max_retries` times: after
/// `k < max_retries` failures it waits `100 * 2^k` milliseconds (when no
/// hint is given) and retries; after `max_retries` failures it gives up.
/// The overflow bound is the one under which the doubled delay stays a
/// valid `Duration`.
pub proof fn lemma_retry_run(max_retries: u32, k: nat)
    requires
        k <= max_retries,
        initial_delay_ms() * pow2(max_retries as nat) <= max_duration_ms(),
    ensures
        run_state(max_retries, k) == state_after(k),
        k < max_retries ==> spec_decision(max_retries, state_after(k), None) == (
        RetryDecision::RetryAfter {
            delay_ms: (initial_delay_ms() * pow2(k)) as u128,
            next: state_after(k + 1),
        }),
        k == max_retries ==> spec_decision(max_retries, state_after(k), None)
            == RetryDecision::GiveUp,
    decreases k,
{
    lemma_pow2_monotone(k, max_retries as nat);
    if k > 0 {
        lemma_retry_run(max_retries, (k - 1) as nat);
        vstd::arithmetic::power2::lemma_pow2_unfold(k);
    }
    if k < max_retries {
        vstd::arithmetic::power2::lemma_pow2_unfold(k + 1);
        lemma_pow2_monotone(k + 1, max_retries as nat);
    }
}

proof fn lemma_pow2_monotone(a: nat, b: nat)
    requires
        a <= b,
    ensures
        pow2(a) <= pow2(b),
    decreases b,
{
    if a < b {
        lemma_pow2_monotone(a, (b - 1) as nat);
        vstd::arithmetic::power2::lemma_pow2_unfold(b);
    }
}

} // verus!
