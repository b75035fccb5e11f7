//! Building text: decimal numerals and appending to strings.
use vstd::prelude::*;

verus! {

/// `String::push` appends one character to the end of the string
/// (std documentation: "Appends the given char to the end of this String").
pub assume_specification[ String::push ](string: &mut String, ch: char)
    ensures
        final(string)@ == old(string)@.push(ch),
;

/// The ASCII digit for a value below ten.
pub open spec fn digit_char(d: nat) -> char {
    if d == 0 { '0' }
    else if d == 1 { '1' }
    else if d == 2 { '2' }
    else if d == 3 { '3' }
    else if d == 4 { '4' }
    else if d == 5 { '5' }
    else if d == 6 { '6' }
    else if d == 7 { '7' }
    else if d == 8 { '8' }
    else { '9' }
}

/// The decimal numeral of `n`: no sign, no leading zeros, `"0"` for zero.
pub open spec fn decimal(n: nat) -> Seq<char>
    decreases n,
{
    if n < 10 {
        seq![digit_char(n)]
    } else {
        decimal(n / 10).push(digit_char(n % 10))
    }
}

/// The value of a character that is an ASCII decimal digit.
pub open spec fn digit_value(c: char) -> nat {
    if '0' <= c <= '9' { (c as nat - '0' as nat) as nat } else { 0 }
}

/// The number that a string of decimal digits denotes.
pub open spec fn decimal_value(s: Seq<char>) -> nat
    decreases s.len(),
{
    if s.len() == 0 {
        0
    } else {
        decimal_value(s.drop_last()) * 10 + digit_value(s.last())
    }
}

fn digit(d: u64) -> (c: char)
    requires
        d < 10,
    ensures
        c == digit_char(d as nat),
{
    if d == 0 { '0' }
    else if d == 1 { '1' }
    else if d == 2 { '2' }
    else if d == 3 { '3' }
    else if d == 4 { '4' }
    else if d == 5 { '5' }
    else if d == 6 { '6' }
    else if d == 7 { '7' }
    else if d == 8 { '8' }
    else { '9' }
}

/// Appends the decimal numeral of `n` to `out`, as `write!(out, "{}", n)` does.
pub fn push_decimal(out: &mut String, n: u64)
    ensures
        final(out)@ == old(out)@ + decimal(n as nat),
    decreases n,
{
    if n >= 10 {
        push_decimal(out, n / 10);
    }
    out.push(digit(n % 10));
    assert(n < 10 ==> decimal(n as nat) == seq![digit_char(n as nat)]);
}

/// The decimal numeral of `n`, as `n.to_string()` gives it.
pub fn decimal_string(n: u64) -> (s: String)
    ensures
        s@ == decimal(n as nat),
{
    let mut s = String::new();
    push_decimal(&mut s, n);
    assert(s@ =~= decimal(n as nat));
    s
}

/// Reading a numeral back gives the number it was written from.
pub proof fn lemma_decimal_round_trip(n: nat)
    ensures
        decimal_value(decimal(n)) == n,
    decreases n,
{
    let d = digit_char(n % 10);
    assert(digit_value(d) == n % 10);
    if n >= 10 {
        lemma_decimal_round_trip(n / 10);
        assert(decimal(n).drop_last() =~= decimal(n / 10));
        assert(decimal(n).last() == d);
    } else {
        assert(decimal(n).drop_last() =~= Seq::<char>::empty());
        assert(decimal(n).last() == d);
        assert(decimal_value(Seq::<char>::empty()) == 0);
    }
}

/// `s` is the decimal numeral of `n` as it is normally written: at least one
/// digit, only decimal digits, no leading zero, and denoting `n`.
pub open spec fn is_numeral_of(s: Seq<char>, n: nat) -> bool {
    &&& s.len() >= 1
    &&& forall|i: int| 0 <= i < s.len() ==> '0' <= #[trigger] s[i] <= '9'
    &&& (s.len() > 1 ==> s[0] != '0')
    &&& decimal_value(s) == n
}

proof fn lemma_decimal_shape(n: nat)
    ensures
        decimal(n).len() >= 1,
        forall|i: int| 0 <= i < decimal(n).len() ==> '0' <= #[trigger] decimal(n)[i] <= '9',
        n >= 1 ==> decimal(n)[0] != '0',
        n >= 10 ==> decimal(n).len() > 1,
        n < 10 ==> decimal(n).len() == 1,
    decreases n,
{
    if n >= 10 {
        lemma_decimal_shape(n / 10);
        let d = decimal(n);
        let p = decimal(n / 10);
        assert forall|i: int| 0 <= i < d.len() implies '0' <= #[trigger] d[i] <= '9' by {
            if i < p.len() {
                assert(d[i] == p[i]);
            }
        }
        assert(d[0] == p[0]);
    }
}

/// The numeral written for a number is its normal decimal numeral.
pub proof fn lemma_decimal_is_numeral(n: nat)
    ensures
        is_numeral_of(decimal(n), n),
{
    lemma_decimal_shape(n);
    lemma_decimal_round_trip(n);
}

/// A character with the Unicode `White_Space` property, which is what
/// `char::is_whitespace` tests.
pub open spec fn is_unicode_whitespace(c: char) -> bool {
    ||| '\u{9}' <= c <= '\u{d}'
    ||| c == ' '
    ||| c == '\u{85}'
    ||| c == '\u{a0}'
    ||| c == '\u{1680}'
    ||| '\u{2000}' <= c <= '\u{200a}'
    ||| c == '\u{2028}'
    ||| c == '\u{2029}'
    ||| c == '\u{202f}'
    ||| c == '\u{205f}'
    ||| c == '\u{3000}'
}

/// The text without its leading whitespace.
pub open spec fn trim_start_text(s: Seq<char>) -> Seq<char>
    decreases s.len(),
{
    if s.len() > 0 && is_unicode_whitespace(s[0]) {
        trim_start_text(s.drop_first())
    } else {
        s
    }
}

/// The text without its trailing whitespace.
pub open spec fn trim_end_text(s: Seq<char>) -> Seq<char>
    decreases s.len(),
{
    if s.len() > 0 && is_unicode_whitespace(s.last()) {
        trim_end_text(s.drop_last())
    } else {
        s
    }
}

/// The text without leading and trailing whitespace.
pub open spec fn trim_text(s: Seq<char>) -> Seq<char> {
    trim_end_text(trim_start_text(s))
}

proof fn lemma_trim_start_cut(s: Seq<char>) -> (i: int)
    ensures
        0 <= i <= s.len(),
        trim_start_text(s) == s.subrange(i, s.len() as int),
        forall|k: int| 0 <= k < i ==> is_unicode_whitespace(#[trigger] s[k]),
        i < s.len() ==> !is_unicode_whitespace(s[i]),
    decreases s.len(),
{
    if s.len() > 0 && is_unicode_whitespace(s[0]) {
        let r = s.drop_first();
        let i = lemma_trim_start_cut(r);
        assert(r.subrange(i, r.len() as int) =~= s.subrange(i + 1, s.len() as int));
        assert forall|k: int| 0 <= k < i + 1 implies is_unicode_whitespace(#[trigger] s[k]) by {
            if k > 0 {
                assert(s[k] == r[k - 1]);
            }
        }
        i + 1
    } else {
        assert(s.subrange(0, s.len() as int) =~= s);
        0
    }
}

proof fn lemma_trim_end_cut(s: Seq<char>) -> (j: int)
    ensures
        0 <= j <= s.len(),
        trim_end_text(s) == s.subrange(0, j),
        forall|k: int| j <= k < s.len() ==> is_unicode_whitespace(#[trigger] s[k]),
        j > 0 ==> !is_unicode_whitespace(s[j - 1]),
    decreases s.len(),
{
    if s.len() > 0 && is_unicode_whitespace(s.last()) {
        let r = s.drop_last();
        let j = lemma_trim_end_cut(r);
        assert(r.subrange(0, j) =~= s.subrange(0, j));
        assert forall|k: int| j <= k < s.len() implies is_unicode_whitespace(#[trigger] s[k]) by {
            if k < r.len() {
                assert(s[k] == r[k]);
            }
        }
        j
    } else {
        assert(s.subrange(0, s.len() as int) =~= s);
        s.len() as int
    }
}

/// Trimming keeps exactly the middle of a text: what it drops before and
/// after is whitespace, and what it keeps neither starts nor ends with
/// whitespace.
pub proof fn lemma_trim_keeps_middle(s: Seq<char>)
    ensures
        exists|i: int, j: int|
            0 <= i <= j <= s.len() && #[trigger] s.subrange(i, j) == trim_text(s)
                && (forall|k: int| 0 <= k < i ==> is_unicode_whitespace(#[trigger] s[k]))
                && (forall|k: int| j <= k < s.len() ==> is_unicode_whitespace(#[trigger] s[k]))
                && (i < j ==> !is_unicode_whitespace(s[i]) && !is_unicode_whitespace(s[j - 1])),
{
    let i = lemma_trim_start_cut(s);
    let t = trim_start_text(s);
    let j0 = lemma_trim_end_cut(t);
    let j = i + j0;
    assert(t.subrange(0, j0) =~= s.subrange(i, j));
    assert forall|k: int| j <= k < s.len() implies is_unicode_whitespace(#[trigger] s[k]) by {
        assert(s[k] == t[k - i]);
    }
    if i < j {
        assert(s[i] == t[0]);
        assert(s[j - 1] == t[j0 - 1]);
    }
    assert(0 <= i <= j <= s.len() && s.subrange(i, j) == trim_text(s));
}

/// Calls std's `str::trim`, which (by its documentation) removes leading and
/// trailing whitespace, whitespace being the characters with the Unicode
/// `White_Space` property.
#[verifier::external_body]
pub(crate) fn trim_str(s: &str) -> (trimmed: &str)
    ensures
        trimmed@ == trim_text(s@),
{
    s.trim()
}

} // verus!
