//! User ids: the 128-bit UUIDs that Keycloak puts in the `sub` claim, in
//! their textual forms.
use vstd::prelude::*;
use crate::text::digit_char;

verus! {

/// Sixteen to the power `n`.
pub open spec fn pow16(n: nat) -> nat
    decreases n,
{
    if n == 0 { 1 } else { 16 * pow16((n - 1) as nat) }
}

/// The lower-case hexadecimal digit for a value below sixteen.
pub open spec fn hex_digit_char(d: nat) -> char {
    if d < 10 { digit_char(d) }
    else if d == 10 { 'a' }
    else if d == 11 { 'b' }
    else if d == 12 { 'c' }
    else if d == 13 { 'd' }
    else if d == 14 { 'e' }
    else { 'f' }
}

/// The last `width` hexadecimal digits of `v`, zero-padded, in lower case.
pub open spec fn fixed_hex(v: nat, width: nat) -> Seq<char>
    decreases width,
{
    if width == 0 {
        Seq::empty()
    } else {
        fixed_hex(v / 16, (width - 1) as nat).push(hex_digit_char(v % 16))
    }
}

/// The hyphenated lower-case text of a UUID, `xxxxxxxx-xxxx-xxxx-xxxx-xxxxxxxxxxxx`,
/// which is what `Uuid`'s `Display` writes: its 32 hexadecimal digits, most
/// significant first, in groups of 8, 4, 4, 4 and 12.
pub open spec fn user_id_text(id: u128) -> Seq<char> {
    let (low, mid, version, clock, node) = user_id_groups(id);
    fixed_hex(low, 8) + seq!['-'] + fixed_hex(mid, 4) + seq!['-'] + fixed_hex(version, 4)
        + seq!['-'] + fixed_hex(clock, 4) + seq!['-'] + fixed_hex(node, 12)
}

/// A hexadecimal digit, in either case.
pub open spec fn is_hex_char(c: char) -> bool {
    ('0' <= c <= '9') || ('a' <= c <= 'f') || ('A' <= c <= 'F')
}

/// The value of a hexadecimal digit.
pub open spec fn hex_char_value(c: char) -> nat {
    if '0' <= c <= '9' {
        (c as nat - '0' as nat) as nat
    } else if 'a' <= c <= 'f' {
        (c as nat - 'a' as nat + 10) as nat
    } else if 'A' <= c <= 'F' {
        (c as nat - 'A' as nat + 10) as nat
    } else {
        0
    }
}

/// The number that a string of hexadecimal digits denotes, most significant first.
pub open spec fn hex_value(s: Seq<char>) -> nat
    decreases s.len(),
{
    if s.len() == 0 {
        0
    } else {
        hex_value(s.drop_last()) * 16 + hex_char_value(s.last())
    }
}

pub open spec fn all_hex(s: Seq<char>) -> bool {
    forall|i: int| 0 <= i < s.len() ==> is_hex_char(#[trigger] s[i])
}

/// The 32 digit characters of a hyphenated UUID text (hyphens after the 8th,
/// 12th, 16th and 20th digit), or `None` where the shape does not fit.
pub open spec fn hyphenated_digits(s: Seq<char>) -> Option<Seq<char>> {
    if s.len() == 36 && s[8] == '-' && s[13] == '-' && s[18] == '-' && s[23] == '-' {
        Some(s.subrange(0, 8) + s.subrange(9, 13) + s.subrange(14, 18) + s.subrange(19, 23)
            + s.subrange(24, 36))
    } else {
        None
    }
}

/// ASCII lower-casing of one character.
pub open spec fn ascii_lower(c: char) -> char {
    if 'A' <= c <= 'Z' { (c as u32 + 32) as char } else { c }
}

pub open spec fn is_urn_prefix(s: Seq<char>) -> bool {
    &&& s.len() == 9
    &&& ascii_lower(s[0]) == 'u' && ascii_lower(s[1]) == 'r' && ascii_lower(s[2]) == 'n'
    &&& s[3] == ':'
    &&& ascii_lower(s[4]) == 'u' && ascii_lower(s[5]) == 'u' && ascii_lower(s[6]) == 'i'
    &&& ascii_lower(s[7]) == 'd'
    &&& s[8] == ':'
}

/// The digit characters of a UUID text in one of the four forms that
/// `Uuid::parse_str` reads: simple (32 digits), hyphenated, braced
/// (`{hyphenated}`) and URN (`urn:uuid:hyphenated`, prefix in any case).
pub open spec fn uuid_digits(s: Seq<char>) -> Option<Seq<char>> {
    if s.len() == 32 {
        Some(s)
    } else if s.len() == 36 {
        hyphenated_digits(s)
    } else if s.len() == 38 && s[0] == '{' && s[37] == '}' {
        hyphenated_digits(s.subrange(1, 37))
    } else if s.len() == 45 && is_urn_prefix(s.subrange(0, 9)) {
        hyphenated_digits(s.subrange(9, 45))
    } else {
        None
    }
}

/// What `Uuid::parse_str` gives for a text, as the UUID's 128-bit value
/// (`Uuid::as_u128`): the digits read as one big-endian hexadecimal number
/// when the text has one of the four forms and all 32 digits are hexadecimal.
pub open spec fn uuid_parse(s: Seq<char>) -> Option<u128> {
    match uuid_digits(s) {
        Some(d) => if all_hex(d) { Some(hex_value(d) as u128) } else { None },
        None => None,
    }
}

/// Calls `uuid::Uuid::parse_str` and hands back the parsed UUID as its
/// 128-bit big-endian value (`as_u128`). The contract restates the formats
/// that the crate's parser (`try_parse` in `parser.rs`) accepts: a UUID text
/// of 32 hexadecimal digits, optionally hyphenated 8-4-4-4-12, and then
/// optionally in braces or behind a case-insensitive `urn:uuid:` prefix;
/// every other text is an error.
#[verifier::external_body]
pub(crate) fn parse_uuid(text: &str) -> (id: Option<u128>)
    ensures
        id == uuid_parse(text@),
{
    match uuid::Uuid::parse_str(text) {
        Ok(uuid) => Some(uuid.as_u128()),
        Err(_) => None,
    }
}

proof fn lemma_hex_digit_value(d: nat)
    requires
        d < 16,
    ensures
        is_hex_char(hex_digit_char(d)),
        hex_char_value(hex_digit_char(d)) == d,
{
}

proof fn lemma_fixed_hex_shape(v: nat, width: nat)
    ensures
        fixed_hex(v, width).len() == width,
        all_hex(fixed_hex(v, width)),
    decreases width,
{
    if width > 0 {
        lemma_fixed_hex_shape(v / 16, (width - 1) as nat);
        lemma_hex_digit_value(v % 16);
        let f = fixed_hex(v, width);
        let g = fixed_hex(v / 16, (width - 1) as nat);
        assert forall|i: int| 0 <= i < f.len() implies is_hex_char(#[trigger] f[i]) by {
            if i < g.len() {
                assert(f[i] == g[i]);
            }
        }
    }
}

proof fn lemma_mod_step(v: nat, p: nat)
    requires
        p > 0,
    ensures
        ((v / 16) % p) * 16 + v % 16 == v % (16 * p),
{
    let q = v / 16;
    let r = v % 16;
    assert(v == 16 * q + r);
    assert(q == p * (q / p) + q % p) by (nonlinear_arith)
        requires
            p > 0,
    ;
    let k = q / p;
    let m = q % p;
    assert(0 <= m < p) by (nonlinear_arith)
        requires
            p > 0,
            m == q % p,
    ;
    assert(v == (16 * p) * k + (16 * m + r)) by (nonlinear_arith)
        requires
            v == 16 * q + r,
            q == p * k + m,
    ;
    assert(0 <= 16 * m + r < 16 * p) by (nonlinear_arith)
        requires
            0 <= m < p,
            0 <= r < 16,
    ;
    vstd::arithmetic::div_mod::lemma_fundamental_div_mod_converse(
        v as int,
        (16 * p) as int,
        k as int,
        (16 * m + r) as int,
    );
}

proof fn lemma_pow16_positive(n: nat)
    ensures
        pow16(n) > 0,
    decreases n,
{
    if n > 0 {
        lemma_pow16_positive((n - 1) as nat);
    }
}

proof fn lemma_hex_value_of_fixed_hex(v: nat, width: nat)
    ensures
        hex_value(fixed_hex(v, width)) == v % pow16(width),
    decreases width,
{
    if width == 0 {
        assert(v % 1 == 0);
    } else {
        let w1 = (width - 1) as nat;
        lemma_hex_value_of_fixed_hex(v / 16, w1);
        lemma_hex_digit_value(v % 16);
        lemma_pow16_positive(w1);
        let f = fixed_hex(v, width);
        assert(f.drop_last() =~= fixed_hex(v / 16, w1));
        lemma_mod_step(v, pow16(w1));
    }
}

proof fn lemma_hex_value_concat(a: Seq<char>, b: Seq<char>)
    ensures
        hex_value(a + b) == hex_value(a) * pow16(b.len()) + hex_value(b),
    decreases b.len(),
{
    if b.len() == 0 {
        assert(a + b =~= a);
        assert(hex_value(a) * 1 == hex_value(a));
    } else {
        let b1 = b.drop_last();
        lemma_hex_value_concat(a, b1);
        assert((a + b).drop_last() =~= a + b1);
        assert((a + b).last() == b.last());
        let x = hex_value(a);
        let p = pow16(b1.len());
        assert(pow16(b.len()) == 16 * p);
        assert((x * p + hex_value(b1)) * 16 == x * (16 * p) + hex_value(b1) * 16) by (nonlinear_arith);
        assert(hex_value(a + b) == hex_value(a + b1) * 16 + hex_char_value(b.last()));
        assert(hex_value(b) == hex_value(b1) * 16 + hex_char_value(b.last()));
    }
}

/// The five groups of a UUID's digits, as numbers: 8, 4, 4, 4 and 12
/// hexadecimal digits, most significant first.
pub open spec fn user_id_groups(id: u128) -> (nat, nat, nat, nat, nat) {
    let node = id as nat % 0x1_0000_0000_0000;
    let a = id as nat / 0x1_0000_0000_0000;
    let clock = a % 0x1_0000;
    let b = a / 0x1_0000;
    let version = b % 0x1_0000;
    let c = b / 0x1_0000;
    let mid = c % 0x1_0000;
    let low = c / 0x1_0000;
    (low, mid, version, clock, node)
}

/// The 32 digits of a UUID's text, without the hyphens.
pub open spec fn user_id_digits(id: u128) -> Seq<char> {
    let (low, mid, version, clock, node) = user_id_groups(id);
    fixed_hex(low, 8) + fixed_hex(mid, 4) + fixed_hex(version, 4) + fixed_hex(clock, 4)
        + fixed_hex(node, 12)
}

proof fn lemma_user_id_text_layout(id: u128)
    ensures
        hyphenated_digits(user_id_text(id)) == Some(user_id_digits(id)),
        all_hex(user_id_digits(id)),
{
    let (low, mid, version, clock, node) = user_id_groups(id);
    let f1 = fixed_hex(low, 8);
    let f2 = fixed_hex(mid, 4);
    let f3 = fixed_hex(version, 4);
    let f4 = fixed_hex(clock, 4);
    let f5 = fixed_hex(node, 12);
    lemma_fixed_hex_shape(low, 8);
    lemma_fixed_hex_shape(mid, 4);
    lemma_fixed_hex_shape(version, 4);
    lemma_fixed_hex_shape(clock, 4);
    lemma_fixed_hex_shape(node, 12);
    let t = user_id_text(id);
    let dash = seq!['-'];
    assert(t == f1 + dash + f2 + dash + f3 + dash + f4 + dash + f5);
    assert(t.len() == 36);
    assert(t[8] == '-');
    assert(t[13] == '-');
    assert(t[18] == '-');
    assert(t[23] == '-');
    let d = user_id_digits(id);
    assert(t.subrange(0, 8) =~= f1);
    assert(t.subrange(9, 13) =~= f2);
    assert(t.subrange(14, 18) =~= f3);
    assert(t.subrange(19, 23) =~= f4);
    assert(t.subrange(24, 36) =~= f5);
    assert(hyphenated_digits(t) == Some(d));
    assert forall|i: int| 0 <= i < d.len() implies is_hex_char(#[trigger] d[i]) by {
        if i < 8 {
            assert(d[i] == f1[i]);
        } else if i < 12 {
            assert(d[i] == f2[i - 8]);
        } else if i < 16 {
            assert(d[i] == f3[i - 12]);
        } else if i < 20 {
            assert(d[i] == f4[i - 16]);
        } else {
            assert(d[i] == f5[i - 20]);
        }
    }
}

proof fn lemma_user_id_digits_value(id: u128)
    ensures
        hex_value(user_id_digits(id)) == id,
{
    let (low, mid, version, clock, node) = user_id_groups(id);
    let f1 = fixed_hex(low, 8);
    let f2 = fixed_hex(mid, 4);
    let f3 = fixed_hex(version, 4);
    let f4 = fixed_hex(clock, 4);
    let f5 = fixed_hex(node, 12);
    lemma_fixed_hex_shape(mid, 4);
    lemma_fixed_hex_shape(version, 4);
    lemma_fixed_hex_shape(clock, 4);
    lemma_fixed_hex_shape(node, 12);
    assert(pow16(4) == 0x1_0000 && pow16(8) == 0x1_0000_0000 && pow16(12) == 0x1_0000_0000_0000)
        by {
        reveal_with_fuel(pow16, 13);
    }
    lemma_hex_value_of_fixed_hex(low, 8);
    lemma_hex_value_of_fixed_hex(mid, 4);
    lemma_hex_value_of_fixed_hex(version, 4);
    lemma_hex_value_of_fixed_hex(clock, 4);
    lemma_hex_value_of_fixed_hex(node, 12);
    lemma_hex_value_concat(f1, f2);
    lemma_hex_value_concat(f1 + f2, f3);
    lemma_hex_value_concat(f1 + f2 + f3, f4);
    lemma_hex_value_concat(f1 + f2 + f3 + f4, f5);
    let a = id as nat / 0x1_0000_0000_0000;
    let b = a / 0x1_0000;
    let c = b / 0x1_0000;
    assert(c < 0x1_0000_0000_0000);
    assert(low < 0x1_0000_0000);
    assert(low % 0x1_0000_0000 == low);
    assert(mid % 0x1_0000 == mid);
    assert(version % 0x1_0000 == version);
    assert(clock % 0x1_0000 == clock);
    assert(node % 0x1_0000_0000_0000 == node);
}

/// The hyphenated text of a user id reads back, through `Uuid::parse_str`, as
/// the same user id.
pub proof fn lemma_user_id_text_round_trip(id: u128)
    ensures
        uuid_parse(user_id_text(id)) == Some(id),
{
    lemma_user_id_text_layout(id);
    lemma_user_id_digits_value(id);
    assert(user_id_text(id).len() == 36);
}

/// Calls `uuid::Uuid::from_u128(id).hyphenated().to_string()`. The contract
/// restates the hyphenated form that the crate's `LowerHex` formatting
/// (`fmt.rs`) writes: the 32 lower-case hexadecimal digits of the UUID's
/// big-endian bytes, grouped 8-4-4-4-12 and joined by hyphens.
#[verifier::external_body]
pub(crate) fn hyphenated_uuid(id: u128) -> (text: String)
    ensures
        text@ == user_id_text(id),
{
    uuid::Uuid::from_u128(id).hyphenated().to_string()
}

} // verus!
