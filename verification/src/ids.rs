//! Job identifiers.
//!
//! A job is named by 128 random bits, shown canonically as the hyphenated
//! lowercase hex string `xxxxxxxx-xxxx-xxxx-xxxx-xxxxxxxxxxxx` (8-4-4-4-12
//! digits).  The formatter and the parser below are verified against each
//! other: parsing accepts exactly the canonical strings, and parsing a
//! formatted identifier gives back the original bits.

use vstd::arithmetic::power2::{
    lemma2_to64, lemma2_to64_rest, lemma_pow2_adds, lemma_pow2_strictly_increases, pow2,
};
use vstd::prelude::*;
use vstd::string::StrSliceExecFns;
use vstd::string::StringExecFns;

verus! {

/// Value of a lowercase hex digit, or 16 when `c` is no such digit.
pub open spec fn hex_val(c: char) -> int {
    if c == '0' { 0 }
    else if c == '1' { 1 }
    else if c == '2' { 2 }
    else if c == '3' { 3 }
    else if c == '4' { 4 }
    else if c == '5' { 5 }
    else if c == '6' { 6 }
    else if c == '7' { 7 }
    else if c == '8' { 8 }
    else if c == '9' { 9 }
    else if c == 'a' { 10 }
    else if c == 'b' { 11 }
    else if c == 'c' { 12 }
    else if c == 'd' { 13 }
    else if c == 'e' { 14 }
    else if c == 'f' { 15 }
    else { 16 }
}

/// Lowercase hex digit of a value below 16.
pub open spec fn hex_char(v: int) -> char {
    if v == 0 { '0' }
    else if v == 1 { '1' }
    else if v == 2 { '2' }
    else if v == 3 { '3' }
    else if v == 4 { '4' }
    else if v == 5 { '5' }
    else if v == 6 { '6' }
    else if v == 7 { '7' }
    else if v == 8 { '8' }
    else if v == 9 { '9' }
    else if v == 10 { 'a' }
    else if v == 11 { 'b' }
    else if v == 12 { 'c' }
    else if v == 13 { 'd' }
    else if v == 14 { 'e' }
    else { 'f' }
}

pub open spec fn is_lower_hex_digit(c: char) -> bool {
    hex_val(c) < 16
}

/// The four positions of the hyphens in a canonical identifier.
pub open spec fn is_hyphen_pos(i: int) -> bool {
    i == 8 || i == 13 || i == 18 || i == 23
}

/// Which of the 32 hex digits stands at (non-hyphen) string position `i`.
pub open spec fn digit_index(i: int) -> int {
    if i < 8 { i }
    else if i < 13 { i - 1 }
    else if i < 18 { i - 2 }
    else if i < 23 { i - 3 }
    else { i - 4 }
}

/// String position of hex digit number `j`.
pub open spec fn digit_pos(j: int) -> int {
    if j < 8 { j }
    else if j < 12 { j + 1 }
    else if j < 16 { j + 2 }
    else if j < 20 { j + 3 }
    else { j + 4 }
}

/// Hex digit number `j` of `n`, counting from the most significant.
pub open spec fn nibble(n: u128, j: int) -> u128 {
    (n >> ((124 - 4 * j) as u128)) & 0xf
}

pub open spec fn id_char(n: u128, i: int) -> char {
    if is_hyphen_pos(i) { '-' } else { hex_char(nibble(n, digit_index(i)) as int) }
}

/// The canonical rendering of the 128-bit identifier `n`.
pub open spec fn id_str_of(n: u128) -> Seq<char> {
    Seq::new(36, |i: int| id_char(n, i))
}

/// Exactly the strings of shape `[0-9a-f]{8}-[0-9a-f]{4}-[0-9a-f]{4}-[0-9a-f]{4}-[0-9a-f]{12}`.
pub open spec fn is_canonical_id(s: Seq<char>) -> bool {
    &&& s.len() == 36
    &&& forall|i: int| 0 <= i < 36 && is_hyphen_pos(i) ==> #[trigger] s[i] == '-'
    &&& forall|i: int| 0 <= i < 36 && !is_hyphen_pos(i) ==> is_lower_hex_digit(#[trigger] s[i])
}

/// Value of the first `k` hex digits of a canonical identifier string.
pub open spec fn digits_val(s: Seq<char>, k: int) -> int
    decreases k,
{
    if k <= 0 { 0 } else { digits_val(s, k - 1) * 16 + hex_val(s[digit_pos(k - 1)]) }
}

/// The 128-bit value a canonical identifier string denotes.
pub open spec fn id_value(s: Seq<char>) -> int {
    digits_val(s, 32)
}

/// Every value below 16 maps to a lowercase hex digit and back to itself.
proof fn lemma_hex_char_val(v: int)
    requires
        0 <= v < 16,
    ensures
        is_lower_hex_digit(hex_char(v)),
        hex_val(hex_char(v)) == v,
{
}

/// `digit_pos` and `digit_index` are inverse bijections between the 32 digit
/// numbers and the 32 non-hyphen positions.
proof fn lemma_digit_maps()
    ensures
        forall|j: int| 0 <= j < 32 ==>
            0 <= #[trigger] digit_pos(j) < 36 && !is_hyphen_pos(digit_pos(j))
                && digit_index(digit_pos(j)) == j,
        forall|i: int| 0 <= i < 36 && !is_hyphen_pos(i) ==>
            0 <= #[trigger] digit_index(i) < 32 && digit_pos(digit_index(i)) == i,
{
}

/// Relies on `uuid::Uuid::new_v4` (read back with `Uuid::as_u128`): 128
/// random bits whose version nibble is 4 and whose variant bits are binary 10.
#[verifier::external_body]
pub fn fresh_id_bits() -> (r: u128)
    ensures
        nibble(r, 12) == 4,
        (r >> 62) & 3 == 2,
{
    uuid::Uuid::new_v4().as_u128()
}

/// The one-character string for a hex value below 16.
fn hex_digit_str(v: u128) -> (r: &'static str)
    requires
        v < 16,
    ensures
        r@ =~= seq![hex_char(v as int)],
{
    let r: &'static str = if v == 0 { "0" }
    else if v == 1 { "1" }
    else if v == 2 { "2" }
    else if v == 3 { "3" }
    else if v == 4 { "4" }
    else if v == 5 { "5" }
    else if v == 6 { "6" }
    else if v == 7 { "7" }
    else if v == 8 { "8" }
    else if v == 9 { "9" }
    else if v == 10 { "a" }
    else if v == 11 { "b" }
    else if v == 12 { "c" }
    else if v == 13 { "d" }
    else if v == 14 { "e" }
    else { "f" };
    proof {
        reveal_strlit("0");
        reveal_strlit("1");
        reveal_strlit("2");
        reveal_strlit("3");
        reveal_strlit("4");
        reveal_strlit("5");
        reveal_strlit("6");
        reveal_strlit("7");
        reveal_strlit("8");
        reveal_strlit("9");
        reveal_strlit("a");
        reveal_strlit("b");
        reveal_strlit("c");
        reveal_strlit("d");
        reveal_strlit("e");
        reveal_strlit("f");
    }
    r
}

/// Value of the char `c` as a lowercase hex digit, or 16 when it is none.
fn hex_nibble_of(c: char) -> (r: u8)
    ensures
        r as int == hex_val(c),
{
    match c {
        '0' => 0,
        '1' => 1,
        '2' => 2,
        '3' => 3,
        '4' => 4,
        '5' => 5,
        '6' => 6,
        '7' => 7,
        '8' => 8,
        '9' => 9,
        'a' => 10,
        'b' => 11,
        'c' => 12,
        'd' => 13,
        'e' => 14,
        'f' => 15,
        _ => 16,
    }
}

/// Renders the 128 bits `n` as the canonical hyphenated lowercase hex string.
pub fn format_id(n: u128) -> (r: String)
    ensures
        r@ == id_str_of(n),
{
    let mut out = String::new();
    let mut i: usize = 0;
    while i < 36
        invariant
            i <= 36,
            out@ =~= id_str_of(n).subrange(0, i as int),
        decreases 36 - i,
    {
        if i == 8 || i == 13 || i == 18 || i == 23 {
            out.append("-");
            proof {
                reveal_strlit("-");
                assert(id_str_of(n)[i as int] == '-');
            }
        } else {
            let j: u128 = if i < 8 { i as u128 }
            else if i < 13 { (i - 1) as u128 }
            else if i < 18 { (i - 2) as u128 }
            else if i < 23 { (i - 3) as u128 }
            else { (i - 4) as u128 };
            let sh: u128 = 124 - 4 * j;
            let v: u128 = (n >> sh) & 0xf;
            proof {
                assert((n >> sh) & 0xf < 16) by (bit_vector);
                assert(j == digit_index(i as int));
                assert(v == nibble(n, digit_index(i as int)));
            }
            let d = hex_digit_str(v);
            out.append(d);
            proof {
                assert(id_str_of(n)[i as int] == hex_char(v as int));
            }
        }
        i = i + 1;
        proof {
            assert(out@ =~= id_str_of(n).subrange(0, i as int));
        }
    }
    proof {
        assert(out@ =~= id_str_of(n));
    }
    out
}

/// Parses a canonical hyphenated lowercase hex identifier; returns the 128-bit
/// value for exactly the well-formed strings and `None` for every other.
pub fn parse_id(s: &str) -> (r: Option<u128>)
    ensures
        r is Some <==> is_canonical_id(s@),
        r matches Some(v) ==> v as int == id_value(s@),
{
    let len = s.unicode_len();
    if len != 36 {
        return None;
    }
    if s.get_char(8) != '-' || s.get_char(13) != '-' || s.get_char(18) != '-'
        || s.get_char(23) != '-' {
        return None;
    }
    proof {
        lemma2_to64();
    }
    let mut acc: u128 = 0;
    let mut j: usize = 0;
    while j < 32
        invariant
            j <= 32,
            s@.len() == 36,
            s@[8] == '-' && s@[13] == '-' && s@[18] == '-' && s@[23] == '-',
            forall|t: int| 0 <= t < j ==> is_lower_hex_digit(#[trigger] s@[digit_pos(t)]),
            acc as int == digits_val(s@, j as int),
            acc < pow2((4 * j) as nat),
        decreases 32 - j,
    {
        let pos: usize = if j < 8 { j }
        else if j < 12 { j + 1 }
        else if j < 16 { j + 2 }
        else if j < 20 { j + 3 }
        else { j + 4 };
        proof {
            assert(pos as int == digit_pos(j as int));
            assert(!is_hyphen_pos(pos as int));
        }
        let c = s.get_char(pos);
        let v: u8 = hex_nibble_of(c);
        if v >= 16 {
            proof {
                assert(!is_lower_hex_digit(s@[pos as int]));
                assert(!is_canonical_id(s@));
            }
            return None;
        }
        let w: u128 = v as u128;
        proof {
            lemma_pow2_bound(j as nat);
            assert(acc < 0x10000000000000000000000000000000u128);
            assert(((acc << 4) | w) == acc * 16 + w) by (bit_vector)
                requires
                    acc < 0x10000000000000000000000000000000u128,
                    w < 16,
            ;
            lemma_pow2_adds((4 * j) as nat, 4);
            lemma2_to64();
            assert(acc * 16 + w < pow2((4 * j + 4) as nat));
        }
        acc = (acc << 4) | w;
        j = j + 1;
    }
    proof {
        lemma_digit_maps();
        assert forall|i: int| 0 <= i < 36 && !is_hyphen_pos(i)
            implies is_lower_hex_digit(s@[i]) by {
            assert(s@[digit_pos(digit_index(i))] == s@[i]);
        }
        assert(is_canonical_id(s@));
    }
    Some(acc)
}

/// `pow2(4 j) <= pow2(124)` for every digit count `j` of the loop above.
proof fn lemma_pow2_bound(j: nat)
    requires
        j < 32,
    ensures
        pow2(4 * j) <= 0x10000000000000000000000000000000u128,
{
    lemma2_to64();
    lemma2_to64_rest();
    lemma_pow2_adds(64, 60);
    assert(pow2(64) * pow2(60) == 0x10000000000000000000000000000000) by (nonlinear_arith)
        requires
            pow2(64) == 0x10000000000000000nat,
            pow2(60) == 0x1000000000000000nat,
    ;
    if 4 * j < 124 {
        lemma_pow2_strictly_increases(4 * j, 124);
    }
}

/// True exactly on the well-formed (canonical) identifier strings.
pub fn is_well_formed_id(s: &str) -> (r: bool)
    ensures
        r == is_canonical_id(s@),
{
    parse_id(s).is_some()
}

/// The first `k` digits of a rendered identifier read back as the top
/// `4 k` bits of the identifier.
proof fn lemma_prefix_val(n: u128, k: int)
    requires
        1 <= k <= 32,
    ensures
        digits_val(id_str_of(n), k) == (n >> ((128 - 4 * k) as u128)) as int,
    decreases k,
{
    let s = id_str_of(n);
    lemma_digit_maps();
    let p = digit_pos(k - 1);
    assert(s[p] == id_char(n, p));
    assert(digit_index(p) == k - 1);
    let sh: u128 = (124 - 4 * (k - 1)) as u128;
    assert((n >> sh) & 0xf < 16) by (bit_vector);
    lemma_hex_char_val((nibble(n, k - 1)) as int);
    assert(hex_val(s[p]) == nibble(n, k - 1) as int);
    if k == 1 {
        assert(digits_val(s, 0) == 0);
        assert(digits_val(s, 1) == hex_val(s[digit_pos(0)]));
        assert(sh == 124);
        assert((n >> 124u128) & 0xf == n >> 124u128) by (bit_vector);
        assert((124 - 4 * (1 - 1)) as u128 == (128 - 4 * 1) as u128);
    } else {
        lemma_prefix_val(n, k - 1);
        let s1: u128 = (128 - 4 * (k - 1)) as u128;
        let s2: u128 = (128 - 4 * k) as u128;
        assert(digits_val(s, k) == digits_val(s, k - 1) * 16 + hex_val(s[p]));
        assert(sh == s2);
        assert((n >> s1) * 16 + ((n >> s2) & 0xf) == n >> s2) by (bit_vector)
            requires
                s1 == s2 + 4,
                s2 <= 120,
        ;
    }
}

/// Round trip: rendering an identifier gives a well-formed string, and
/// parsing that string gives back the same 128-bit value.
pub proof fn lemma_id_round_trip(n: u128)
    ensures
        is_canonical_id(id_str_of(n)),
        id_value(id_str_of(n)) == n,
{
    let s = id_str_of(n);
    lemma_digit_maps();
    assert forall|i: int| 0 <= i < 36 && !is_hyphen_pos(i)
        implies is_lower_hex_digit(s[i]) by {
        let j = digit_index(i);
        let sh: u128 = (124 - 4 * j) as u128;
        assert((n >> sh) & 0xf < 16) by (bit_vector);
        lemma_hex_char_val(nibble(n, j) as int);
    }
    assert(is_canonical_id(s));
    lemma_prefix_val(n, 32);
    assert(n >> 0u128 == n) by (bit_vector);
}

} // verus!
