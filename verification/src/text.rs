//! Character classes, string comparison and decimal conversion helpers.
//!
//! Everything the modules need from strings is built from `vstd`'s
//! character-level primitives, so the whole layer is verified.
use vstd::prelude::*;
use vstd::string::StringSliceAdditionalSpecFns;

verus! {

/// ASCII decimal digit.
pub open spec fn is_digit_c(c: char) -> bool {
    ('0' as u32) <= (c as u32) && (c as u32) <= ('9' as u32)
}

/// ASCII lower-case letter.
pub open spec fn is_lower_c(c: char) -> bool {
    ('a' as u32) <= (c as u32) && (c as u32) <= ('z' as u32)
}

/// ASCII upper-case letter.
pub open spec fn is_upper_c(c: char) -> bool {
    ('A' as u32) <= (c as u32) && (c as u32) <= ('Z' as u32)
}

/// ASCII letter or digit.
pub open spec fn is_alnum_c(c: char) -> bool {
    is_digit_c(c) || is_lower_c(c) || is_upper_c(c)
}

/// Upper-case hexadecimal digit, as in IBC denom hashes.
pub open spec fn is_hex_upper_c(c: char) -> bool {
    is_digit_c(c) || (('A' as u32) <= (c as u32) && (c as u32) <= ('F' as u32))
}

/// Numeric value of a decimal digit character.
pub open spec fn digit_val(c: char) -> nat {
    (c as u32 - '0' as u32) as nat
}

/// The character for a decimal digit value below ten.
pub open spec fn digit_char(d: nat) -> char {
    if d == 0 {
        '0'
    } else if d == 1 {
        '1'
    } else if d == 2 {
        '2'
    } else if d == 3 {
        '3'
    } else if d == 4 {
        '4'
    } else if d == 5 {
        '5'
    } else if d == 6 {
        '6'
    } else if d == 7 {
        '7'
    } else if d == 8 {
        '8'
    } else {
        '9'
    }
}

/// Every character of the sequence is a decimal digit.
pub open spec fn all_digits(s: Seq<char>) -> bool {
    forall|i: int| 0 <= i < s.len() ==> is_digit_c(#[trigger] s[i])
}

/// Value of a sequence of decimal digits, most significant first.
pub open spec fn dec_val(s: Seq<char>) -> nat
    decreases s.len(),
{
    if s.len() == 0 {
        0
    } else {
        dec_val(s.drop_last()) * 10 + digit_val(s.last())
    }
}

/// The canonical decimal representation of a number (no leading zeroes).
pub open spec fn dec_str(n: nat) -> Seq<char>
    decreases n,
{
    if n < 10 {
        seq![digit_char(n)]
    } else {
        dec_str(n / 10).push(digit_char(n % 10))
    }
}

/// Whether a character is a decimal digit; mirrors `is_digit_c`.
pub fn digit_check(c: char) -> (r: bool)
    ensures
        r == is_digit_c(c),
{
    let u = c as u32;
    48 <= u && u <= 57
}

/// Whether a character is an ASCII lower-case letter.
pub fn lower_check(c: char) -> (r: bool)
    ensures
        r == is_lower_c(c),
{
    let u = c as u32;
    97 <= u && u <= 122
}

/// Whether a character is an ASCII letter or digit.
pub fn alnum_check(c: char) -> (r: bool)
    ensures
        r == is_alnum_c(c),
{
    let u = c as u32;
    (48 <= u && u <= 57) || (97 <= u && u <= 122) || (65 <= u && u <= 90)
}

/// Whether a character is an upper-case hexadecimal digit.
pub fn hex_upper_check(c: char) -> (r: bool)
    ensures
        r == is_hex_upper_c(c),
{
    let u = c as u32;
    (48 <= u && u <= 57) || (65 <= u && u <= 70)
}

/// String slice equality by characters.
pub fn str_eq(a: &str, b: &str) -> (r: bool)
    ensures
        r == (a@ == b@),
{
    let alen = a.unicode_len();
    let blen = b.unicode_len();
    if alen != blen {
        assert(a@ != b@) by {
            assert(a@.len() != b@.len());
        }
        return false;
    }
    let mut i: usize = 0;
    while i < alen
        invariant
            alen == a@.len(),
            blen == b@.len(),
            alen == blen,
            i <= alen,
            forall|j: int| 0 <= j < i ==> a@[j] == b@[j],
        decreases alen - i,
    {
        if a.get_char(i) != b.get_char(i) {
            assert(a@ != b@) by {
                assert(a@[i as int] != b@[i as int]);
            }
            return false;
        }
        i += 1;
    }
    proof {
        assert(a@ =~= b@);
    }
    true
}

/// `String` equality by characters.
pub fn string_eq(a: &String, b: &String) -> (r: bool)
    ensures
        r == (a@ == b@),
{
    str_eq(a.as_str(), b.as_str())
}

/// Whether the string contains the character.
pub fn contains_char(s: &str, c: char) -> (r: bool)
    ensures
        r == s@.contains(c),
{
    let n = s.unicode_len();
    let mut i: usize = 0;
    while i < n
        invariant
            n == s@.len(),
            i <= n,
            forall|j: int| 0 <= j < i ==> s@[j] != c,
        decreases n - i,
    {
        if s.get_char(i) == c {
            assert(s@.contains(c)) by {
                assert(s@[i as int] == c);
            }
            return true;
        }
        i += 1;
    }
    assert(!s@.contains(c));
    false
}

/// Index of the first occurrence of the character, if any.
pub fn first_index_of(s: &str, c: char) -> (r: Option<usize>)
    ensures
        match r {
            Some(i) => i < s@.len() && s@[i as int] == c && forall|j: int|
                0 <= j < i ==> s@[j] != c,
            None => !s@.contains(c),
        },
{
    let n = s.unicode_len();
    let mut i: usize = 0;
    while i < n
        invariant
            n == s@.len(),
            i <= n,
            forall|j: int| 0 <= j < i ==> s@[j] != c,
        decreases n - i,
    {
        if s.get_char(i) == c {
            return Some(i);
        }
        i += 1;
    }
    assert(!s@.contains(c));
    None
}

/// Concatenation of two string slices.
pub fn concat2(a: &str, b: &str) -> (r: String)
    ensures
        r@ == a@ + b@,
{
    let mut s = a.to_owned();
    s.append(b);
    s
}

/// Concatenation of three string slices.
pub fn concat3(a: &str, b: &str, c: &str) -> (r: String)
    ensures
        r@ == a@ + b@ + c@,
{
    let mut s = a.to_owned();
    s.append(b);
    s.append(c);
    s
}

/// One-character string for a decimal digit value.
pub fn digit_str(d: u8) -> (r: &'static str)
    requires
        d < 10,
    ensures
        r@ =~= seq![digit_char(d as nat)],
{
    proof {
        reveal_strlit("0");
        reveal_strlit("1");
        reveal_strlit("2");
        reveal_strlit("3");
        reveal_strlit("4");
        reveal_strlit("5");
        reveal_strlit("6");
        reveal_strlit("7");
        reveal_strlit("8");
        reveal_strlit("9");
    }
    match d {
        0 => "0",
        1 => "1",
        2 => "2",
        3 => "3",
        4 => "4",
        5 => "5",
        6 => "6",
        7 => "7",
        8 => "8",
        _ => "9",
    }
}

/// Reversed digit characters of a little-endian digit list.
pub open spec fn rev_digit_chars(ds: Seq<u8>) -> Seq<char>
    decreases ds.len(),
{
    if ds.len() == 0 {
        Seq::empty()
    } else {
        seq![digit_char(ds.last() as nat)] + rev_digit_chars(ds.drop_last())
    }
}

/// Decimal rendering of a `u128`, matching `dec_str`.
pub fn u128_to_dec(n: u128) -> (r: String)
    ensures
        r@ == dec_str(n as nat),
{
    let mut digits: Vec<u8> = Vec::new();
    let mut m = n;
    loop
        invariant_except_break
            dec_str(n as nat) =~= if digits@.len() == 0 {
                dec_str(m as nat)
            } else {
                dec_str(m as nat) + rev_digit_chars(digits@)
            },
            m == 0 ==> n == 0 && digits@.len() == 0,
            forall|i: int| 0 <= i < digits@.len() ==> #[trigger] digits@[i] < 10,
        ensures
            digits@.len() > 0,
            forall|i: int| 0 <= i < digits@.len() ==> #[trigger] digits@[i] < 10,
            dec_str(n as nat) =~= rev_digit_chars(digits@),
        decreases m, (if digits@.len() == 0 { 1int } else { 0int }),
    {
        let d = (m % 10) as u8;
        let m2 = m / 10;
        proof {
            lemma_rev_push(digits@, d);
            if digits@.len() == 0 {
                assert(rev_digit_chars(digits@) =~= Seq::<char>::empty());
            }
            if m > 0 {
                assert(dec_str(n as nat) =~= dec_str(m as nat) + rev_digit_chars(digits@));
                if m2 > 0 {
                    assert(dec_str(m as nat) == dec_str(m as nat / 10).push(digit_char(
                        m as nat % 10,
                    )));
                    assert(dec_str(m2 as nat).push(digit_char(d as nat)) + rev_digit_chars(
                        digits@,
                    ) =~= dec_str(m2 as nat) + (seq![digit_char(d as nat)] + rev_digit_chars(
                        digits@,
                    )));
                } else {
                    assert(dec_str(m as nat) =~= seq![digit_char(d as nat)]);
                }
            } else {
                assert(n == 0 && digits@.len() == 0);
                assert(dec_str(n as nat) =~= seq![digit_char(0)]);
            }
            assert(dec_str(n as nat) =~= if m2 == 0 {
                rev_digit_chars(digits@.push(d))
            } else {
                dec_str(m2 as nat) + rev_digit_chars(digits@.push(d))
            });
        }
        digits.push(d);
        m = m2;
        if m == 0 {
            break;
        }
    }
    proof {
        lemma_rev_digit_chars_len(digits@);
    }
    let mut s = String::new();
    let total = digits.len();
    let mut i = total;
    while i > 0
        invariant
            total == digits@.len(),
            i <= total,
            forall|k: int| 0 <= k < digits@.len() ==> #[trigger] digits@[k] < 10,
            s@ =~= rev_digit_chars(digits@).take(total - i),
            rev_digit_chars(digits@).len() == digits@.len(),
        decreases i,
    {
        proof {
            lemma_rev_digit_chars_index(digits@, i as int - 1);
        }
        i -= 1;
        s.append(digit_str(digits[i]));
        proof {
            assert(s@ =~= rev_digit_chars(digits@).take(total - i));
        }
    }
    proof {
        assert(rev_digit_chars(digits@).take(total as int) =~= rev_digit_chars(digits@));
    }
    s
}

proof fn lemma_rev_push(ds: Seq<u8>, d: u8)
    ensures
        rev_digit_chars(ds.push(d)) =~= seq![digit_char(d as nat)] + rev_digit_chars(ds),
{
    assert(ds.push(d).drop_last() =~= ds);
    assert(ds.push(d).last() == d);
}

/// Length and indexing of `rev_digit_chars`.
proof fn lemma_rev_digit_chars_index(ds: Seq<u8>, i: int)
    requires
        0 <= i < ds.len(),
    ensures
        rev_digit_chars(ds).len() == ds.len(),
        rev_digit_chars(ds)[ds.len() - 1 - i] == digit_char(ds[i] as nat),
    decreases ds.len(),
{
    lemma_rev_digit_chars_len(ds);
    if i == ds.len() - 1 {
    } else {
        lemma_rev_digit_chars_index(ds.drop_last(), i);
        lemma_rev_digit_chars_len(ds.drop_last());
    }
}

proof fn lemma_rev_digit_chars_len(ds: Seq<u8>)
    ensures
        rev_digit_chars(ds).len() == ds.len(),
    decreases ds.len(),
{
    if ds.len() > 0 {
        lemma_rev_digit_chars_len(ds.drop_last());
    }
}

/// A prefix of a digit string never exceeds the whole string's value.
pub proof fn lemma_dec_val_prefix_le(s: Seq<char>, j: int)
    requires
        0 <= j <= s.len(),
    ensures
        dec_val(s.take(j)) <= dec_val(s),
    decreases s.len() - j,
{
    if j == s.len() {
        assert(s.take(j) =~= s);
    } else {
        lemma_dec_val_prefix_le(s, j + 1);
        assert(s.take(j + 1).drop_last() =~= s.take(j));
        assert(dec_val(s.take(j + 1)) == dec_val(s.take(j)) * 10 + digit_val(s.take(j + 1).last()));
    }
}

/// Parse a non-empty all-digit string into a `u128`; `None` when the text is
/// not such a string or the value does not fit.
pub fn dec_to_u128(s: &str) -> (r: Option<u128>)
    ensures
        match r {
            Some(v) => s@.len() > 0 && all_digits(s@) && v as nat == dec_val(s@),
            None => s@.len() == 0 || !all_digits(s@) || dec_val(s@) > u128::MAX,
        },
{
    let n = s.unicode_len();
    if n == 0 {
        return None;
    }
    let mut acc: u128 = 0;
    let mut i: usize = 0;
    while i < n
        invariant
            n == s@.len(),
            i <= n,
            forall|j: int| 0 <= j < i ==> is_digit_c(#[trigger] s@[j]),
            acc as nat == dec_val(s@.take(i as int)),
        decreases n - i,
    {
        let c = s.get_char(i);
        if !digit_check(c) {
            assert(!all_digits(s@));
            return None;
        }
        let d = (c as u32 - 48) as u8;
        let next = match acc.checked_mul(10) {
            Some(m) => m.checked_add(d as u128),
            None => None,
        };
        proof {
            assert(s@.take(i + 1).drop_last() =~= s@.take(i as int));
            assert(dec_val(s@.take(i + 1)) == dec_val(s@.take(i as int)) * 10 + digit_val(
                s@[i as int],
            ));
        }
        match next {
            Some(v) => {
                acc = v;
            },
            None => {
                proof {
                    lemma_dec_val_prefix_le(s@, i + 1);
                }
                return None;
            },
        }
        i += 1;
    }
    proof {
        assert(s@.take(n as int) =~= s@);
    }
    Some(acc)
}

/// Decimal strings are made of digits and `dec_val` inverts `dec_str`.
pub proof fn lemma_dec_str_roundtrip(n: nat)
    ensures
        all_digits(dec_str(n)),
        dec_val(dec_str(n)) == n,
        dec_str(n).len() >= 1,
    decreases n,
{
    if n < 10 {
        assert(dec_str(n) =~= seq![digit_char(n)]);
        assert(dec_val(dec_str(n)) == dec_val(dec_str(n).drop_last()) * 10 + digit_val(
            dec_str(n).last(),
        ));
        assert(dec_str(n).drop_last() =~= Seq::<char>::empty());
    } else {
        lemma_dec_str_roundtrip(n / 10);
        assert(dec_str(n) == dec_str(n / 10).push(digit_char(n % 10)));
        assert(dec_str(n).drop_last() =~= dec_str(n / 10));
        assert(is_digit_c(digit_char(n % 10)));
        assert(forall|i: int|
            0 <= i < dec_str(n).len() ==> is_digit_c(#[trigger] dec_str(n)[i]));
    }
}

/// UTF-8 byte length of a string slice.
pub fn str_byte_len(s: &str) -> (r: usize)
    ensures
        r == vstd::utf8::encode_utf8(s@).len(),
{
    let b = s.as_bytes();
    proof {
        assert(b@ == s.spec_bytes());
    }
    b.len()
}


/// The elements of a byte list rendered as decimal numbers separated by
/// commas, as the host's debug form prints them.
pub open spec fn bytes_debug_inner(s: Seq<u8>) -> Seq<char>
    decreases s.len(),
{
    if s.len() == 0 {
        Seq::empty()
    } else if s.len() == 1 {
        dec_str(s[0] as nat)
    } else {
        bytes_debug_inner(s.drop_last()) + ", "@ + dec_str(s.last() as nat)
    }
}

/// A byte list rendered as the host's debug form: `[1, 2, 3]`.
pub open spec fn bytes_debug_str(s: Seq<u8>) -> Seq<char> {
    "["@ + bytes_debug_inner(s) + "]"@
}

/// Renders a byte list as `[1, 2, 3]`, matching `bytes_debug_str`.
pub fn bytes_debug(v: &[u8]) -> (r: String)
    ensures
        r@ == bytes_debug_str(v@),
{
    let mut s = String::from_str("[");
    proof {
        assert(v@.take(0) =~= Seq::<u8>::empty());
        assert(s@ =~= "["@ + bytes_debug_inner(v@.take(0)));
    }
    let n = v.len();
    let mut i: usize = 0;
    while i < n
        invariant
            n == v@.len(),
            i <= n,
            s@ == "["@ + bytes_debug_inner(v@.take(i as int)),
        decreases n - i,
    {
        proof {
            assert(v@.take(i + 1).drop_last() =~= v@.take(i as int));
            assert(v@.take(i + 1).last() == v@[i as int]);
        }
        if i > 0 {
            s.append(", ");
        }
        let d = u128_to_dec(v[i] as u128);
        s.append(d.as_str());
        proof {
            if i == 0 {
                assert(bytes_debug_inner(v@.take(1)) == dec_str(v@[0] as nat));
                assert(s@ =~= "["@ + bytes_debug_inner(v@.take(i + 1)));
            } else {
                assert(bytes_debug_inner(v@.take(i + 1)) == bytes_debug_inner(v@.take(i as int))
                    + ", "@ + dec_str(v@[i as int] as nat));
                assert(s@ =~= "["@ + bytes_debug_inner(v@.take(i + 1)));
            }
        }
        i += 1;
    }
    proof {
        assert(v@.take(n as int) =~= v@);
    }
    s.append("]");
    proof {
        assert(s@ =~= bytes_debug_str(v@));
    }
    s
}


/// Lexicographic strictly-less on character sequences from position `i` on:
/// byte-comparable key order, a proper prefix sorting first.
pub open spec fn lex_lt_from(a: Seq<char>, b: Seq<char>, i: int) -> bool
    decreases b.len() - i,
{
    if i >= b.len() {
        false
    } else if i >= a.len() {
        true
    } else if (a[i] as u32) < (b[i] as u32) {
        true
    } else if a[i] == b[i] {
        lex_lt_from(a, b, i + 1)
    } else {
        false
    }
}

/// Lexicographic strictly-less on character sequences.
pub open spec fn lex_lt(a: Seq<char>, b: Seq<char>) -> bool {
    lex_lt_from(a, b, 0)
}

/// No sequence sorts before itself.
pub proof fn lemma_lex_irrefl(a: Seq<char>)
    ensures
        !lex_lt(a, a),
{
    lemma_lex_irrefl_from(a, 0);
}

proof fn lemma_lex_irrefl_from(a: Seq<char>, i: int)
    requires
        0 <= i,
    ensures
        !lex_lt_from(a, a, i),
    decreases a.len() - i,
{
    if i < a.len() {
        lemma_lex_irrefl_from(a, i + 1);
    }
}

/// The order is total: of two distinct sequences, one sorts first.
pub proof fn lemma_lex_total(a: Seq<char>, b: Seq<char>)
    ensures
        lex_lt(a, b) || lex_lt(b, a) || a == b,
{
    lemma_lex_total_from(a, b, 0);
}

proof fn lemma_lex_total_from(a: Seq<char>, b: Seq<char>, i: int)
    requires
        0 <= i <= a.len(),
        i <= b.len(),
        forall|j: int| 0 <= j < i ==> a[j] == b[j],
    ensures
        lex_lt_from(a, b, i) || lex_lt_from(b, a, i) || a == b,
    decreases a.len() - i,
{
    if i == a.len() && i == b.len() {
        assert(a =~= b);
    } else if i == b.len() {
        assert(lex_lt_from(b, a, i));
    } else if i == a.len() {
        assert(lex_lt_from(a, b, i));
    } else {
        if (a[i] as u32) < (b[i] as u32) {
        } else if (b[i] as u32) < (a[i] as u32) {
        } else {
            assert(a[i] == b[i]) by {
                vstd::utf8::char_u32_cast(a[i], a[i] as u32);
                vstd::utf8::char_u32_cast(b[i], b[i] as u32);
            }
            lemma_lex_total_from(a, b, i + 1);
        }
    }
}

/// The order is transitive.
pub proof fn lemma_lex_trans(a: Seq<char>, b: Seq<char>, c: Seq<char>)
    requires
        lex_lt(a, b),
        lex_lt(b, c),
    ensures
        lex_lt(a, c),
{
    lemma_lex_trans_from(a, b, c, 0);
}

proof fn lemma_lex_trans_from(a: Seq<char>, b: Seq<char>, c: Seq<char>, i: int)
    requires
        0 <= i,
        lex_lt_from(a, b, i),
        lex_lt_from(b, c, i),
    ensures
        lex_lt_from(a, c, i),
    decreases b.len() - i,
{
    if i >= a.len() {
    } else {
        // a has not ended, so neither has b, nor c
        assert(i < b.len());
        assert(i < c.len());
        if (a[i] as u32) < (b[i] as u32) {
            if (b[i] as u32) < (c[i] as u32) {
            } else {
                assert(b[i] == c[i]);
            }
        } else {
            assert(a[i] == b[i]);
            if (b[i] as u32) < (c[i] as u32) {
            } else {
                assert(b[i] == c[i]);
                lemma_lex_trans_from(a, b, c, i + 1);
            }
        }
    }
}

/// Whether one string sorts strictly before another, as `lex_lt` orders
/// them.
pub fn str_lt(a: &str, b: &str) -> (r: bool)
    ensures
        r == lex_lt(a@, b@),
{
    let alen = a.unicode_len();
    let blen = b.unicode_len();
    let mut i: usize = 0;
    loop
        invariant
            alen == a@.len(),
            blen == b@.len(),
            i <= alen,
            i <= blen,
            lex_lt(a@, b@) == lex_lt_from(a@, b@, i as int),
        decreases alen - i,
    {
        if i == blen {
            return false;
        }
        if i == alen {
            return true;
        }
        let ca = a.get_char(i) as u32;
        let cb = b.get_char(i) as u32;
        if ca < cb {
            return true;
        }
        if cb < ca {
            return false;
        }
        proof {
            assert(a@[i as int] == b@[i as int]) by {
                vstd::utf8::char_u32_cast(a@[i as int], a@[i as int] as u32);
                vstd::utf8::char_u32_cast(b@[i as int], b@[i as int] as u32);
            }
        }
        i += 1;
    }
}

} // verus!
