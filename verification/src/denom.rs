//! Parsing of SDK coin strings: a decimal amount immediately followed by a
//! denom in one of the accepted textual shapes (plain lower-case denom,
//! `ibc/<64 upper-case hex>`, `factory/<creator>/<subdenom>`, and — for the
//! Coreum modules — `<subunit>-<issuer>`).
use vstd::prelude::*;

use crate::errors::ModuleError;
use crate::text::{
    all_digits, alnum_check, dec_str, dec_to_u128, dec_val, digit_check, digit_val, first_index_of,
    hex_upper_check, is_alnum_c, is_digit_c, is_hex_upper_c, is_lower_c, lower_check, u128_to_dec,
};

verus! {

/// An amount of a denom.
#[derive(Debug)]
pub struct Coin {
    pub denom: String,
    pub amount: u128,
}

/// `k` is where the leading run of decimal digits ends.
pub open spec fn is_run_end(s: Seq<char>, k: int) -> bool {
    &&& 0 <= k <= s.len()
    &&& all_digits(s.take(k))
    &&& k == s.len() || !is_digit_c(s[k])
}

/// Where the leading run of decimal digits ends.
pub open spec fn run_end(s: Seq<char>) -> int {
    choose|k: int| is_run_end(s, k)
}

/// The run end exists.
pub proof fn lemma_run_end_exists(s: Seq<char>)
    ensures
        is_run_end(s, run_end(s)),
    decreases s.len(),
{
    if s.len() == 0 {
        assert(s.take(0) =~= Seq::<char>::empty());
        assert(is_run_end(s, 0));
    } else if !is_digit_c(s[0]) {
        assert(s.take(0) =~= Seq::<char>::empty());
        assert(is_run_end(s, 0));
    } else {
        let t = s.skip(1);
        lemma_run_end_exists(t);
        let k = run_end(t);
        assert forall|j: int| 0 <= j < k + 1 implies is_digit_c(#[trigger] s.take(k + 1)[j]) by {
            assert(s.take(k + 1)[j] == s[j]);
            if j > 0 {
                assert(is_digit_c(t.take(k)[j - 1]));
                assert(t.take(k)[j - 1] == s[j]);
            }
        }
        if k + 1 < s.len() {
            assert(s[k + 1] == t[k]);
        }
        assert(is_run_end(s, k + 1));
    }
}

/// The run end is unique.
pub proof fn lemma_run_end_unique(s: Seq<char>, k1: int, k2: int)
    requires
        is_run_end(s, k1),
        is_run_end(s, k2),
    ensures
        k1 == k2,
{
    if k1 < k2 {
        assert(is_digit_c(s.take(k2)[k1]));
    } else if k2 < k1 {
        assert(is_digit_c(s.take(k1)[k2]));
    }
}

/// Plain denom: digits then at least one lower-case letter.
pub open spec fn shape_plain(s: Seq<char>) -> bool {
    let k = run_end(s);
    &&& 1 <= k < s.len()
    &&& forall|j: int| k <= j < s.len() ==> is_lower_c(#[trigger] s[j])
}

/// IBC denom: digits, `ibc/` or `IBC/`, then 64 upper-case hex digits.
pub open spec fn shape_ibc(s: Seq<char>) -> bool {
    let k = run_end(s);
    &&& 1 <= k
    &&& s.len() - k == 68
    &&& (s[k] == 'i' && s[k + 1] == 'b' && s[k + 2] == 'c') || (s[k] == 'I' && s[k + 1] == 'B'
        && s[k + 2] == 'C')
    &&& s[k + 3] == '/'
    &&& forall|j: int| k + 4 <= j < s.len() ==> is_hex_upper_c(#[trigger] s[j])
}

/// Token-factory denom: digits, `factory/`, a creator of lower-case letters
/// and digits, `/`, and an alphanumeric subdenom.
pub open spec fn shape_factory(s: Seq<char>) -> bool {
    let k = run_end(s);
    &&& 1 <= k
    &&& k + 8 <= s.len()
    &&& s[k] == 'f' && s[k + 1] == 'a' && s[k + 2] == 'c' && s[k + 3] == 't' && s[k + 4] == 'o'
        && s[k + 5] == 'r' && s[k + 6] == 'y' && s[k + 7] == '/'
    &&& exists|m: int|
        #![trigger s[m]]
        k + 9 <= m && m + 1 < s.len() && s[m] == '/' && (forall|j: int|
            k + 8 <= j < m ==> is_lower_c(#[trigger] s[j]) || is_digit_c(s[j])) && (forall|j: int|
            m + 1 <= j < s.len() ==> is_alnum_c(#[trigger] s[j]))
}

/// Coreum pair denom: an amount-led subunit of lower-case letters and digits,
/// `-`, and an alphanumeric issuer.
pub open spec fn shape_pair(s: Seq<char>) -> bool {
    &&& run_end(s) >= 1
    &&& exists|m: int|
        #![trigger s[m]]
        2 <= m && m + 1 < s.len() && s[m] == '-' && (forall|j: int|
            0 <= j < m ==> is_lower_c(#[trigger] s[j]) || is_digit_c(s[j])) && (forall|j: int|
            m + 1 <= j < s.len() ==> is_alnum_c(#[trigger] s[j]))
}

/// The shapes the generic token-factory module accepts.
pub open spec fn shape_factory_sdk(s: Seq<char>) -> bool {
    shape_plain(s) || shape_ibc(s) || shape_factory(s)
}

/// The shapes the Coreum modules accept.
pub open spec fn shape_coreum_sdk(s: Seq<char>) -> bool {
    shape_plain(s) || shape_pair(s) || shape_ibc(s) || shape_factory(s)
}

/// The numeric value of the leading digit run.
pub open spec fn sdk_amount_val(s: Seq<char>) -> nat {
    dec_val(s.take(run_end(s)))
}

/// The denom part: everything after as many characters as the amount's
/// canonical decimal rendering has (leading zeroes of the run thus stay in
/// the denom).
pub open spec fn sdk_denom_of(s: Seq<char>) -> Seq<char> {
    s.skip(dec_str(sdk_amount_val(s)).len() as int)
}

spec fn pow10(l: nat) -> nat
    decreases l,
{
    if l == 0 {
        1
    } else {
        10 * pow10((l - 1) as nat)
    }
}

proof fn lemma_dec_val_bound(t: Seq<char>)
    requires
        all_digits(t),
    ensures
        dec_val(t) < pow10(t.len()),
    decreases t.len(),
{
    if t.len() == 0 {
    } else {
        assert forall|j: int| 0 <= j < t.drop_last().len() implies is_digit_c(
            #[trigger] t.drop_last()[j],
        ) by {
            assert(t.drop_last()[j] == t[j]);
        }
        lemma_dec_val_bound(t.drop_last());
        assert(is_digit_c(t.last()));
        assert(digit_val(t.last()) <= 9);
    }
}

proof fn lemma_dec_str_len_bound(n: nat, l: nat)
    requires
        n < pow10(l),
        l >= 1,
    ensures
        dec_str(n).len() <= l,
    decreases l,
{
    if n < 10 {
    } else {
        assert(pow10(l) == 10 * pow10((l - 1) as nat));
        lemma_dec_str_len_bound(n / 10, (l - 1) as nat);
    }
}

/// The canonical rendering of the run's value is no longer than the run.
pub proof fn lemma_dec_len_le_run(s: Seq<char>, k: int)
    requires
        is_run_end(s, k),
        k >= 1,
    ensures
        dec_str(dec_val(s.take(k))).len() <= k,
{
    lemma_dec_val_bound(s.take(k));
    lemma_dec_str_len_bound(dec_val(s.take(k)), k as nat);
}

/// Whether all characters in `[from, to)` are lower-case letters.
fn range_lower(s: &str, from: usize, to: usize) -> (r: bool)
    requires
        from <= to <= s@.len(),
    ensures
        r == forall|j: int| from <= j < to ==> is_lower_c(#[trigger] s@[j]),
{
    let mut i = from;
    while i < to
        invariant
            from <= i <= to <= s@.len(),
            forall|j: int| from <= j < i ==> is_lower_c(#[trigger] s@[j]),
        decreases to - i,
    {
        if !lower_check(s.get_char(i)) {
            return false;
        }
        i += 1;
    }
    true
}

/// Whether all characters in `[from, to)` are letters or digits.
fn range_alnum(s: &str, from: usize, to: usize) -> (r: bool)
    requires
        from <= to <= s@.len(),
    ensures
        r == forall|j: int| from <= j < to ==> is_alnum_c(#[trigger] s@[j]),
{
    let mut i = from;
    while i < to
        invariant
            from <= i <= to <= s@.len(),
            forall|j: int| from <= j < i ==> is_alnum_c(#[trigger] s@[j]),
        decreases to - i,
    {
        if !alnum_check(s.get_char(i)) {
            return false;
        }
        i += 1;
    }
    true
}

/// Whether all characters in `[from, to)` are lower-case letters or digits.
fn range_lowdig(s: &str, from: usize, to: usize) -> (r: bool)
    requires
        from <= to <= s@.len(),
    ensures
        r == forall|j: int|
            from <= j < to ==> is_lower_c(#[trigger] s@[j]) || is_digit_c(s@[j]),
{
    let mut i = from;
    while i < to
        invariant
            from <= i <= to <= s@.len(),
            forall|j: int| from <= j < i ==> is_lower_c(#[trigger] s@[j]) || is_digit_c(s@[j]),
        decreases to - i,
    {
        let c = s.get_char(i);
        if !lower_check(c) && !digit_check(c) {
            return false;
        }
        i += 1;
    }
    true
}

/// Whether all characters in `[from, to)` are upper-case hex digits.
fn range_hex_upper(s: &str, from: usize, to: usize) -> (r: bool)
    requires
        from <= to <= s@.len(),
    ensures
        r == forall|j: int| from <= j < to ==> is_hex_upper_c(#[trigger] s@[j]),
{
    let mut i = from;
    while i < to
        invariant
            from <= i <= to <= s@.len(),
            forall|j: int| from <= j < i ==> is_hex_upper_c(#[trigger] s@[j]),
        decreases to - i,
    {
        if !hex_upper_check(s.get_char(i)) {
            return false;
        }
        i += 1;
    }
    true
}

/// Where the leading digit run of the string ends.
fn find_run_end(s: &str) -> (r: usize)
    ensures
        is_run_end(s@, r as int),
        r as int == run_end(s@),
{
    let n = s.unicode_len();
    let mut i: usize = 0;
    while i < n
        invariant
            n == s@.len(),
            i <= n,
            forall|j: int| 0 <= j < i ==> is_digit_c(#[trigger] s@[j]),
        decreases n - i,
    {
        if !digit_check(s.get_char(i)) {
            proof {
                assert(forall|j: int| 0 <= j < i ==> s@.take(i as int)[j] == s@[j]);
                assert(is_run_end(s@, i as int));
                lemma_run_end_exists(s@);
                lemma_run_end_unique(s@, i as int, run_end(s@));
            }
            return i;
        }
        i += 1;
    }
    proof {
        assert(forall|j: int| 0 <= j < n ==> s@.take(n as int)[j] == s@[j]);
        assert(is_run_end(s@, n as int));
        lemma_run_end_exists(s@);
        lemma_run_end_unique(s@, n as int, run_end(s@));
    }
    n
}

/// Whether the string matches one of the accepted denom shapes; `coreum`
/// additionally admits the `<subunit>-<issuer>` pair shape.
fn matches_shapes(s: &str, k: usize, coreum: bool) -> (r: bool)
    requires
        is_run_end(s@, k as int),
        k as int == run_end(s@),
    ensures
        r == if coreum {
            shape_coreum_sdk(s@)
        } else {
            shape_factory_sdk(s@)
        },
{
    let n = s.unicode_len();
    // plain: digits then lower-case letters
    if k >= 1 && k < n && range_lower(s, k, n) {
        assert(shape_plain(s@));
        return true;
    }
    assert(!shape_plain(s@));
    // ibc
    if k >= 1 && n - k == 68 {
        let c0 = s.get_char(k);
        let c1 = s.get_char(k + 1);
        let c2 = s.get_char(k + 2);
        let c3 = s.get_char(k + 3);
        let tag_ok = (c0 == 'i' && c1 == 'b' && c2 == 'c') || (c0 == 'I' && c1 == 'B' && c2
            == 'C');
        if tag_ok && c3 == '/' && range_hex_upper(s, k + 4, n) {
            assert(shape_ibc(s@));
            return true;
        }
    }
    assert(!shape_ibc(s@));
    // factory
    if k >= 1 && n >= 8 && k <= n - 8 {
        let is_factory_tag = s.get_char(k) == 'f' && s.get_char(k + 1) == 'a' && s.get_char(k + 2)
            == 'c' && s.get_char(k + 3) == 't' && s.get_char(k + 4) == 'o' && s.get_char(k + 5)
            == 'r' && s.get_char(k + 6) == 'y' && s.get_char(k + 7) == '/';
        if is_factory_tag {
            let rest = s.substring_char(k + 8, n);
            proof {
                assert(rest@ =~= s@.subrange(k + 8, n as int));
            }
            match first_index_of(rest, '/') {
                Some(mm) => {
                    let m = k + 8 + mm;
                    proof {
                        assert(s@[m as int] == '/');
                        assert(forall|j: int|
                            k + 8 <= j < m ==> #[trigger] s@[j] == rest@[j - (k + 8)]);
                    }
                    if m > k + 8 && m + 1 < n && range_lowdig(s, k + 8, m) && range_alnum(
                        s,
                        m + 1,
                        n,
                    ) {
                        assert(shape_factory(s@)) by {
                            assert(k + 9 <= m && m + 1 < s@.len() && s@[m as int] == '/');
                        }
                        return true;
                    }
                    proof {
                        if shape_factory(s@) {
                            let m2 = choose|m2: int|
                                #![trigger s@[m2]]
                                k + 9 <= m2 && m2 + 1 < s@.len() && s@[m2] == '/' && (forall|j: int|
                                    k + 8 <= j < m2 ==> is_lower_c(#[trigger] s@[j]) || is_digit_c(
                                        s@[j],
                                    )) && (forall|j: int|
                                    m2 + 1 <= j < s@.len() ==> is_alnum_c(#[trigger] s@[j]));
                            assert(forall|j: int|
                                k + 8 <= j < m2 ==> #[trigger] rest@[j - (k + 8)] == s@[j]);
                            assert(m as int == m2) by {
                                if (m as int) < m2 {
                                    assert(is_lower_c(s@[m as int]) || is_digit_c(s@[m as int]));
                                } else if m2 < m as int {
                                    assert(rest@[m2 - (k + 8)] == '/');
                                }
                            }
                            assert(false);
                        }
                    }
                },
                None => {
                    proof {
                        if shape_factory(s@) {
                            let m2 = choose|m2: int|
                                #![trigger s@[m2]]
                                k + 9 <= m2 && m2 + 1 < s@.len() && s@[m2] == '/' && (forall|j: int|
                                    k + 8 <= j < m2 ==> is_lower_c(#[trigger] s@[j]) || is_digit_c(
                                        s@[j],
                                    )) && (forall|j: int|
                                    m2 + 1 <= j < s@.len() ==> is_alnum_c(#[trigger] s@[j]));
                            assert(rest@[m2 - (k + 8)] == '/');
                            assert(rest@.contains('/'));
                            assert(false);
                        }
                    }
                },
            }
        } else {
            assert(!shape_factory(s@));
        }
    } else {
        assert(!shape_factory(s@));
    }
    // pair (coreum only)
    if coreum && k >= 1 {
        match first_index_of(s, '-') {
            Some(m) => {
                if m >= 2 && m + 1 < n && range_lowdig(s, 0, m) && range_alnum(s, m + 1, n) {
                    assert(shape_pair(s@)) by {
                        assert(2 <= m && m + 1 < s@.len() && s@[m as int] == '-');
                    }
                    return true;
                }
                proof {
                    if shape_pair(s@) {
                        let m2 = choose|m2: int|
                            #![trigger s@[m2]]
                            2 <= m2 && m2 + 1 < s@.len() && s@[m2] == '-' && (forall|j: int|
                                0 <= j < m2 ==> is_lower_c(#[trigger] s@[j]) || is_digit_c(s@[j]))
                                && (forall|j: int|
                                m2 + 1 <= j < s@.len() ==> is_alnum_c(#[trigger] s@[j]));
                        assert(m as int == m2) by {
                            if (m as int) < m2 {
                                assert(is_lower_c(s@[m as int]) || is_digit_c(s@[m as int]));
                            }
                        }
                        assert(false);
                    }
                }
            },
            None => {
                proof {
                    if shape_pair(s@) {
                        let m2 = choose|m2: int|
                            #![trigger s@[m2]]
                            2 <= m2 && m2 + 1 < s@.len() && s@[m2] == '-' && (forall|j: int|
                                0 <= j < m2 ==> is_lower_c(#[trigger] s@[j]) || is_digit_c(s@[j]))
                                && (forall|j: int|
                                m2 + 1 <= j < s@.len() ==> is_alnum_c(#[trigger] s@[j]));
                        assert(s@.contains('-')) by {
                            assert(s@[m2] == '-');
                        }
                        assert(false);
                    }
                }
            },
        }
    } else {
        proof {
            if coreum && shape_pair(s@) {
                assert(run_end(s@) >= 1);
            }
        }
    }
    assert(coreum ==> !shape_pair(s@));
    false
}

/// Parses an SDK coin string accepted by the generic or the Coreum modules.
fn coin_from_sdk_string(s: &str, coreum: bool) -> (r: Result<Coin, ModuleError>)
    ensures
        match r {
            Ok(c) => {
                &&& if coreum {
                    shape_coreum_sdk(s@)
                } else {
                    shape_factory_sdk(s@)
                }
                &&& sdk_amount_val(s@) <= u128::MAX
                &&& c.amount as nat == sdk_amount_val(s@)
                &&& c.denom@ == sdk_denom_of(s@)
            },
            Err(e) => match e {
                ModuleError::InvalidSdkString => !if coreum {
                    shape_coreum_sdk(s@)
                } else {
                    shape_factory_sdk(s@)
                },
                ModuleError::BadAmountString { amount } => {
                    &&& if coreum {
                        shape_coreum_sdk(s@)
                    } else {
                        shape_factory_sdk(s@)
                    }
                    &&& sdk_amount_val(s@) > u128::MAX
                    &&& amount@ == s@.take(run_end(s@))
                },
                _ => false,
            },
        },
{
    let n = s.unicode_len();
    let k = find_run_end(s);
    if !matches_shapes(s, k, coreum) {
        return Err(ModuleError::InvalidSdkString);
    }
    let run = s.substring_char(0, k);
    proof {
        assert(run@ =~= s@.take(k as int));
    }
    let amount = match dec_to_u128(run) {
        Some(v) => v,
        None => {
            proof {
                assert(k >= 1);
                assert(run@.len() > 0);
                assert(all_digits(run@));
            }
            return Err(ModuleError::BadAmountString { amount: run.to_owned() });
        },
    };
    let dec = u128_to_dec(amount);
    let dlen = dec.as_str().unicode_len();
    proof {
        lemma_dec_len_le_run(s@, k as int);
    }
    let denom = s.substring_char(dlen, n);
    proof {
        assert(denom@ =~= s@.skip(dlen as int));
    }
    Ok(Coin { denom: denom.to_owned(), amount })
}

/// Parses the coin strings the generic token-factory module accepts.
pub fn coin_from_sdk_string_factory(s: &str) -> (r: Result<Coin, ModuleError>)
    ensures
        match r {
            Ok(c) => shape_factory_sdk(s@) && sdk_amount_val(s@) <= u128::MAX && c.amount as nat
                == sdk_amount_val(s@) && c.denom@ == sdk_denom_of(s@),
            Err(e) => match e {
                ModuleError::InvalidSdkString => !shape_factory_sdk(s@),
                ModuleError::BadAmountString { amount } => shape_factory_sdk(s@)
                    && sdk_amount_val(s@) > u128::MAX && amount@ == s@.take(run_end(s@)),
                _ => false,
            },
        },
{
    coin_from_sdk_string(s, false)
}

/// Parses the coin strings the Coreum modules accept.
pub fn coin_from_sdk_string_coreum(s: &str) -> (r: Result<Coin, ModuleError>)
    ensures
        match r {
            Ok(c) => shape_coreum_sdk(s@) && sdk_amount_val(s@) <= u128::MAX && c.amount as nat
                == sdk_amount_val(s@) && c.denom@ == sdk_denom_of(s@),
            Err(e) => match e {
                ModuleError::InvalidSdkString => !shape_coreum_sdk(s@),
                ModuleError::BadAmountString { amount } => shape_coreum_sdk(s@)
                    && sdk_amount_val(s@) > u128::MAX && amount@ == s@.take(run_end(s@)),
                _ => false,
            },
        },
{
    coin_from_sdk_string(s, true)
}

} // verus!
