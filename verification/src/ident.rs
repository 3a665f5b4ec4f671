//! Identifiers of the rendezvous registry.
//!
//! A registry identifier is the canonical decimal string (no leading zeros)
//! of a number below [`crate::ID_KEYSPACE`].  This module holds the
//! specification of that form and the verified conversion between the
//! numeric key and the string that travels over the wire.

use vstd::prelude::*;

verus! {

use crate::ID_KEYSPACE;

/// The character is a decimal digit.
pub open spec fn is_digit_char(c: char) -> bool {
    '0' <= c && c <= '9'
}

/// Numeric value of a digit character.
pub open spec fn digit_val(c: char) -> int {
    c as int - '0' as int
}

/// Every character of the sequence is a decimal digit.
pub open spec fn all_digits(s: Seq<char>) -> bool {
    forall|i: int| 0 <= i < s.len() ==> is_digit_char(#[trigger] s[i])
}

/// Value of a digit sequence read as a decimal numeral.
pub open spec fn str_val(s: Seq<char>) -> int
    decreases s.len(),
{
    if s.len() == 0 {
        0
    } else {
        str_val(s.drop_last()) * 10 + digit_val(s.last())
    }
}

/// The sequence is a canonical decimal numeral: nonempty, digits only,
/// and no leading zero (except for `"0"` itself).
pub open spec fn is_canonical_dec(s: Seq<char>) -> bool {
    &&& s.len() > 0
    &&& all_digits(s)
    &&& (s.len() == 1 || s[0] != '0')
}

/// The string is a well-formed registry identifier: the canonical decimal
/// form of a number inside the keyspace.
pub open spec fn is_valid_id(s: Seq<char>) -> bool {
    &&& is_canonical_dec(s)
    &&& 0 <= str_val(s) < ID_KEYSPACE
}

/// `10^k` (and `1` for non-positive `k`).
pub open spec fn pow10(k: int) -> int
    decreases k,
{
    if k <= 0 {
        1
    } else {
        10 * pow10(k - 1)
    }
}

/// A digit sequence of length `n` reads as a value below `10^n`.
pub proof fn lemma_str_val_upper(s: Seq<char>)
    requires
        all_digits(s),
    ensures
        str_val(s) < pow10(s.len() as int),
    decreases s.len(),
{
    if s.len() > 0 {
        assert(all_digits(s.drop_last())) by {
            assert(forall|i: int|
                0 <= i < s.drop_last().len() ==> #[trigger] s.drop_last()[i] == s[i]);
        }
        lemma_str_val_upper(s.drop_last());
        assert(is_digit_char(s.last()));
        assert(str_val(s.drop_last()) <= pow10(s.len() - 1) - 1);
        assert(str_val(s.drop_last()) * 10 <= (pow10(s.len() - 1) - 1) * 10)
            by (nonlinear_arith)
            requires str_val(s.drop_last()) <= pow10(s.len() - 1) - 1,
        ;
    }
}

/// A canonical numeral of length `n` reads as a value of at least `10^(n-1)`.
pub proof fn lemma_canonical_lower(s: Seq<char>)
    requires
        all_digits(s),
        s.len() > 0,
        s[0] != '0',
    ensures
        str_val(s) >= pow10(s.len() - 1),
    decreases s.len(),
{
    if s.len() == 1 {
        assert(is_digit_char(s[0]));
        assert(s.last() == s[0]);
        assert(str_val(s.drop_last()) == 0);
    } else {
        let d = s.drop_last();
        assert(all_digits(d)) by {
            assert(forall|i: int| 0 <= i < d.len() ==> #[trigger] d[i] == s[i]);
        }
        assert(d[0] == s[0]);
        lemma_canonical_lower(d);
        assert(str_val(d) * 10 >= pow10(s.len() - 2) * 10) by (nonlinear_arith)
            requires str_val(d) >= pow10(s.len() - 2),
        ;
        assert(is_digit_char(s.last()));
    }
}

/// Digit character of the value `d`.
pub open spec fn digit_char(d: int) -> char {
    if d == 0 { '0' }
    else if d == 1 { '1' }
    else if d == 2 { '2' }
    else if d == 3 { '3' }
    else if d == 4 { '4' }
    else if d == 5 { '5' }
    else if d == 6 { '6' }
    else if d == 7 { '7' }
    else if d == 8 { '8' }
    else if d == 9 { '9' }
    else { '0' }
}

fn digit_str(d: u64) -> (s: &'static str)
    requires
        d < 10,
    ensures
        s@.len() == 1,
        s@[0] == digit_char(d as int),
        is_digit_char(s@[0]),
        digit_val(s@[0]) == d as int,
{
    proof {
        reveal_strlit("0");
        reveal_strlit("1");
        reveal_strlit("2");
        reveal_strlit("3");
        reveal_strlit("4");
        reveal_strlit("5");
        reveal_strlit("6");
        reveal_strlit("7");
        reveal_strlit("8");
        reveal_strlit("9");
    }
    match d {
        0 => "0",
        1 => "1",
        2 => "2",
        3 => "3",
        4 => "4",
        5 => "5",
        6 => "6",
        7 => "7",
        8 => "8",
        _ => "9",
    }
}

/// Renders `n` as its canonical decimal numeral.
fn format_dec(n: u64) -> (s: String)
    ensures
        all_digits(s@),
        s@.len() > 0,
        str_val(s@) == n as int,
        n >= 1 ==> s@[0] != '0',
        n == 0 ==> s@ =~= seq!['0'],
    decreases n,
{
    if n < 10 {
        let s = String::from_str(digit_str(n));
        proof {
            assert(s@.drop_last() =~= Seq::<char>::empty());
            assert(str_val(Seq::<char>::empty()) == 0);
            assert(s@.last() == s@[0]);
            assert(str_val(s@) == str_val(s@.drop_last()) * 10 + digit_val(s@.last()));
            if n >= 1 {
                assert(s@[0] != '0');
            }
        }
        s
    } else {
        let mut s = format_dec(n / 10);
        let ghost prefix = s@;
        s.append(digit_str(n % 10));
        proof {
            assert(s@.drop_last() =~= prefix);
            assert(s@.last() == digit_char((n % 10) as int));
            assert(str_val(s@) == str_val(prefix) * 10 + (n % 10) as int);
            assert((n / 10) as int * 10 + (n % 10) as int == n as int) by (nonlinear_arith);
            assert(forall|i: int| 0 <= i < s@.len() ==> is_digit_char(#[trigger] s@[i]));
            assert(s@[0] == prefix[0]);
        }
        s
    }
}

/// Turns a numeric registry key into the identifier string handed to callers.
pub fn format_id(n: u64) -> (s: String)
    requires
        n < ID_KEYSPACE,
    ensures
        is_valid_id(s@),
        str_val(s@) == n as int,
{
    let s = format_dec(n);
    proof {
        if n == 0 {
            assert(s@.len() == 1);
        }
    }
    s
}

fn digit_of(c: char) -> (r: Option<u64>)
    ensures
        match r {
            Some(d) => d < 10 && is_digit_char(c) && digit_val(c) == d as int,
            None => !is_digit_char(c),
        },
{
    match c {
        '0' => Some(0),
        '1' => Some(1),
        '2' => Some(2),
        '3' => Some(3),
        '4' => Some(4),
        '5' => Some(5),
        '6' => Some(6),
        '7' => Some(7),
        '8' => Some(8),
        '9' => Some(9),
        _ => None,
    }
}

/// Reads an identifier string back into its numeric registry key.
///
/// Returns `None` exactly on the strings that no [`format_id`] call can
/// produce: non-numerals, numerals with leading zeros, and numerals whose
/// value falls outside the keyspace.
pub fn parse_id(s: &str) -> (r: Option<u64>)
    ensures
        match r {
            Some(n) => is_valid_id(s@) && n as int == str_val(s@),
            None => !is_valid_id(s@),
        },
{
    let len = s.unicode_len();
    if len == 0 {
        return None;
    }
    let mut i: usize = 0;
    while i < len
        invariant
            0 <= i <= len,
            len == s@.len(),
            forall|j: int| 0 <= j < i ==> is_digit_char(#[trigger] s@[j]),
        decreases len - i,
    {
        if digit_of(s.get_char(i)).is_none() {
            return None;
        }
        i += 1;
    }
    assert(all_digits(s@));
    if len > 1 && s.get_char(0) == '0' {
        return None;
    }
    if len > 4 {
        proof {
            lemma_canonical_lower(s@);
            assert(pow10(s@.len() - 1) >= pow10(4)) by {
                lemma_pow10_mono(4, s@.len() - 1);
            }
            lemma_pow10_small();
        }
        return None;
    }
    let mut val: u64 = 0;
    let mut k: usize = 0;
    while k < len
        invariant
            0 <= k <= len,
            len == s@.len(),
            len <= 4,
            all_digits(s@),
            val as int == str_val(s@.take(k as int)),
            (val as int) < pow10(k as int),
        decreases len - k,
    {
        let c = s.get_char(k);
        let d = match digit_of(c) {
            Some(d) => d,
            None => {
                proof {
                    assert(is_digit_char(s@[k as int]));
                }
                return None;
            },
        };
        proof {
            let t = s@.take(k as int + 1);
            assert(t.drop_last() =~= s@.take(k as int));
            assert(t.last() == s@[k as int]);
            assert(pow10(k as int) <= pow10(3)) by {
                lemma_pow10_mono(k as int, 3);
            }
            lemma_pow10_small();
        }
        val = val * 10 + d;
        k += 1;
    }
    proof {
        assert(s@.take(len as int) =~= s@);
        assert(pow10(len as int) <= pow10(4)) by {
            lemma_pow10_mono(len as int, 4);
        }
        lemma_pow10_small();
    }
    Some(val)
}

/// The concrete powers of ten up to the width of the keyspace.
proof fn lemma_pow10_small()
    ensures
        pow10(0) == 1,
        pow10(1) == 10,
        pow10(2) == 100,
        pow10(3) == 1000,
        pow10(4) == 10000,
{
    assert(pow10(0) == 1);
    assert(pow10(1) == 10);
    assert(pow10(2) == 100);
    assert(pow10(3) == 1000);
    assert(pow10(4) == 10000);
}

/// `10^a <= 10^b` whenever `a <= b`.
proof fn lemma_pow10_mono(a: int, b: int)
    requires
        0 <= a <= b,
    ensures
        pow10(a) <= pow10(b),
    decreases b - a,
{
    if a < b {
        lemma_pow10_mono(a, b - 1);
        assert(pow10(b) == 10 * pow10(b - 1));
        assert(pow10(b - 1) >= 1) by {
            lemma_pow10_pos(b - 1);
        }
    }
}

/// `10^k` is positive.
proof fn lemma_pow10_pos(k: int)
    ensures
        pow10(k) >= 1,
    decreases k,
{
    if k > 0 {
        lemma_pow10_pos(k - 1);
    }
}

} // verus!
