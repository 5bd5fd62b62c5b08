//! Identifiers and their display form.
//!
//! The store assigns every record an opaque numeric identifier. Over the
//! wire an identifier travels in its canonical decimal display form: no
//! sign, no leading zeros, the number zero being `"0"`. This module renders
//! and parses that form, each direction specified against the same
//! mathematical definition, so the two are provably inverse.

use vstd::prelude::*;
use vstd::string::StrSliceExecFns;
use vstd::string::StringExecFns;

verus! {

/// The character for one decimal digit value.
pub open spec fn spec_digit_char(d: nat) -> char
    recommends
        d < 10,
{
    if d == 0 {
        '0'
    } else if d == 1 {
        '1'
    } else if d == 2 {
        '2'
    } else if d == 3 {
        '3'
    } else if d == 4 {
        '4'
    } else if d == 5 {
        '5'
    } else if d == 6 {
        '6'
    } else if d == 7 {
        '7'
    } else if d == 8 {
        '8'
    } else {
        '9'
    }
}

/// Whether a character is a decimal digit.
pub open spec fn is_digit_char(c: char) -> bool {
    48 <= c as int <= 57
}

/// The digit value of a decimal digit character.
pub open spec fn spec_char_digit(c: char) -> nat
    recommends
        is_digit_char(c),
{
    (c as int - 48) as nat
}

/// The canonical decimal form of a number, most significant digit first.
pub open spec fn spec_dec(n: nat) -> Seq<char>
    decreases n,
{
    if n < 10 {
        seq![spec_digit_char(n)]
    } else {
        spec_dec(n / 10).push(spec_digit_char(n % 10))
    }
}

/// The numeric value of a digit string, most significant digit first.
pub open spec fn spec_val(s: Seq<char>) -> nat
    decreases s.len(),
{
    if s.len() == 0 {
        0
    } else {
        spec_val(s.drop_last()) * 10 + spec_char_digit(s.last())
    }
}

/// Whether every character of the string is a decimal digit.
pub open spec fn all_digits(s: Seq<char>) -> bool {
    forall|i: int| 0 <= i < s.len() ==> is_digit_char(#[trigger] s[i])
}

/// Whether the string is the canonical decimal form of some number:
/// nonempty, all digits, and no leading zero.
pub open spec fn is_canonical_dec(s: Seq<char>) -> bool {
    &&& s.len() >= 1
    &&& all_digits(s)
    &&& (s.len() > 1 ==> s[0] != '0')
}

/// The number whose canonical decimal form this string is, if any.
pub open spec fn spec_parse_dec(s: Seq<char>) -> Option<u64> {
    if exists|n: u64| s == spec_dec(n as nat) {
        Some(choose|n: u64| s == spec_dec(n as nat))
    } else {
        None
    }
}

/// A digit value maps to a digit character and back to itself.
pub proof fn lemma_digit_char_value(d: nat)
    requires
        d < 10,
    ensures
        is_digit_char(spec_digit_char(d)),
        spec_char_digit(spec_digit_char(d)) == d,
{
}

/// A digit character maps to its value and back to itself.
pub proof fn lemma_char_digit_value(c: char)
    requires
        is_digit_char(c),
    ensures
        spec_char_digit(c) < 10,
        spec_digit_char(spec_char_digit(c)) == c,
{
}

/// The decimal form of any number is canonical, and starts with `'0'` only
/// for the number zero.
pub proof fn lemma_dec_canonical(n: nat)
    ensures
        is_canonical_dec(spec_dec(n)),
        n >= 1 ==> spec_dec(n)[0] != '0',
    decreases n,
{
    if n < 10 {
        lemma_digit_char_value(n);
    } else {
        lemma_dec_canonical(n / 10);
        lemma_digit_char_value(n % 10);
        assert(spec_dec(n)[0] == spec_dec(n / 10)[0]);
    }
}

/// The value of a decimal form is the number it was made from.
pub proof fn lemma_dec_val(n: nat)
    ensures
        spec_val(spec_dec(n)) == n,
    decreases n,
{
    assert(spec_val(Seq::<char>::empty()) == 0);
    if n < 10 {
        lemma_digit_char_value(n);
        assert(spec_dec(n).drop_last() =~= Seq::<char>::empty());
        assert(spec_dec(n).last() == spec_digit_char(n));
        assert(spec_val(spec_dec(n)) == 0 * 10 + spec_char_digit(spec_digit_char(n)));
    } else {
        lemma_dec_val(n / 10);
        lemma_digit_char_value(n % 10);
        assert(spec_dec(n).drop_last() =~= spec_dec(n / 10));
        assert(spec_dec(n).last() == spec_digit_char(n % 10));
        assert(spec_val(spec_dec(n)) == (n / 10) * 10 + (n % 10));
    }
}

/// Decimal forms are distinct for distinct numbers.
pub proof fn lemma_dec_injective(a: nat, b: nat)
    requires
        spec_dec(a) == spec_dec(b),
    ensures
        a == b,
{
    lemma_dec_val(a);
    lemma_dec_val(b);
}

/// Parsing inverts rendering: the decimal form of a number parses back to
/// that number.
pub proof fn lemma_parse_of_dec(k: u64)
    ensures
        spec_parse_dec(spec_dec(k as nat)) == Some(k),
{
    let s = spec_dec(k as nat);
    assert(s == spec_dec(k as nat));
    let n0 = choose|n: u64| s == spec_dec(n as nat);
    lemma_dec_injective(n0 as nat, k as nat);
}

/// A nonempty digit string without a leading zero has a positive value.
pub proof fn lemma_val_positive(s: Seq<char>)
    requires
        s.len() >= 1,
        all_digits(s),
        s[0] != '0',
    ensures
        spec_val(s) >= 1,
    decreases s.len(),
{
    if s.len() == 1 {
        lemma_char_digit_value(s[0]);
        assert(spec_char_digit(s[0]) != 0);
    } else {
        lemma_val_positive(s.drop_last());
    }
}

/// A canonical digit string is the decimal form of its own value.
pub proof fn lemma_canonical_dec_of_val(s: Seq<char>)
    requires
        is_canonical_dec(s),
    ensures
        spec_dec(spec_val(s)) == s,
    decreases s.len(),
{
    if s.len() == 1 {
        lemma_char_digit_value(s[0]);
        assert(spec_val(s) == spec_char_digit(s[0])) by {
            assert(s.drop_last() =~= Seq::<char>::empty());
            assert(spec_val(Seq::<char>::empty()) == 0);
            assert(s.last() == s[0]);
        }
        assert(spec_dec(spec_val(s)) =~= s);
    } else {
        let prefix = s.drop_last();
        let dd = spec_char_digit(s.last());
        lemma_char_digit_value(s.last());
        lemma_val_positive(prefix);
        lemma_canonical_dec_of_val(prefix);
        let v = spec_val(s);
        assert(v == spec_val(prefix) * 10 + dd);
        assert(v / 10 == spec_val(prefix) && v % 10 == dd) by (nonlinear_arith)
            requires
                v == spec_val(prefix) * 10 + dd,
                dd < 10,
        ;
        assert(v >= 10) by {
            assert(spec_val(prefix) * 10 >= 10);
        }
        assert(spec_dec(v) =~= s);
    }
}

/// The value of a digit string is at least the value of any prefix of it.
pub proof fn lemma_val_take_le(s: Seq<char>, j: int)
    requires
        0 <= j <= s.len(),
    ensures
        spec_val(s.take(j)) <= spec_val(s),
    decreases s.len(),
{
    if j == s.len() {
        assert(s.take(j) =~= s);
    } else {
        lemma_val_take_le(s.drop_last(), j);
        assert(s.take(j) =~= s.drop_last().take(j));
        assert(spec_val(s.drop_last()) * 10 >= spec_val(s.drop_last()));
    }
}

/// Append one decimal digit character to a string under construction.
fn push_digit(s: &mut String, d: u64)
    requires
        d < 10,
    ensures
        final(s)@ == old(s)@.push(spec_digit_char(d as nat)),
{
    proof {
        reveal_strlit("0");
        reveal_strlit("1");
        reveal_strlit("2");
        reveal_strlit("3");
        reveal_strlit("4");
        reveal_strlit("5");
        reveal_strlit("6");
        reveal_strlit("7");
        reveal_strlit("8");
        reveal_strlit("9");
    }
    if d == 0 {
        s.append("0");
    } else if d == 1 {
        s.append("1");
    } else if d == 2 {
        s.append("2");
    } else if d == 3 {
        s.append("3");
    } else if d == 4 {
        s.append("4");
    } else if d == 5 {
        s.append("5");
    } else if d == 6 {
        s.append("6");
    } else if d == 7 {
        s.append("7");
    } else if d == 8 {
        s.append("8");
    } else {
        s.append("9");
    }
    proof {
        assert(final(s)@ =~= old(s)@.push(spec_digit_char(d as nat)));
    }
}

/// Render a number in its canonical decimal display form.
pub fn format_u64(n: u64) -> (s: String)
    ensures
        s@ == spec_dec(n as nat),
{
    let mut digits: Vec<u64> = Vec::new();
    let mut m: u64 = n;
    digits.push(m % 10);
    m = m / 10;
    proof {
        if n >= 10 {
            assert(spec_dec(n as nat) == spec_dec((n / 10) as nat).push(
                spec_digit_char((n % 10) as nat),
            ));
        }
    }
    while m > 0
        invariant
            digits@.len() >= 1,
            forall|k: int| 0 <= k < digits@.len() ==> #[trigger] digits@[k] < 10,
            spec_dec(n as nat) == (if m > 0 {
                spec_dec(m as nat)
            } else {
                Seq::<char>::empty()
            }) + Seq::new(digits@.len(), |i: int| spec_digit_char(
                digits@[digits@.len() - 1 - i] as nat,
            )),
        decreases m,
    {
        let ghost m0 = m as nat;
        let ghost ds0 = digits@;
        digits.push(m % 10);
        m = m / 10;
        proof {
            let ds1 = digits@;
            let rev0 = Seq::new(ds0.len(), |i: int| spec_digit_char(ds0[ds0.len() - 1 - i] as nat));
            let rev1 = Seq::new(ds1.len(), |i: int| spec_digit_char(ds1[ds1.len() - 1 - i] as nat));
            assert(rev1 =~= seq![spec_digit_char((m0 % 10) as nat)] + rev0);
            if m0 < 10 {
                assert(spec_dec(m0) =~= seq![spec_digit_char(m0)]);
                assert(spec_dec(m0) + rev0 =~= rev1);
            } else {
                assert(spec_dec(m0) == spec_dec(m0 / 10).push(spec_digit_char(m0 % 10)));
                assert(spec_dec(m0) + rev0 =~= spec_dec(m0 / 10) + rev1);
            }
            assert(spec_dec(n as nat) == (if m > 0 {
                spec_dec(m as nat)
            } else {
                Seq::<char>::empty()
            }) + rev1);
        }
    }
    let ghost rev = Seq::new(digits@.len(), |i: int| spec_digit_char(
        digits@[digits@.len() - 1 - i] as nat,
    ));
    proof {
        assert(spec_dec(n as nat) =~= rev);
    }
    let mut s = String::new();
    let mut i: usize = digits.len();
    while i > 0
        invariant
            i <= digits@.len(),
            forall|k: int| 0 <= k < digits@.len() ==> #[trigger] digits@[k] < 10,
            rev == Seq::new(digits@.len(), |j: int| spec_digit_char(
                digits@[digits@.len() - 1 - j] as nat,
            )),
            s@ == rev.take(digits@.len() - i),
        decreases i,
    {
        i = i - 1;
        let d = digits[i];
        push_digit(&mut s, d);
        proof {
            assert(s@ =~= rev.take(digits@.len() - i));
        }
    }
    proof {
        assert(s@ =~= spec_dec(n as nat));
    }
    s
}

/// Parse the canonical decimal display form of an identifier. Returns the
/// number exactly when the input is the decimal form of a number that fits
/// in the identifier type, and nothing otherwise.
pub fn parse_u64(s: &str) -> (r: Option<u64>)
    ensures
        r == spec_parse_dec(s@),
        r matches Some(n) ==> s@ == spec_dec(n as nat),
        r is None ==> forall|n: u64| s@ != spec_dec(n as nat),
{
    let len = s.unicode_len();
    if len == 0 {
        proof {
            assert forall|n: u64| s@ != spec_dec(n as nat) by {
                lemma_dec_canonical(n as nat);
            }
        }
        return None;
    }
    if len > 1 {
        let c0 = s.get_char(0);
        if c0 == '0' {
            proof {
                assert forall|n: u64| s@ != spec_dec(n as nat) by {
                    lemma_dec_canonical(n as nat);
                    if n >= 1 {
                        assert(spec_dec(n as nat)[0] != '0');
                    }
                }
            }
            return None;
        }
    }
    let mut val: u64 = 0;
    let mut i: usize = 0;
    while i < len
        invariant
            0 <= i <= len,
            len == s@.len(),
            all_digits(s@.take(i as int)),
            val == spec_val(s@.take(i as int)),
        decreases len - i,
    {
        let c = s.get_char(i);
        let code = c as u32;
        if code < 48 || code > 57 {
            proof {
                assert(!is_digit_char(s@[i as int]));
                assert forall|n: u64| s@ != spec_dec(n as nat) by {
                    lemma_dec_canonical(n as nat);
                }
            }
            return None;
        }
        let d = (code - 48) as u64;
        if val > (u64::MAX - d) / 10 {
            proof {
                assert(val * 10 + d > u64::MAX) by (nonlinear_arith)
                    requires
                        val > (u64::MAX - d) / 10,
                        d <= 9,
                ;
                assert(s@.take(i + 1).drop_last() =~= s@.take(i as int));
                assert(s@.take(i + 1).last() == s@[i as int]);
                assert(spec_val(s@.take(i + 1)) == val * 10 + spec_char_digit(s@[i as int]));
                assert(spec_char_digit(s@[i as int]) == d);
                assert forall|n: u64| s@ != spec_dec(n as nat) by {
                    if s@ == spec_dec(n as nat) {
                        lemma_dec_val(n as nat);
                        lemma_val_take_le(s@, i + 1);
                        assert(spec_val(s@) == n as nat);
                    }
                }
            }
            return None;
        }
        proof {
            assert(val * 10 + d <= u64::MAX) by (nonlinear_arith)
                requires
                    val <= (u64::MAX - d) / 10,
                    d <= 9,
            ;
            assert(s@.take(i + 1).drop_last() =~= s@.take(i as int));
            assert(s@.take(i + 1).last() == s@[i as int]);
            assert(spec_char_digit(s@[i as int]) == d);
        }
        val = val * 10 + d;
        i = i + 1;
    }
    proof {
        assert(s@.take(len as int) =~= s@);
        assert(is_canonical_dec(s@)) by {
            if s@.len() > 1 {
                assert(is_digit_char(s@[0]));
                assert(s@[0] as u32 != 48);
            }
        }
        lemma_canonical_dec_of_val(s@);
        assert(s@ == spec_dec(val as nat));
        lemma_parse_of_dec(val);
    }
    Some(val)
}

} // verus!
