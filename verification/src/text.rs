//! Decimal numerals in request paths and labels.
//!
//! The client prints a task's position into the request path and the server
//! reads it back; index addressing across the wire is sound only because
//! printing and reading here invert each other, which `lemma_numeral_round_trip`
//! pins down.

use vstd::prelude::*;

verus! {

/// Is `c` one of the ten decimal digit characters?
pub open spec fn is_digit(c: char) -> bool {
    48 <= c as u32 <= 57
}

/// The value of a digit character.
pub open spec fn digit_val(c: char) -> int {
    c as u32 - 48
}

/// Does the sequence consist of decimal digits only?
pub open spec fn all_digits(s: Seq<char>) -> bool {
    forall|i: int| 0 <= i < s.len() ==> is_digit(#[trigger] s[i])
}

/// The number a digit sequence denotes, most significant digit first.
pub open spec fn dec_val(s: Seq<char>) -> int
    decreases s.len(),
{
    if s.len() == 0 {
        0
    } else {
        dec_val(s.drop_last()) * 10 + digit_val(s.last())
    }
}

/// The digit character for a value below ten.
pub open spec fn digit_char(d: int) -> char {
    if d == 0 {
        '0'
    } else if d == 1 {
        '1'
    } else if d == 2 {
        '2'
    } else if d == 3 {
        '3'
    } else if d == 4 {
        '4'
    } else if d == 5 {
        '5'
    } else if d == 6 {
        '6'
    } else if d == 7 {
        '7'
    } else if d == 8 {
        '8'
    } else {
        '9'
    }
}

/// The canonical decimal numeral of a non-negative number: no sign, no
/// leading zero except for zero itself.
pub open spec fn dec_digits(n: int) -> Seq<char>
    decreases n,
{
    if n < 10 {
        seq![digit_char(n)]
    } else {
        dec_digits(n / 10).push(digit_char(n % 10))
    }
}

/// A numeral's digits are digit characters and its value is the number
/// printed.
pub proof fn lemma_numeral_round_trip(n: int)
    requires
        0 <= n,
    ensures
        dec_digits(n).len() >= 1,
        all_digits(dec_digits(n)),
        dec_val(dec_digits(n)) == n,
    decreases n,
{
    if n < 10 {
        assert(dec_digits(n) =~= seq![digit_char(n)]);
        assert(dec_val(dec_digits(n)) == dec_val(seq![digit_char(n)].drop_last()) * 10
            + digit_val(digit_char(n)));
        assert(seq![digit_char(n)].drop_last() =~= Seq::<char>::empty());
    } else {
        lemma_numeral_round_trip(n / 10);
        let tail = dec_digits(n / 10);
        let whole = tail.push(digit_char(n % 10));
        assert(whole.drop_last() =~= tail);
        assert(whole.last() == digit_char(n % 10));
        assert(0 <= n % 10 < 10);
        assert(digit_val(digit_char(n % 10)) == n % 10);
        assert(dec_val(whole) == (n / 10) * 10 + n % 10);
        assert((n / 10) * 10 + n % 10 == n) by {
            vstd::arithmetic::div_mod::lemma_fundamental_div_mod(n, 10);
        }
        assert forall|i: int| 0 <= i < whole.len() implies is_digit(#[trigger] whole[i]) by {
            if i < tail.len() {
                assert(whole[i] == tail[i]);
            }
        }
    }
}

/// A digit sequence denotes a non-negative number.
pub proof fn lemma_dec_val_nonneg(s: Seq<char>)
    requires
        all_digits(s),
    ensures
        dec_val(s) >= 0,
    decreases s.len(),
{
    if s.len() > 0 {
        assert(is_digit(s.last()));
        assert(all_digits(s.drop_last())) by {
            assert(forall|i: int| 0 <= i < s.len() - 1 ==> #[trigger] s.drop_last()[i] == s[i]);
        }
        lemma_dec_val_nonneg(s.drop_last());
    }
}

/// A digit sequence is worth at least as much as any of its prefixes.
pub proof fn lemma_dec_val_prefix_le(s: Seq<char>, j: int)
    requires
        all_digits(s),
        0 <= j <= s.len(),
    ensures
        dec_val(s.take(j)) <= dec_val(s),
    decreases s.len() - j,
{
    if j == s.len() {
        assert(s.take(j) =~= s);
    } else {
        let shorter = s.take(j);
        let longer = s.take(j + 1);
        assert(longer.drop_last() =~= shorter);
        assert(longer.last() == s[j]);
        assert(all_digits(shorter)) by {
            assert(forall|i: int| 0 <= i < j ==> #[trigger] shorter[i] == s[i]);
        }
        lemma_dec_val_nonneg(shorter);
        assert(is_digit(s[j]));
        assert(dec_val(longer) == dec_val(shorter) * 10 + digit_val(s[j]));
        assert(dec_val(shorter) * 10 >= dec_val(shorter));
        lemma_dec_val_prefix_le(s, j + 1);
    }
}

/// Append the decimal numeral of `n` to `out`.
pub fn push_decimal(out: &mut String, n: usize)
    ensures
        final(out)@ == old(out)@ + dec_digits(n as int),
    decreases n,
{
    let ghost before = out@;
    if n >= 10 {
        push_decimal(out, n / 10);
    }
    let d = n % 10;
    match d {
        0 => out.append("0"),
        1 => out.append("1"),
        2 => out.append("2"),
        3 => out.append("3"),
        4 => out.append("4"),
        5 => out.append("5"),
        6 => out.append("6"),
        7 => out.append("7"),
        8 => out.append("8"),
        _ => out.append("9"),
    }
    proof {
        reveal_strlit("0");
        reveal_strlit("1");
        reveal_strlit("2");
        reveal_strlit("3");
        reveal_strlit("4");
        reveal_strlit("5");
        reveal_strlit("6");
        reveal_strlit("7");
        reveal_strlit("8");
        reveal_strlit("9");
        if n < 10 {
            assert(out@ =~= before + seq![digit_char(n as int)]);
        } else {
            assert(out@ =~= before + dec_digits(n as int / 10).push(
                digit_char(n as int % 10),
            ));
        }
        assert(out@ =~= before + dec_digits(n as int));
    }
}

/// The decimal numeral of `n` as a string.
pub fn decimal_string(n: usize) -> (r: String)
    ensures
        r@ == dec_digits(n as int),
{
    let mut out = String::new();
    push_decimal(&mut out, n);
    proof {
        assert(out@ =~= dec_digits(n as int));
    }
    out
}

/// The task counter's display text: the word `Total`, then the count.
pub fn total_label(n: usize) -> (r: String)
    ensures
        r@ == "Total: "@ + dec_digits(n as int),
{
    let mut out = String::new();
    out.append("Total: ");
    push_decimal(&mut out, n);
    proof {
        assert(out@ =~= "Total: "@ + dec_digits(n as int));
    }
    out
}

/// Read a string as a decimal number: accepted exactly when it is non-empty,
/// all digits, and its value fits the machine word; anything else — an empty
/// segment, a sign, a stray character, a value too large — is rejected.
pub fn parse_decimal(s: &str) -> (r: Option<usize>)
    ensures
        r is Some <==> s@.len() > 0 && all_digits(s@) && dec_val(s@) <= usize::MAX,
        r matches Some(v) ==> v as int == dec_val(s@),
{
    let n = s.unicode_len();
    if n == 0 {
        return None;
    }
    let mut acc: usize = 0;
    let mut i: usize = 0;
    while i < n
        invariant
            n == s@.len(),
            0 <= i <= n,
            all_digits(s@.take(i as int)),
            acc as int == dec_val(s@.take(i as int)),
        decreases n - i,
    {
        let c = s.get_char(i);
        let code = c as u32;
        if code < 48 || code > 57 {
            assert(!is_digit(s@[i as int]));
            return None;
        }
        let d = (code - 48) as usize;
        proof {
            assert(s@.take(i as int + 1).drop_last() =~= s@.take(i as int));
            assert(s@.take(i as int + 1).last() == s@[i as int]);
            assert(all_digits(s@.take(i as int + 1))) by {
                assert(forall|k: int| 0 <= k < i as int ==> #[trigger] s@.take(i as int + 1)[k]
                    == s@.take(i as int)[k]);
            }
        }
        let next = match acc.checked_mul(10) {
            Some(m) => m.checked_add(d),
            None => None,
        };
        match next {
            Some(v) => {
                acc = v;
                i += 1;
            },
            None => {
                proof {
                    assert(dec_val(s@.take(i as int + 1)) > usize::MAX);
                    if all_digits(s@) {
                        lemma_dec_val_prefix_le(s@, i as int + 1);
                    }
                }
                return None;
            },
        }
    }
    proof {
        assert(s@.take(n as int) =~= s@);
    }
    Some(acc)
}

} // verus!
