//! Decimal text: formatting an unsigned value and parsing digit strings.

use vstd::prelude::*;

verus! {

/// The decimal digit character for a value below ten.
pub open spec fn dec_digit(d: nat) -> char {
    if d == 0 {
        '0'
    } else if d == 1 {
        '1'
    } else if d == 2 {
        '2'
    } else if d == 3 {
        '3'
    } else if d == 4 {
        '4'
    } else if d == 5 {
        '5'
    } else if d == 6 {
        '6'
    } else if d == 7 {
        '7'
    } else if d == 8 {
        '8'
    } else {
        '9'
    }
}

/// The decimal text of a natural number, most significant digit first,
/// without leading zeros (a single `'0'` for zero itself).
pub open spec fn dec_str(n: nat) -> Seq<char>
    decreases n,
{
    if n < 10 {
        seq![dec_digit(n)]
    } else {
        dec_str(n / 10).push(dec_digit(n % 10))
    }
}

/// The one-character text of a decimal digit.
fn digit_text(d: u64) -> (r: &'static str)
    requires
        d < 10,
    ensures
        r@ == seq![dec_digit(d as nat)],
{
    let r: &'static str = match d {
        0 => "0",
        1 => "1",
        2 => "2",
        3 => "3",
        4 => "4",
        5 => "5",
        6 => "6",
        7 => "7",
        8 => "8",
        _ => "9",
    };
    proof {
        reveal_strlit("0");
        reveal_strlit("1");
        reveal_strlit("2");
        reveal_strlit("3");
        reveal_strlit("4");
        reveal_strlit("5");
        reveal_strlit("6");
        reveal_strlit("7");
        reveal_strlit("8");
        reveal_strlit("9");
        assert(r@ =~= seq![dec_digit(d as nat)]);
    }
    r
}

/// Formats a value in decimal, matching `dec_str`.
pub fn dec_of_u64(n: u64) -> (r: String)
    ensures
        r@ == dec_str(n as nat),
    decreases n,
{
    let d: u64 = n % 10;
    let digit: &'static str = digit_text(d);
    if n < 10 {
        digit.to_owned()
    } else {
        let mut s = dec_of_u64(n / 10);
        s.append(digit);
        proof {
            assert(s@ =~= dec_str(n as nat));
        }
        s
    }
}

/// Whether a character is a decimal digit.
pub open spec fn is_dec_digit(c: char) -> bool {
    48 <= c as int <= 57
}

/// The numeric value of a decimal digit character.
pub open spec fn digit_val(c: char) -> nat {
    (c as int - 48) as nat
}

/// True when the text is one or more decimal digit characters.
pub open spec fn is_dec_text(s: Seq<char>) -> bool {
    s.len() > 0 && forall|i: int| 0 <= i < s.len() ==> #[trigger] is_dec_digit(s[i])
}

/// The numeric value of a sequence of decimal digit characters.
pub open spec fn dec_val(s: Seq<char>) -> nat
    decreases s.len(),
{
    if s.len() == 0 {
        0
    } else {
        dec_val(s.drop_last()) * 10 + digit_val(s.last())
    }
}

/// Formatting a value and parsing the text back is the identity: the decimal
/// text of any value is digit text, and its numeric value is the value
/// formatted.
pub proof fn lemma_dec_round_trip(n: nat)
    ensures
        is_dec_text(dec_str(n)),
        dec_val(dec_str(n)) == n,
    decreases n,
{
    if n < 10 {
        assert(dec_str(n) =~= seq![dec_digit(n)]);
        assert(dec_str(n).drop_last() =~= Seq::<char>::empty());
        assert(dec_str(n).last() == dec_digit(n));
        assert(dec_val(Seq::<char>::empty()) == 0);
        assert(dec_val(dec_str(n)) == digit_val(dec_digit(n)));
        assert(digit_val(dec_digit(n)) == n);
    } else {
        lemma_dec_round_trip(n / 10);
        assert(dec_str(n).drop_last() =~= dec_str(n / 10));
        assert(dec_str(n).last() == dec_digit(n % 10));
        assert(dec_val(dec_str(n)) == dec_val(dec_str(n / 10)) * 10 + digit_val(dec_digit(n % 10)));
        assert(forall|i: int| 0 <= i < dec_str(n).len() ==> #[trigger] is_dec_digit(dec_str(n)[i]))
            by {
            assert(forall|i: int| 0 <= i < dec_str(n / 10).len() ==> #[trigger] is_dec_digit(
                dec_str(n / 10)[i],
            ));
            assert(forall|i: int| 0 <= i < dec_str(n).len() - 1 ==> dec_str(n)[i] == dec_str(
                n / 10,
            )[i]);
            assert(is_dec_digit(dec_str(n).last()));
        }
    }
}

/// The value of a digit string is at least the value of any of its prefixes.
proof fn lemma_dec_val_prefix_le(s: Seq<char>, k: int)
    requires
        0 <= k <= s.len(),
        forall|i: int| 0 <= i < s.len() ==> #[trigger] is_dec_digit(s[i]),
    ensures
        dec_val(s.subrange(0, k)) <= dec_val(s),
    decreases s.len() - k,
{
    if k == s.len() {
        assert(s.subrange(0, k) =~= s);
    } else {
        assert(s.subrange(0, k + 1).drop_last() =~= s.subrange(0, k));
        assert(s.subrange(0, k + 1).last() == s[k]);
        assert(dec_val(s.subrange(0, k + 1)) == dec_val(s.subrange(0, k)) * 10 + digit_val(s[k]));
        lemma_dec_val_prefix_le(s, k + 1);
    }
}

/// Parses decimal text as an unsigned 64-bit value. The result is the numeric
/// value exactly when the text is nonempty, consists of decimal digits only,
/// and the value fits; otherwise the text is rejected.
pub fn parse_u64(s: &str) -> (r: Option<u64>)
    ensures
        match r {
            Some(v) => is_dec_text(s@) && v as nat == dec_val(s@),
            None => !is_dec_text(s@) || dec_val(s@) > u64::MAX,
        },
{
    let n = s.unicode_len();
    if n == 0 {
        return None;
    }
    let mut i: usize = 0;
    let mut acc: u64 = 0;
    while i < n
        invariant
            0 <= i <= n,
            n == s@.len(),
            forall|j: int| 0 <= j < i ==> #[trigger] is_dec_digit(s@[j]),
            acc as nat == dec_val(s@.subrange(0, i as int)),
        decreases n - i,
    {
        let c = s.get_char(i);
        let u = c as u32;
        if u < 48 || u > 57 {
            proof {
                assert(!is_dec_digit(s@[i as int]));
            }
            return None;
        }
        let d = (u - 48) as u64;
        proof {
            assert(s@.subrange(0, i as int + 1).drop_last() =~= s@.subrange(0, i as int));
            assert(s@.subrange(0, i as int + 1).last() == s@[i as int]);
        }
        let ghost next_val = dec_val(s@.subrange(0, i as int + 1));
        proof {
            assert(next_val == acc as nat * 10 + digit_val(s@[i as int]));
        }
        let acc10 = match acc.checked_mul(10) {
            Some(x) => x,
            None => {
                proof {
                    if is_dec_text(s@) {
                        lemma_dec_val_prefix_le(s@, i as int + 1);
                    }
                }
                return None;
            },
        };
        acc = match acc10.checked_add(d) {
            Some(x) => x,
            None => {
                proof {
                    if is_dec_text(s@) {
                        lemma_dec_val_prefix_le(s@, i as int + 1);
                    }
                }
                return None;
            },
        };
        i += 1;
    }
    proof {
        assert(s@.subrange(0, n as int) =~= s@);
    }
    Some(acc)
}

} // verus!
