//! Decimal text: rendering a `u64` as its decimal digits and parsing
//! a decimal string back, both against one mathematical model.

use vstd::prelude::*;
use vstd::string::StringExecFns;
use vstd::string::StringSliceAdditionalSpecFns;

verus! {

/// The character for a single decimal digit.
pub open spec fn spec_digit(d: nat) -> char {
    if d == 0 {
        '0'
    } else if d == 1 {
        '1'
    } else if d == 2 {
        '2'
    } else if d == 3 {
        '3'
    } else if d == 4 {
        '4'
    } else if d == 5 {
        '5'
    } else if d == 6 {
        '6'
    } else if d == 7 {
        '7'
    } else if d == 8 {
        '8'
    } else {
        '9'
    }
}

/// The decimal rendering of a natural number: no sign, no leading
/// zeros, a single `'0'` for zero.
pub open spec fn spec_decimal(n: nat) -> Seq<char>
    decreases n,
{
    if n < 10 {
        seq![spec_digit(n)]
    } else {
        spec_decimal(n / 10) + seq![spec_digit(n % 10)]
    }
}

pub open spec fn is_digit_char(c: char) -> bool {
    '0' <= c && c <= '9'
}

pub open spec fn spec_digit_val(c: char) -> nat {
    (c as int - '0' as int) as nat
}

pub open spec fn all_digits(s: Seq<char>) -> bool {
    forall|i: int| 0 <= i < s.len() ==> is_digit_char(#[trigger] s[i])
}

/// The value of a digit string, most significant digit first.
pub open spec fn digits_val(s: Seq<char>) -> nat
    decreases s.len(),
{
    if s.len() == 0 {
        0
    } else {
        digits_val(s.drop_last()) * 10 + spec_digit_val(s.last())
    }
}

/// What `u64` decimal parsing accepts: an optional leading `'+'`, then
/// at least one digit, and a value that fits in 64 bits.
pub open spec fn spec_parse_u64(s: Seq<char>) -> Option<u64> {
    let digits = if s.len() > 0 && s[0] == '+' {
        s.skip(1)
    } else {
        s
    };
    if digits.len() > 0 && all_digits(digits) && digits_val(digits) <= u64::MAX {
        Some(digits_val(digits) as u64)
    } else {
        None
    }
}

fn digit_str(d: u64) -> (s: &'static str)
    requires
        d < 10,
    ensures
        s@ == seq![spec_digit(d as nat)],
{
    proof {
        reveal_strlit("0");
        reveal_strlit("1");
        reveal_strlit("2");
        reveal_strlit("3");
        reveal_strlit("4");
        reveal_strlit("5");
        reveal_strlit("6");
        reveal_strlit("7");
        reveal_strlit("8");
        reveal_strlit("9");
    }
    let s: &'static str = match d {
        0 => "0",
        1 => "1",
        2 => "2",
        3 => "3",
        4 => "4",
        5 => "5",
        6 => "6",
        7 => "7",
        8 => "8",
        _ => "9",
    };
    proof {
        assert(s@ =~= seq![spec_digit(d as nat)]);
    }
    s
}

/// Renders `n` in decimal.
pub fn u64_to_string(n: u64) -> (s: String)
    ensures
        s@ == spec_decimal(n as nat),
    decreases n,
{
    if n < 10 {
        digit_str(n).to_owned()
    } else {
        let mut s = u64_to_string(n / 10);
        s.append(digit_str(n % 10));
        s
    }
}

/// Law: the decimal rendering of a number consists of digits alone
/// and carries the value it renders.
pub proof fn lemma_decimal_digits(n: nat)
    ensures
        spec_decimal(n).len() >= 1,
        all_digits(spec_decimal(n)),
        digits_val(spec_decimal(n)) == n,
    decreases n,
{
    if n < 10 {
        reveal_with_fuel(digits_val, 2);
        assert(spec_decimal(n).drop_last() =~= Seq::<char>::empty());
        assert(spec_decimal(n).last() == spec_digit(n));
        assert(spec_digit_val(spec_digit(n)) == n);
    } else {
        lemma_decimal_digits(n / 10);
        assert(spec_decimal(n).drop_last() =~= spec_decimal(n / 10));
        assert(spec_decimal(n).last() == spec_digit(n % 10));
        assert(spec_digit_val(spec_digit(n % 10)) == n % 10);
        vstd::arithmetic::div_mod::lemma_fundamental_div_mod(n as int, 10);
    }
}

/// Law: parsing inverts rendering; every `u64` comes back from its
/// own decimal text.
pub proof fn lemma_decimal_round_trip(n: u64)
    ensures
        spec_parse_u64(spec_decimal(n as nat)) == Some(n),
{
    lemma_decimal_digits(n as nat);
    let s = spec_decimal(n as nat);
    assert(is_digit_char(s[0]));
    assert(s[0] != '+');
}

proof fn lemma_digits_val_prefix(s: Seq<char>, i: int, j: int)
    requires
        0 <= i <= j <= s.len(),
    ensures
        digits_val(s.subrange(0, i)) <= digits_val(s.subrange(0, j)),
    decreases j - i,
{
    if i < j {
        lemma_digits_val_prefix(s, i, j - 1);
        assert(s.subrange(0, j).drop_last() =~= s.subrange(0, j - 1));
        assert(digits_val(s.subrange(0, j)) == digits_val(s.subrange(0, j - 1)) * 10
            + spec_digit_val(s.subrange(0, j).last()));
    }
}

/// Parses a decimal `u64`, accepting exactly what `spec_parse_u64`
/// describes; returns `None` on an empty string, a stray character or
/// a value over `u64::MAX`.
pub fn parse_u64(s: &str) -> (r: Option<u64>)
    ensures
        r == spec_parse_u64(s@),
{
    broadcast use vstd::string::is_ascii_spec_bytes;

    if !s.is_ascii() {
        proof {
            let k = choose|k: int| 0 <= k < s@.len() && !('\0' <= #[trigger] s@[k] <= '\u{7f}');
            if s@.len() > 0 && s@[0] == '+' {
                assert(!is_digit_char(s@.skip(1)[k - 1]));
            } else {
                assert(!is_digit_char(s@[k]));
            }
        }
        return None;
    }
    let bytes = s.as_bytes();
    proof {
        assert(s.spec_bytes() =~= Seq::new(s@.len(), |j: int| s@[j] as u8));
    }
    let n = bytes.len();
    // 43 is the code point of '+'
    let start: usize = if n > 0 && bytes[0] == 43 {
        proof {
            assert(s@[0] as u8 == 43 && s@[0] <= '\u{7f}');
            assert(s@[0] == '+');
        }
        1
    } else {
        proof {
            if n > 0 {
                assert(s@[0] as u8 == bytes@[0]);
            }
        }
        0
    };
    let ghost digits: Seq<char> = if s@.len() > 0 && s@[0] == '+' {
        s@.skip(1)
    } else {
        s@
    };
    if n == start {
        return None;
    }
    let mut acc: u64 = 0;
    let mut i: usize = start;
    while i < n
        invariant
            start <= i <= n,
            n == s@.len(),
            start == 1 <==> (s@.len() > 0 && s@[0] == '+'),
            start <= 1,
            s.is_ascii(),
            bytes@ =~= Seq::new(s@.len(), |j: int| s@[j] as u8),
            digits == (if s@.len() > 0 && s@[0] == '+' {
                s@.skip(1)
            } else {
                s@
            }),
            all_digits(digits.subrange(0, i - start)),
            acc == digits_val(digits.subrange(0, i - start)),
        decreases n - i,
    {
        let b = bytes[i];
        proof {
            assert(b == s@[i as int] as u8);
            assert(s@[i as int] <= '\u{7f}');
            assert(digits[i - start] == s@[i as int]);
        }
        if b < 48 || b > 57 {
            proof {
                assert(!is_digit_char(digits[i - start]));
            }
            return None;
        }
        let d = (b - 48) as u64;
        proof {
            assert(is_digit_char(digits[i - start]));
            assert(d == spec_digit_val(digits[i - start]));
        }
        if acc > (u64::MAX - d) / 10 {
            proof {
                let k = i - start;
                assert(digits.subrange(0, k + 1).drop_last() =~= digits.subrange(0, k));
                assert(digits.subrange(0, k + 1).last() == digits[k]);
                assert(acc * 10 + d > u64::MAX) by {
                    let m = (u64::MAX - d) as int;
                    assert(m == 10 * (m / 10) + m % 10);
                    assert(0 <= m % 10 < 10);
                };
                assert(digits_val(digits.subrange(0, k + 1)) > u64::MAX);
                lemma_digits_val_prefix(digits, k + 1, digits.len() as int);
                assert(digits.subrange(0, digits.len() as int) =~= digits);
                assert(digits_val(digits) > u64::MAX);
            }
            return None;
        }
        proof {
            let k = i - start;
            assert(acc * 10 + d <= u64::MAX) by {
                let m = (u64::MAX - d) as int;
                assert(m == 10 * (m / 10) + m % 10);
                assert(0 <= m % 10 < 10);
            };
            assert(digits.subrange(0, k + 1).drop_last() =~= digits.subrange(0, k));
            assert(digits.subrange(0, k + 1).last() == digits[k]);
        }
        acc = acc * 10 + d;
        i = i + 1;
    }
    proof {
        assert(digits.subrange(0, n - start) =~= digits);
    }
    Some(acc)
}

} // verus!
