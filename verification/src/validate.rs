//! Reading unsigned numbers from command-line text, and the checks on the
//! command-line values.

use vstd::prelude::*;
use vstd::string::*;

use crate::text::{all_digits, decimal, digit_char, digit_value, digits_value, unsigned_number};

verus! {

/// The number that `s` denotes as an unsigned integer, if it denotes one no greater than `max`.
pub open spec fn bounded_number(s: Seq<char>, max: nat) -> Option<nat> {
    match unsigned_number(s) {
        Some(n) => if n <= max {
            Some(n)
        } else {
            None
        },
        None => None,
    }
}

fn digit_of(c: char) -> (d: Option<u64>)
    ensures
        d matches Some(v) ==> digit_value(c) == Some(v as int),
        d is None ==> digit_value(c) is None,
{
    if c == '0' {
        Some(0)
    } else if c == '1' {
        Some(1)
    } else if c == '2' {
        Some(2)
    } else if c == '3' {
        Some(3)
    } else if c == '4' {
        Some(4)
    } else if c == '5' {
        Some(5)
    } else if c == '6' {
        Some(6)
    } else if c == '7' {
        Some(7)
    } else if c == '8' {
        Some(8)
    } else if c == '9' {
        Some(9)
    } else {
        None
    }
}

proof fn lemma_digits_prefix_le(s: Seq<char>, i: int)
    requires
        0 <= i <= s.len(),
        all_digits(s),
    ensures
        digits_value(s.take(i)) <= digits_value(s),
    decreases s.len() - i,
{
    if i < s.len() {
        lemma_digits_prefix_le(s, i + 1);
        assert(s.take(i + 1).drop_last() =~= s.take(i));
        assert(s.take(i + 1).last() == s[i]);
    } else {
        assert(s.take(i) =~= s);
    }
}

/// Reads an unsigned integer as `str::parse` does for an unsigned type whose largest
/// value is `max`: an optional '+', then at least one decimal digit and nothing else.
pub fn parse_unsigned(s: &str, max: u64) -> (r: Option<u64>)
    ensures
        r matches Some(v) ==> bounded_number(s@, max as nat) == Some(v as nat),
        r is None ==> bounded_number(s@, max as nat) is None,
{
    let len = s.unicode_len();
    let mut start: usize = 0;
    if len > 0 && s.get_char(0) == '+' {
        start = 1;
    }
    let ghost digits = if s@.len() > 0 && s@[0] == '+' {
        s@.drop_first()
    } else {
        s@
    };
    assert(digits =~= s@.skip(start as int));
    if start == len {
        return None;
    }
    let mut value: u64 = 0;
    let mut i: usize = start;
    assert(digits.take(0) =~= Seq::<char>::empty());
    while i < len
        invariant
            len == s@.len(),
            start <= i <= len,
            digits == s@.skip(start as int),
            digits == (if s@.len() > 0 && s@[0] == '+' {
                s@.drop_first()
            } else {
                s@
            }),
            digits.len() > 0,
            all_digits(digits.take(i - start)),
            value as nat == digits_value(digits.take(i - start)),
            value <= max,
        decreases len - i,
    {
        let c = s.get_char(i);
        let ghost k = i - start;
        proof {
            assert(digits[k] == c);
            assert(digits.take(k + 1).drop_last() =~= digits.take(k));
            assert(digits.take(k + 1).last() == c);
        }
        match digit_of(c) {
            None => {
                assert(digit_value(digits[k as int]) is None);
                assert(!all_digits(digits));
                return None;
            },
            Some(d) => {
                if d > max || value > (max - d) / 10 {
                    proof {
                        assert(all_digits(digits.take(k + 1)) ) by {
                            assert forall|j: int| 0 <= j < k + 1 implies (#[trigger] digit_value(digits.take(k + 1)[j])) is Some by {
                                if j < k {
                                    assert(digits.take(k + 1)[j] == digits.take(k)[j]);
                                }
                            }
                        }
                        assert(digits_value(digits.take(k + 1)) == value * 10 + d);
                        assert(value * 10 + d > max) by (nonlinear_arith)
                            requires
                                d > max || value > (max - d) / 10,
                                d <= 9,
                        ;
                        if all_digits(digits) {
                            lemma_digits_prefix_le(digits, k + 1);
                        }
                    }
                    return None;
                }
                proof {
                    assert(value * 10 + d <= max) by (nonlinear_arith)
                        requires
                            value <= (max - d) / 10,
                            d <= max,
                    ;
                }
                value = value * 10 + d;
                proof {
                    assert forall|j: int| 0 <= j < k + 1 implies (#[trigger] digit_value(digits.take(k + 1)[j])) is Some by {
                        if j < k {
                            assert(digits.take(k + 1)[j] == digits.take(k)[j]);
                        }
                    }
                }
            },
        }
        i = i + 1;
    }
    assert(digits.take(len - start) =~= digits);
    Some(value)
}

/// Checks a port number given on the command line.
pub fn is_port(val: String) -> (r: Result<(), String>)
    ensures
        r is Ok <==> bounded_number(val@, 65535) is Some,
        r matches Err(m) ==> m@ == "Port number must be in range 0 .. 65535, but "@ + val@ + " given"@,
{
    match parse_unsigned(val.as_str(), 65535) {
        Some(_) => Ok(()),
        None => {
            let mut m = "Port number must be in range 0 .. 65535, but ".to_owned();
            m.append(val.as_str());
            m.append(" given");
            Err(m)
        },
    }
}

/// The number of workers that a command-line value gives, if it is an acceptable one.
pub open spec fn n_workers_value(s: Seq<char>) -> Option<nat> {
    match bounded_number(s, 255) {
        Some(n) => if 1 <= n <= 100 {
            Some(n)
        } else {
            None
        },
        None => None,
    }
}

/// Checks a number of workers given on the command line: a `u8` from 1 to 100.
pub fn is_n_workers(val: String) -> (r: Result<(), String>)
    ensures
        r is Ok <==> n_workers_value(val@) is Some,
        r matches Err(m) ==> m@ == "Number of workers must be in range 1 .. 100, but "@ + val@
            + " given"@,
{
    match parse_unsigned(val.as_str(), 255) {
        Some(n) => {
            if n > 0 && n <= 100 {
                return Ok(());
            }
        },
        None => {},
    }
    let mut m = "Number of workers must be in range 1 .. 100, but ".to_owned();
    m.append(val.as_str());
    m.append(" given");
    Err(m)
}

/// Checks that a test suite path given on the command line exists; `exists` tells
/// whether the file system has something at that path.
pub fn is_exists(val: String, exists: bool) -> (r: Result<(), String>)
    ensures
        r is Ok <==> exists,
        r matches Err(m) ==> m@ == "Test suite "@ + val@ + " must exists"@,
{
    if exists {
        Ok(())
    } else {
        let mut m = "Test suite ".to_owned();
        m.append(val.as_str());
        m.append(" must exists");
        Err(m)
    }
}

proof fn lemma_digit_roundtrip(d: int)
    requires
        0 <= d < 10,
    ensures
        digit_value(digit_char(d)) == Some(d),
{
}

proof fn lemma_decimal_digits(n: nat)
    ensures
        decimal(n).len() > 0,
        all_digits(decimal(n)),
        digits_value(decimal(n)) == n,
    decreases n,
{
    lemma_digit_roundtrip((n % 10) as int);
    if n < 10 {
        let s = decimal(n);
        assert(s.drop_last() =~= Seq::<char>::empty());
        assert(digits_value(s.drop_last()) == 0);
        assert(s.last() == digit_char(n as int));
        assert(digit_value(s.last()) == Some(n as int));
        assert(digits_value(s) == n);
    }
    if n >= 10 {
        lemma_decimal_digits(n / 10);
        let s = decimal(n);
        assert(s.drop_last() =~= decimal(n / 10));
        assert(s.last() == digit_char((n % 10) as int));
        assert(digit_value(s.last()) == Some((n % 10) as int));
        assert(digits_value(s) == digits_value(s.drop_last()) * 10 + (n % 10));
        assert((n / 10) * 10 + (n % 10) == n);
        assert forall|j: int| 0 <= j < s.len() implies (#[trigger] digit_value(s[j])) is Some by {
            if j < s.len() - 1 {
                assert(s[j] == decimal(n / 10)[j]);
            }
        }
    }
}

/// Every number prints in decimal as text that reads back as the same number.
pub proof fn lemma_decimal_reads_back(n: nat)
    ensures
        unsigned_number(decimal(n)) == Some(n),
{
    lemma_decimal_digits(n);
    if n >= 10 {
        assert(decimal(n)[0] == decimal(n / 10)[0]);
        lemma_decimal_first_not_plus(n / 10);
    }
}

proof fn lemma_decimal_first_not_plus(n: nat)
    ensures
        decimal(n)[0] != '+',
    decreases n,
{
    if n >= 10 {
        lemma_decimal_first_not_plus(n / 10);
        lemma_decimal_digits(n / 10);
        assert(decimal(n)[0] == decimal(n / 10)[0]);
    }
}

/// Every port number, printed in decimal, passes the port check.
pub proof fn lemma_port_numbers_accepted(port: u16)
    ensures
        bounded_number(decimal(port as nat), 65535) == Some(port as nat),
{
    lemma_decimal_reads_back(port as nat);
}

} // verus!
