//! Parsing the process identifier read from a pid file: an optional sign
//! followed by decimal digits, as the standard integer grammar has it.

use vstd::prelude::*;

use crate::text::{trim_of, trim_spec};

verus! {

/// Whether `c` is a decimal digit.
pub open spec fn is_digit(c: char) -> bool {
    48 <= c as u32 <= 57
}

/// Whether every character of `s` is a decimal digit.
pub open spec fn all_digits(s: Seq<char>) -> bool {
    forall|i: int| 0 <= i < s.len() ==> is_digit(s[i])
}

/// The numeric value of the digit string `s`, most significant digit first.
pub open spec fn digits_val(s: Seq<char>) -> int
    decreases s.len(),
{
    if s.len() == 0 {
        0
    } else {
        digits_val(s.drop_last()) * 10 + (s.last() as u32 - 48)
    }
}

/// The value `s` parses to as a signed 32-bit decimal integer: an optional
/// `+` or `-`, then one or more digits, nothing else, and the value in
/// range; `None` otherwise.
pub open spec fn parse_i32_spec(s: Seq<char>) -> Option<i32> {
    if s.len() == 0 {
        None::<i32>
    } else {
        let neg = s[0] == '-';
        let body = if s[0] == '-' || s[0] == '+' {
            s.drop_first()
        } else {
            s
        };
        if body.len() == 0 || !all_digits(body) {
            None::<i32>
        } else {
            let v = digits_val(body);
            if neg {
                if v <= 2147483648 {
                    Some((-v) as i32)
                } else {
                    None::<i32>
                }
            } else {
                if v <= 2147483647 {
                    Some(v as i32)
                } else {
                    None::<i32>
                }
            }
        }
    }
}

proof fn lemma_digits_val_nonneg(s: Seq<char>)
    requires
        all_digits(s),
    ensures
        digits_val(s) >= 0,
    decreases s.len(),
{
    if s.len() > 0 {
        assert(all_digits(s.drop_last()));
        lemma_digits_val_nonneg(s.drop_last());
    }
}

proof fn lemma_digits_val_prefix(s: Seq<char>, k: int)
    requires
        all_digits(s),
        0 <= k <= s.len(),
    ensures
        digits_val(s.take(k)) <= digits_val(s),
    decreases s.len() - k,
{
    if k == s.len() {
        assert(s.take(k) =~= s);
    } else {
        let t = s.take(k + 1);
        assert(t.drop_last() =~= s.take(k));
        assert(all_digits(s.take(k)));
        lemma_digits_val_nonneg(s.take(k));
        assert(digits_val(t) == digits_val(s.take(k)) * 10 + (s[k] as u32 - 48));
        lemma_digits_val_prefix(s, k + 1);
    }
}

/// Parses the trimmed `s` as a signed 32-bit decimal integer, as a pid file
/// holds one.
pub fn parse_pid(s: &str) -> (r: Option<i32>)
    ensures
        r == parse_i32_spec(trim_spec(s@)),
{
    let t = trim_of(s);
    let ts = t.as_str();
    let n = ts.unicode_len();
    if n == 0 {
        return None;
    }
    let c0 = ts.get_char(0);
    let neg = c0 == '-';
    let start: usize = if c0 == '-' || c0 == '+' {
        1
    } else {
        0
    };
    let ghost body = if c0 == '-' || c0 == '+' {
        t@.drop_first()
    } else {
        t@
    };
    proof {
        assert(body =~= t@.subrange(start as int, n as int));
    }
    if start == n {
        return None;
    }
    let limit: u64 = if neg {
        2147483648
    } else {
        2147483647
    };
    let mut acc: u64 = 0;
    let mut i: usize = start;
    proof {
        assert(body.take(0) =~= Seq::<char>::empty());
    }
    while i < n
        invariant
            start <= i <= n,
            t@ == trim_spec(s@),
            ts@ == t@,
            n == t@.len(),
            n > 0,
            start < n,
            start == (if t@[0] == '-' || t@[0] == '+' {
                1usize
            } else {
                0usize
            }),
            neg == (t@[0] == '-'),
            body == (if t@[0] == '-' || t@[0] == '+' {
                t@.drop_first()
            } else {
                t@
            }),
            body == t@.subrange(start as int, n as int),
            limit == (if neg {
                2147483648u64
            } else {
                2147483647u64
            }),
            all_digits(body.take(i - start)),
            acc == digits_val(body.take(i - start)),
            acc <= limit,
        decreases n - i,
    {
        let c = ts.get_char(i);
        let cv = c as u32;
        if cv < 48 || cv > 57 {
            proof {
                assert(body[i - start] == c);
                assert(!is_digit(body[i - start]));
                assert(!all_digits(body));
            }
            return None;
        }
        let d = cv - 48;
        acc = acc * 10 + d as u64;
        proof {
            let k = i - start;
            assert(body.take(k + 1).drop_last() =~= body.take(k as int));
            assert(body.take(k + 1).last() == body[k as int]);
            assert(body[k as int] == c);
            assert(acc == digits_val(body.take(k + 1)));
            assert(all_digits(body.take(k + 1)));
        }
        if acc > limit {
            proof {
                if all_digits(body) {
                    lemma_digits_val_prefix(body, i as int - start + 1);
                    assert(body.take(n as int - start as int) =~= body);
                    assert(digits_val(body) >= acc);
                }
            }
            return None;
        }
        i = i + 1;
    }
    proof {
        assert(body.take(n as int - start as int) =~= body);
        assert(all_digits(body));
        assert(acc == digits_val(body));
    }
    if neg {
        let v: i64 = -(acc as i64);
        proof {
            assert(-2147483648 <= v <= 2147483647);
        }
        Some(v as i32)
    } else {
        Some(acc as i32)
    }
}

} // verus!
