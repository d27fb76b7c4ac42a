use vstd::prelude::*;

verus! {

/// The character for one decimal digit value.
pub open spec fn decimal_digit(d: int) -> char {
    if d == 0 {
        '0'
    } else if d == 1 {
        '1'
    } else if d == 2 {
        '2'
    } else if d == 3 {
        '3'
    } else if d == 4 {
        '4'
    } else if d == 5 {
        '5'
    } else if d == 6 {
        '6'
    } else if d == 7 {
        '7'
    } else if d == 8 {
        '8'
    } else {
        '9'
    }
}

/// The decimal rendering of a non-negative number, most significant digit
/// first, with no leading zeros except for the number 0 itself.
pub open spec fn decimal_of(n: int) -> Seq<char>
    decreases n,
{
    if n < 10 {
        seq![decimal_digit(n)]
    } else {
        decimal_of(n / 10).push(decimal_digit(n % 10))
    }
}

fn digit_str(d: u8) -> (r: &'static str)
    requires
        d < 10,
    ensures
        r@ =~= seq![decimal_digit(d as int)],
{
    let r: &'static str = match d {
        0 => "0",
        1 => "1",
        2 => "2",
        3 => "3",
        4 => "4",
        5 => "5",
        6 => "6",
        7 => "7",
        8 => "8",
        _ => "9",
    };
    proof {
        reveal_strlit("0");
        reveal_strlit("1");
        reveal_strlit("2");
        reveal_strlit("3");
        reveal_strlit("4");
        reveal_strlit("5");
        reveal_strlit("6");
        reveal_strlit("7");
        reveal_strlit("8");
        reveal_strlit("9");
    }
    r
}

/// Renders a day-of-month (or any small count) in decimal.
pub fn u8_to_string(n: u8) -> (r: String)
    ensures
        r@ == decimal_of(n as int),
{
    if n >= 100 {
        let r = digit_str(n / 100).to_owned().concat(digit_str((n / 10) % 10)).concat(
            digit_str(n % 10),
        );
        proof {
            assert(n as int / 10 / 10 == n as int / 100) by (nonlinear_arith);
            assert(n as int / 10 % 10 == (n as int / 10) % 10);
            assert(decimal_of(n as int) == decimal_of(n as int / 10).push(
                decimal_digit(n as int % 10),
            ));
            assert(decimal_of(n as int / 10) == decimal_of(n as int / 100).push(
                decimal_digit(n as int / 10 % 10),
            ));
            assert(decimal_of(n as int / 100) == seq![decimal_digit(n as int / 100)]);
            assert(r@ =~= decimal_of(n as int));
        }
        r
    } else if n >= 10 {
        let r = digit_str(n / 10).to_owned().concat(digit_str(n % 10));
        proof {
            assert(decimal_of(n as int) == decimal_of(n as int / 10).push(
                decimal_digit(n as int % 10),
            ));
            assert(decimal_of(n as int / 10) == seq![decimal_digit(n as int / 10)]);
            assert(r@ =~= decimal_of(n as int));
        }
        r
    } else {
        let r = digit_str(n).to_owned();
        proof {
            assert(r@ =~= decimal_of(n as int));
        }
        r
    }
}

/// Whether a character is a decimal digit.
pub open spec fn spec_is_digit(c: char) -> bool {
    48 <= c as int <= 57
}

/// The numeric value of a digit character.
pub open spec fn digit_value(c: char) -> int {
    c as int - 48
}

/// The value of a run of digit characters read in base ten.
pub open spec fn digits_value(s: Seq<char>) -> int
    decreases s.len(),
{
    if s.len() == 0 {
        0
    } else {
        digits_value(s.drop_last()) * 10 + digit_value(s.last())
    }
}

pub open spec fn all_digits(s: Seq<char>) -> bool {
    forall|i: int| 0 <= i < s.len() ==> spec_is_digit(#[trigger] s[i])
}

/// What parsing a whole character sequence as a signed 32-bit number yields:
/// an optional sign, then at least one digit and nothing else, with the value
/// in range; anything else yields nothing.
pub open spec fn spec_parse_i32(s: Seq<char>) -> Option<i32> {
    let neg = s.len() > 0 && s[0] == '-';
    let signed = s.len() > 0 && (s[0] == '-' || s[0] == '+');
    let ds = if signed {
        s.subrange(1, s.len() as int)
    } else {
        s
    };
    if ds.len() > 0 && all_digits(ds) {
        let v = if neg {
            -digits_value(ds)
        } else {
            digits_value(ds)
        };
        if i32::MIN <= v <= i32::MAX {
            Some(v as i32)
        } else {
            None
        }
    } else {
        None
    }
}

proof fn lemma_digits_value_nonneg(s: Seq<char>)
    requires
        all_digits(s),
    ensures
        digits_value(s) >= 0,
    decreases s.len(),
{
    if s.len() > 0 {
        assert(all_digits(s.drop_last())) by {
            assert(forall|i: int|
                0 <= i < s.len() - 1 ==> #[trigger] s.drop_last()[i] == s[i]);
        }
        lemma_digits_value_nonneg(s.drop_last());
    }
}

/// Appending further digits never shrinks the value read so far.
proof fn lemma_digits_value_monotone(s: Seq<char>, k: int)
    requires
        all_digits(s),
        0 <= k <= s.len(),
    ensures
        digits_value(s) >= digits_value(s.subrange(0, k)),
    decreases s.len() - k,
{
    if k < s.len() {
        lemma_digits_value_monotone(s, k + 1);
        let p = s.subrange(0, k);
        let q = s.subrange(0, k + 1);
        assert(q.drop_last() =~= p);
        assert(all_digits(p)) by {
            assert(forall|i: int| 0 <= i < k ==> #[trigger] p[i] == s[i]);
        }
        lemma_digits_value_nonneg(p);
        assert(digits_value(q) == digits_value(p) * 10 + digit_value(s[k]));
        assert(digits_value(p) * 10 >= digits_value(p)) by (nonlinear_arith)
            requires
                digits_value(p) >= 0,
        ;
        assert(spec_is_digit(s[k]));
    } else {
        assert(s.subrange(0, k) =~= s);
    }
}

/// Parses a whole string as a signed 32-bit number, as the year labels of the
/// picker are parsed.
pub fn parse_i32(s: &str) -> (r: Option<i32>)
    ensures
        r == spec_parse_i32(s@),
{
    let n = s.unicode_len();
    let ghost view = s@;
    let mut start: usize = 0;
    let mut neg = false;
    if n > 0 {
        let c0 = s.get_char(0);
        if c0 == '-' {
            neg = true;
            start = 1;
        } else if c0 == '+' {
            start = 1;
        }
    }
    let ghost ds = if start == 1 {
        view.subrange(1, view.len() as int)
    } else {
        view
    };
    if start >= n {
        // empty input, or a sign with nothing after it
        assert(ds.len() == 0);
        return None;
    }
    let mut acc: i64 = 0;
    let mut i: usize = start;
    while i < n
        invariant
            view == s@,
            start <= i <= n,
            n == view.len(),
            start == 1 ==> ds == view.subrange(1, view.len() as int),
            start == 0 ==> ds == view,
            start <= 1,
            start == 1 <==> view.len() > 0 && (view[0] == '-' || view[0] == '+'),
            neg <==> view.len() > 0 && view[0] == '-',
            acc == digits_value(view.subrange(start as int, i as int)),
            all_digits(view.subrange(start as int, i as int)),
            0 <= acc <= 2147483648,
        decreases n - i,
    {
        let c = s.get_char(i);
        let u = c as u32;
        if u < 48 || u > 57 {
            proof {
                let full = view.subrange(start as int, view.len() as int);
                assert(ds =~= full);
                assert(full[i - start] == view[i as int]);
                assert(!spec_is_digit(full[i - start]));
                assert(!all_digits(full));
                assert(spec_parse_i32(view) is None);
            }
            return None;
        }
        let d = (u - 48) as i64;
        proof {
            let p = view.subrange(start as int, i as int);
            let q = view.subrange(start as int, i + 1);
            assert(q.drop_last() =~= p);
            assert(q.last() == view[i as int]);
            assert(digit_value(view[i as int]) == d);
            assert(digits_value(q) == acc * 10 + d);
            assert(all_digits(q)) by {
                assert(forall|j: int| 0 <= j < q.len() - 1 ==> #[trigger] q[j] == p[j]);
                assert(spec_is_digit(q[q.len() - 1]));
            }
        }
        acc = acc * 10 + d;
        i += 1;
        if acc > 2147483648 {
            proof {
                let pnow = view.subrange(start as int, i as int);
                let full = view.subrange(start as int, view.len() as int);
                assert(ds =~= full);
                assert(acc == digits_value(pnow));
                if all_digits(full) {
                    assert(pnow =~= full.subrange(0, i - start));
                    lemma_digits_value_monotone(full, i - start);
                    assert(digits_value(full) >= acc);
                    assert(spec_parse_i32(view) is None);
                } else {
                    assert(spec_parse_i32(view) is None);
                }
            }
            return None;
        }
    }
    proof {
        let full = view.subrange(start as int, view.len() as int);
        assert(full =~= view.subrange(start as int, i as int));
        assert(ds =~= full);
        assert(acc == digits_value(ds));
        assert(all_digits(ds));
        assert(ds.len() > 0);
    }
    if neg {
        // the magnitude 2147483648 is still representable as a negative number
        Some((-acc) as i32)
    } else {
        if acc <= 2147483647 {
            Some(acc as i32)
        } else {
            None
        }
    }
}

} // verus!
