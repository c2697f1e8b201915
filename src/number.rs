use vstd::prelude::*;
use crate::text::chars_of;

verus! {

/// Whether `c` is one of the ASCII digits.
pub open spec fn is_digit(c: char) -> bool {
    '0' <= c && c <= '9'
}

pub open spec fn all_digits(s: Seq<char>) -> bool {
    forall|i: int| 0 <= i < s.len() ==> is_digit(#[trigger] s[i])
}

/// The value of a string of decimal digits.
pub open spec fn digits_value(s: Seq<char>) -> int
    decreases s.len(),
{
    if s.len() == 0 {
        0
    } else {
        digits_value(s.drop_last()) * 10 + (s.last() as int - '0' as int)
    }
}

/// `s` without the one sign character that may lead it.
pub open spec fn unsigned_part(s: Seq<char>) -> Seq<char> {
    if s.len() > 0 && (s[0] == '+' || s[0] == '-') {
        s.drop_first()
    } else {
        s
    }
}

/// A points value: digits, with an optional leading `+`, that fit in a `u64`.
pub open spec fn points_of(s: Seq<char>) -> Option<u64> {
    let d = if s.len() > 0 && s[0] == '+' { s.drop_first() } else { s };
    if d.len() > 0 && all_digits(d) && digits_value(d) <= u64::MAX {
        Some(digits_value(d) as u64)
    } else {
        None
    }
}

/// The weight of the last of `n` fractional digits, in thousandths.
pub open spec fn fraction_scale(n: int) -> int {
    if n == 0 {
        1000
    } else if n == 1 {
        100
    } else if n == 2 {
        10
    } else {
        1
    }
}

/// The fractional digits that count: the first three.
pub open spec fn first_three(f: Seq<char>) -> Seq<char> {
    if f.len() <= 3 {
        f
    } else {
        f.take(3)
    }
}

/// An unsigned decimal number in thousandths: digits, then optionally a dot
/// and more digits, with at least one digit in all. Fractional digits after
/// the third are dropped: the value is truncated to whole thousandths.
pub open spec fn unsigned_thousandths(s: Seq<char>) -> Option<int> {
    if exists|k: int| 0 <= k < s.len() && s[k] == '.' {
        let k = choose|k: int| 0 <= k < s.len() && s[k] == '.';
        let w = s.take(k);
        let f = s.skip(k + 1);
        let f3 = first_three(f);
        if all_digits(w) && all_digits(f) && w.len() + f.len() > 0 {
            Some(digits_value(w) * 1000 + digits_value(f3) * fraction_scale(f3.len() as int))
        } else {
            None
        }
    } else if s.len() > 0 && all_digits(s) {
        Some(digits_value(s) * 1000)
    } else {
        None
    }
}

/// A signed decimal number in thousandths, where it fits in an `i64`.
pub open spec fn thousandths_of(s: Seq<char>) -> Option<i64> {
    match unsigned_thousandths(unsigned_part(s)) {
        Some(v) => {
            let x = if s.len() > 0 && s[0] == '-' { -v } else { v };
            if i64::MIN <= x <= i64::MAX {
                Some(x as i64)
            } else {
                None
            }
        },
        None => None,
    }
}

proof fn lemma_digits_value_take(s: Seq<char>, i: int)
    requires
        0 <= i < s.len(),
    ensures
        digits_value(s.take(i + 1)) == digits_value(s.take(i)) * 10 + (s[i] as int - '0' as int),
{
    assert(s.take(i + 1).drop_last() =~= s.take(i));
}

proof fn lemma_digits_value_nonneg(s: Seq<char>)
    requires
        all_digits(s),
    ensures
        digits_value(s) >= 0,
    decreases s.len(),
{
    if s.len() > 0 {
        assert(is_digit(s[s.len() - 1]));
        lemma_digits_value_nonneg(s.drop_last());
    }
}

proof fn lemma_digits_value_grows(s: Seq<char>, i: int, j: int)
    requires
        0 <= i <= j <= s.len(),
        all_digits(s),
    ensures
        digits_value(s.take(i)) <= digits_value(s.take(j)),
    decreases j - i,
{
    if i < j {
        lemma_digits_value_grows(s, i, j - 1);
        lemma_digits_value_take(s, j - 1);
        lemma_digits_value_nonneg(s.take(j - 1));
        assert(is_digit(s[j - 1]));
    }
}

/// The value of the digits `s[lo..hi]`, or `None` where a character there is
/// no digit or the value does not fit in a `u64`.
fn digits_in(s: &Vec<char>, lo: usize, hi: usize) -> (r: Option<u64>)
    requires
        lo <= hi <= s.len(),
    ensures
        ({
            let d = s@.subrange(lo as int, hi as int);
            r == if all_digits(d) && digits_value(d) <= u64::MAX {
                Some(digits_value(d) as u64)
            } else {
                None
            }
        }),
        r matches Some(v) ==> v == digits_value(s@.subrange(lo as int, hi as int)),
{
    let ghost d = s@.subrange(lo as int, hi as int);
    let mut acc: u64 = 0;
    let mut i: usize = lo;
    assert(d.take(0) =~= Seq::<char>::empty());
    while i < hi
        invariant
            lo <= i <= hi <= s.len(),
            d == s@.subrange(lo as int, hi as int),
            all_digits(d.take(i - lo)),
            acc == digits_value(d.take(i - lo)),
        decreases hi - i,
    {
        let c = s[i];
        proof {
            lemma_digits_value_take(d, i - lo);
        }
        if !('0' <= c && c <= '9') {
            assert(!all_digits(d)) by {
                assert(!is_digit(d[i - lo]));
            }
            return None;
        }
        let dv = (c as u32 - '0' as u32) as u64;
        if acc > (u64::MAX - dv) / 10 {
            proof {
                assert(all_digits(d.take(i - lo + 1))) by {
                    assert forall|k: int| 0 <= k < i - lo + 1 implies is_digit(
                        #[trigger] d.take(i - lo + 1)[k],
                    ) by {
                        if k < i - lo {
                            assert(d.take(i - lo + 1)[k] == d.take(i - lo)[k]);
                        }
                    }
                }
                assert(digits_value(d.take(i - lo + 1)) > u64::MAX) by (nonlinear_arith)
                    requires
                        acc > (u64::MAX - dv) / 10,
                        digits_value(d.take(i - lo + 1)) == acc * 10 + dv,
                        dv <= 9,
                ;
                if all_digits(d) {
                    lemma_digits_value_grows(d, i - lo + 1, d.len() as int);
                    assert(d.take(d.len() as int) =~= d);
                }
            }
            return None;
        }
        acc = acc * 10 + dv;
        i = i + 1;
        proof {
            assert forall|k: int| 0 <= k < i - lo implies is_digit(#[trigger] d.take(i - lo)[k]) by {
                if k < i - lo - 1 {
                    assert(d.take(i - lo)[k] == d.take(i - lo - 1)[k]);
                }
            }
        }
    }
    assert(d.take(hi - lo) =~= d);
    proof {
        lemma_digits_value_nonneg(d);
    }
    Some(acc)
}

/// Whether every character of `s[lo..hi]` is a digit.
fn all_digits_in(s: &Vec<char>, lo: usize, hi: usize) -> (r: bool)
    requires
        lo <= hi <= s.len(),
    ensures
        r == all_digits(s@.subrange(lo as int, hi as int)),
{
    let mut i: usize = lo;
    while i < hi
        invariant
            lo <= i <= hi <= s.len(),
            forall|j: int| lo <= j < i ==> is_digit(#[trigger] s@[j]),
        decreases hi - i,
    {
        if !('0' <= s[i] && s[i] <= '9') {
            assert(!is_digit(s@.subrange(lo as int, hi as int)[i - lo]));
            return false;
        }
        i = i + 1;
    }
    assert forall|j: int| 0 <= j < hi - lo implies is_digit(
        #[trigger] s@.subrange(lo as int, hi as int)[j],
    ) by {
        assert(s@.subrange(lo as int, hi as int)[j] == s@[lo + j]);
    }
    true
}

/// Reads a points value.
pub fn parse_points(text: &str) -> (r: Option<u64>)
    ensures
        r == points_of(text@),
{
    let c = chars_of(text);
    let start: usize = if c.len() > 0 && c[0] == '+' { 1 } else { 0 };
    proof {
        let d = if c@.len() > 0 && c@[0] == '+' { c@.drop_first() } else { c@ };
        assert(d =~= c@.subrange(start as int, c@.len() as int));
    }
    if start == c.len() {
        return None;
    }
    digits_in(&c, start, c.len())
}

/// Index of the first dot in `s[lo..]`, or the length of `s` when there is none.
fn first_dot(s: &Vec<char>, lo: usize) -> (k: usize)
    requires
        lo <= s.len(),
    ensures
        lo <= k <= s.len(),
        k < s.len() ==> s@[k as int] == '.',
        forall|i: int| lo <= i < k ==> s@[i] != '.',
{
    let mut k: usize = lo;
    while k < s.len() && s[k] != '.'
        invariant
            lo <= k <= s.len(),
            forall|i: int| lo <= i < k ==> s@[i] != '.',
        decreases s.len() - k,
    {
        k = k + 1;
    }
    k
}

/// The magnitude of the unsigned number `s[start..]` whose first dot is at
/// `k`; `None` where it is malformed or its value exceeds a `u64`.
#[verifier::spinoff_prover]
#[verifier::rlimit(40)]
fn dotted_magnitude(c: &Vec<char>, start: usize, k: usize) -> (r: Option<i128>)
    requires
        start <= k < c.len(),
        c@[k as int] == '.',
        forall|i: int| start <= i < k ==> c@[i] != '.',
    ensures
        ({
            let u = c@.subrange(start as int, c.len() as int);
            match r {
                Some(m) => unsigned_thousandths(u) == Some(m as int),
                None => unsigned_thousandths(u) is None || unsigned_thousandths(u)->0 > u64::MAX,
            }
        }),
        r matches Some(m) ==> 0 <= m <= u64::MAX as i128 * 2000,
{
    let n = c.len();
    let ghost u = c@.subrange(start as int, n as int);
    let ghost kk = k - start;
    assert(u[kk] == '.');
    let ghost w_s = u.take(kk);
    let ghost f_s = u.skip(kk + 1);
    assert(w_s =~= c@.subrange(start as int, k as int));
    assert(f_s =~= c@.subrange(k + 1, n as int));
    let flen = n - k - 1;
    let fcut: usize = if flen <= 3 { flen } else { 3 };
    let ghost f3 = first_three(f_s);
    assert(f3 =~= c@.subrange(k + 1, k + 1 + fcut));
    let wv = digits_in(&c, start, k);
    let fv = digits_in(&c, k + 1, k + 1 + fcut);
    let rest = all_digits_in(&c, k + 1 + fcut, n);
    proof {
        if all_digits(f_s) {
            assert forall|j: int| 0 <= j < f3.len() implies is_digit(#[trigger] f3[j]) by {
                assert(f3[j] == f_s[j]);
            }
            assert forall|j: int| k + 1 + fcut <= j < n implies is_digit(#[trigger] c@[j]) by {
                assert(c@[j] == f_s[j - k - 1]);
            }
            assert(all_digits(c@.subrange(k + 1 + fcut, n as int)));
        }
        if all_digits(f3) && all_digits(c@.subrange(k + 1 + fcut, n as int)) {
            assert forall|j: int| 0 <= j < f_s.len() implies is_digit(#[trigger] f_s[j]) by {
                if j < fcut {
                    assert(f_s[j] == f3[j]);
                } else {
                    assert(f_s[j] == c@.subrange(k + 1 + fcut, n as int)[j - fcut]);
                }
            }
        }
    }
    let ok = match (wv, fv) {
        (Some(_), Some(_)) => rest && k - start + flen > 0,
        _ => false,
    };
    let ghost ch = choose|j: int| 0 <= j < u.len() && u[j] == '.';
    proof {
        if ch != kk {
            // a second dot leaves digits on neither side of the first
            assert(ch > kk);
            if all_digits(u.take(ch)) {
                assert(u.take(ch)[kk] == '.');
            }
            if all_digits(f_s) {
                assert(f_s[ch - kk - 1] == '.');
            }
        }
    }
    if !ok {
        proof {
            if ch == kk && all_digits(w_s) && all_digits(f_s) && w_s.len() + f_s.len() > 0 {
                // a part too long for a u64 puts the number out of range
                lemma_digits_value_nonneg(w_s);
                lemma_digits_value_nonneg(f3);
                assert(digits_value(w_s) * 1000 + digits_value(f3) * fraction_scale(
                    f3.len() as int,
                ) > u64::MAX) by (nonlinear_arith)
                    requires
                        digits_value(w_s) > u64::MAX || digits_value(f3) > u64::MAX,
                        digits_value(w_s) >= 0,
                        digits_value(f3) >= 0,
                        fraction_scale(f3.len() as int) >= 1,
                ;
            }
        }
        return None;
    }
    let w = wv.unwrap();
    let f = fv.unwrap();
    let scale: i128 = if fcut == 0 {
        1000
    } else if fcut == 1 {
        100
    } else if fcut == 2 {
        10
    } else {
        1
    };
    proof {
        if ch != kk {
            assert(f_s[ch - kk - 1] == '.');
            assert(false);
        }
    }
    assert(ch == kk);
    assert(w == digits_value(w_s));
    assert(f == digits_value(f3));
    assert(scale == fraction_scale(f3.len() as int));
    proof {
        assert(w as i128 * 1000 + f as i128 * scale <= u64::MAX as i128 * 2000) by (nonlinear_arith)
            requires
                w <= u64::MAX,
                f <= u64::MAX,
                0 <= scale <= 1000,
        ;
    }
    let magnitude = w as i128 * 1000 + f as i128 * scale;
    assert(unsigned_thousandths(u) == Some(magnitude as int));
    Some(magnitude)
}

/// Reads a decimal number, such as `-12.25`, in thousandths, dropping
/// fractional digits after the third.
pub fn parse_thousandths(text: &str) -> (r: Option<i64>)
    ensures
        r == thousandths_of(text@),
{
    let c = chars_of(text);
    let n = c.len();
    let negative = n > 0 && c[0] == '-';
    let start: usize = if n > 0 && (c[0] == '+' || c[0] == '-') { 1 } else { 0 };
    let ghost u = unsigned_part(c@);
    assert(u =~= c@.subrange(start as int, n as int));
    let k = first_dot(&c, start);
    let magnitude: i128;
    if k == n {
        assert(!exists|j: int| 0 <= j < u.len() && u[j] == '.') by {
            assert forall|j: int| 0 <= j < u.len() implies u[j] != '.' by {
                assert(u[j] == c@[start + j]);
            }
        }
        if start == n {
            return None;
        }
        match digits_in(&c, start, n) {
            Some(w) => {
                magnitude = w as i128 * 1000;
                assert(u.len() > 0);
                assert(all_digits(u));
                assert(w == digits_value(u));
                assert(unsigned_thousandths(u) == Some(magnitude as int));
            },
            None => {
                proof {
                    if all_digits(u) && u.len() > 0 {
                        assert(digits_value(u) * 1000 > u64::MAX) by (nonlinear_arith)
                            requires
                                digits_value(u) > u64::MAX,
                        ;
                    }
                }
                return None;
            },
        }
    } else {
        match dotted_magnitude(&c, start, k) {
            Some(m) => {
                magnitude = m;
            },
            None => {
                return None;
            },
        }
    }
    let x: i128 = if negative { -magnitude } else { magnitude };
    if x < i64::MIN as i128 || x > i64::MAX as i128 {
        return None;
    }
    Some(x as i64)
}

} // verus!
