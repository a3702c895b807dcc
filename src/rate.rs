//! Fixed-point prices and rates, in millionths of a unit, and their decimal text.
use vstd::prelude::*;
use vstd::string::*;
use crate::text::{digits_of, padded_digits, push_char, push_digits, push_padded};

verus! {

/// One quoted price: a positive amount in millionths of a unit.
pub struct Price {
    micros: u64,
}

impl View for Price {
    type V = nat;

    closed spec fn view(&self) -> nat {
        self.micros as nat
    }
}

impl Price {
    #[verifier::type_invariant]
    spec fn positive(&self) -> bool {
        self.micros > 0
    }

    /// A price of `micros` millionths; none for zero, which is no price.
    pub fn from_micros(micros: u64) -> (r: Option<Price>)
        ensures
            r is Some <==> micros > 0,
            r matches Some(p) ==> p@ == micros,
    {
        if micros > 0 {
            Some(Price { micros })
        } else {
            None
        }
    }

    /// Reads a price text, such as `"7.12340"`, `".5"`, `"+7.1"` or `"1e3"`: see
    /// `parse_micros`. None where the text has another shape (a sign `-`, `inf` or
    /// `NaN` among them), or reads as zero or as more than `u64::MAX` millionths.
    #[verifier::rlimit(50)]
    pub fn parse(text: &str) -> (r: Option<Price>)
        ensures
            r is Some <==> (parse_micros(text@) matches Some(m) && 0 < m <= u64::MAX),
            r matches Some(p) ==> parse_micros(text@) == Some(p@),
    {
        let ghost s = text@;
        let n = text.unicode_len();
        let s0: usize = if n > 0 && text.get_char(0) == '+' {
            1
        } else {
            0
        };
        let we = digit_run_end(text, n, s0);
        let hp = we < n && text.get_char(we) == '.';
        let fs = if hp {
            we + 1
        } else {
            we
        };
        let fe = if hp {
            digit_run_end(text, n, fs)
        } else {
            fs
        };
        let mut digs: Vec<char> = Vec::new();
        push_chars(&mut digs, text, s0, we);
        push_chars(&mut digs, text, fs, fe);
        let ghost d = s.subrange(s0 as int, we as int) + s.subrange(fs as int, fe as int);
        assert(digs@ =~= d);
        if digs.len() == 0 {
            return None;
        }
        let he = fe < n && (text.get_char(fe) == 'e' || text.get_char(fe) == 'E');
        let mut e: i128 = 0;
        let mut end = fe;
        if he {
            let a = fe + 1;
            let esl: usize = if a < n && (text.get_char(a) == '+' || text.get_char(a) == '-') {
                1
            } else {
                0
            };
            let neg = esl == 1 && text.get_char(a) == '-';
            let es = a + esl;
            let ee = digit_run_end(text, n, es);
            if ee == es {
                return None;
            }
            match exponent_value(text, es, ee) {
                None => {
                    return None;
                },
                Some(v) => {
                    e = if neg {
                        -(v as i128)
                    } else {
                        v as i128
                    };
                },
            }
            end = ee;
        }
        if end != n {
            return None;
        }
        let k: i128 = (we - s0) as i128 + 6 + e;
        assert(parse_micros(s) == Some(shifted(d, k as int)));
        match shift_value(&digs, k) {
            Some(v) => Some(Price { micros: v }),
            None => None,
        }
    }

    /// The amount in millionths.
    pub fn micros(&self) -> (r: u64)
        ensures
            r == self@,
            r > 0,
    {
        proof {
            use_type_invariant(self);
        }
        self.micros
    }
}

/// A decimal digit character.
pub open spec fn is_digit(c: char) -> bool {
    '0' <= c && c <= '9'
}

/// The value of a run of decimal digits.
pub open spec fn digits_value(s: Seq<char>) -> nat
    decreases s.len(),
{
    if s.len() == 0 {
        0
    } else {
        digits_value(s.drop_last()) * 10 + (s.last() as u32 - 48) as nat
    }
}

pub open spec fn pow10(n: nat) -> nat
    decreases n,
{
    if n == 0 {
        1
    } else {
        10 * pow10((n - 1) as nat)
    }
}

/// How many digits follow one another from position `i` on.
pub open spec fn digit_run(s: Seq<char>, i: int) -> nat
    decreases s.len() - i,
{
    if 0 <= i < s.len() && is_digit(s[i]) {
        1 + digit_run(s, i + 1)
    } else {
        0
    }
}

/// The digits `d` read with the point after the `k`-th of them (zeros past their
/// end), dropping what stands after the point.
pub open spec fn shifted(d: Seq<char>, k: int) -> nat {
    if k <= 0 {
        0
    } else if k <= d.len() {
        digits_value(d.take(k))
    } else {
        digits_value(d) * pow10((k - d.len()) as nat)
    }
}

/// The value of the `j`-th digit of `d`, zero past the end.
pub open spec fn digit_at(d: Seq<char>, j: int) -> nat {
    if 0 <= j < d.len() {
        (d[j] as u32 - 48) as nat
    } else {
        0
    }
}

/// The amount in millionths that a price text reads as, with digits past the
/// millionths dropped. The text is an optional `+`, then digits with an optional
/// point among or around them (at least one digit), then optionally `e` or `E`,
/// an optional sign and one or more digits. An exponent above a million in size
/// reads as nothing.
pub open spec fn parse_micros(s: Seq<char>) -> Option<nat> {
    let n = s.len() as int;
    let s0: int = if n > 0 && s[0] == '+' {
        1
    } else {
        0
    };
    let we = s0 + digit_run(s, s0);
    let hp = we < n && s[we] == '.';
    let fs = if hp {
        we + 1
    } else {
        we
    };
    let fe = if hp {
        fs + digit_run(s, fs)
    } else {
        fs
    };
    let d = s.subrange(s0, we) + s.subrange(fs, fe);
    let he = fe < n && (s[fe] == 'e' || s[fe] == 'E');
    let a = fe + 1;
    let esl: int = if he && a < n && (s[a] == '+' || s[a] == '-') {
        1
    } else {
        0
    };
    let neg = esl == 1 && s[a] == '-';
    let es = a + esl;
    let ee = es + digit_run(s, es);
    let ev = digits_value(s.subrange(es, ee));
    let end = if he {
        ee
    } else {
        fe
    };
    if d.len() == 0 || (he && ee == es) || end != n || (he && ev > 1_000_000) {
        None
    } else {
        Some(
            shifted(
                d,
                (we - s0) + 6 + if !he {
                    0
                } else if neg {
                    -ev
                } else {
                    ev as int
                },
            ),
        )
    }
}

proof fn lemma_digits_step(s: Seq<char>, i: int)
    requires
        0 <= i < s.len(),
    ensures
        digits_value(s.take(i + 1)) == digits_value(s.take(i)) * 10 + (s[i] as u32 - 48) as nat,
{
    assert(s.take(i + 1).drop_last() =~= s.take(i));
}

proof fn lemma_shift_step(d: Seq<char>, j: int)
    requires
        0 <= j,
    ensures
        shifted(d, j + 1) == shifted(d, j) * 10 + digit_at(d, j),
{
    if j < d.len() {
        lemma_digits_step(d, j);
        assert(d.take(0).len() == 0);
    } else {
        let v = digits_value(d);
        let p = pow10((j - d.len()) as nat);
        assert(pow10((j + 1 - d.len()) as nat) == 10 * p);
        if j == d.len() {
            assert(d.take(j) =~= d);
            assert(p == 1);
            if j == 0 {
                assert(v == 0);
            }
        }
        assert(v * (10 * p) == (v * p) * 10) by (nonlinear_arith);
    }
}

/// `shifted(digs, k)`, where it is a positive amount that fits in `u64`.
fn shift_value(digs: &Vec<char>, k: i128) -> (r: Option<u64>)
    requires
        forall|t: int| 0 <= t < digs@.len() ==> is_digit(#[trigger] digs@[t]),
    ensures
        r is Some <==> 0 < shifted(digs@, k as int) <= u64::MAX,
        r matches Some(v) ==> v == shifted(digs@, k as int),
{
    let ghost d = digs@;
    let mut acc: u128 = 0;
    let mut big = false;
    let mut j: i128 = 0;
    while j < k
        invariant
            0 <= j,
            j <= k || (k <= 0 && j == 0),
            digs@ == d,
            forall|t: int| 0 <= t < d.len() ==> is_digit(#[trigger] d[t]),
            !big ==> acc == shifted(d, j as int) && acc <= 0xffff_ffff_ffff_ffffu128,
            big ==> shifted(d, j as int) > 0xffff_ffff_ffff_ffffu128,
        decreases k - j,
    {
        let dg: u128 = if j < digs.len() as i128 {
            (digs[j as usize] as u32 - 48) as u128
        } else {
            0
        };
        proof {
            lemma_shift_step(d, j as int);
            if j < d.len() {
                assert(is_digit(d[j as int]));
            }
        }
        if !big {
            acc = acc * 10 + dg;
            if acc > 0xffff_ffff_ffff_ffffu128 {
                big = true;
            }
        }
        j = j + 1;
    }
    assert(k <= 0 ==> shifted(d, k as int) == 0);
    assert(k > 0 ==> j == k);
    assert(!big ==> acc == shifted(d, k as int));
    assert(big ==> shifted(d, k as int) > 0xffff_ffff_ffff_ffffu128);
    if big || acc == 0 {
        None
    } else {
        Some(acc as u64)
    }
}

/// The end of the run of digits that starts at `i`.
fn digit_run_end(text: &str, n: usize, i: usize) -> (r: usize)
    requires
        n == text@.len(),
        i <= n,
    ensures
        r == i + digit_run(text@, i as int),
        r <= n,
        forall|t: int| i <= t < r ==> is_digit(#[trigger] text@[t]),
{
    let mut j = i;
    while j < n && ('0' <= text.get_char(j) && text.get_char(j) <= '9')
        invariant
            n == text@.len(),
            i <= j <= n,
            digit_run(text@, i as int) == (j - i) + digit_run(text@, j as int),
            forall|t: int| i <= t < j ==> is_digit(#[trigger] text@[t]),
        decreases n - j,
    {
        j = j + 1;
    }
    j
}

/// Appends the characters of `text` from `a` to `b`.
fn push_chars(v: &mut Vec<char>, text: &str, a: usize, b: usize)
    requires
        a <= b <= text@.len(),
    ensures
        final(v)@ == old(v)@ + text@.subrange(a as int, b as int),
{
    let mut i = a;
    while i < b
        invariant
            a <= i <= b <= text@.len(),
            v@ == old(v)@ + text@.subrange(a as int, i as int),
        decreases b - i,
    {
        v.push(text.get_char(i));
        i = i + 1;
        assert(v@ =~= old(v)@ + text@.subrange(a as int, i as int));
    }
}

/// The value of the digits of `text` from `a` to `b`; none above a million.
fn exponent_value(text: &str, a: usize, b: usize) -> (r: Option<u64>)
    requires
        a <= b <= text@.len(),
        forall|t: int| a <= t < b ==> is_digit(#[trigger] text@[t]),
    ensures
        r matches Some(v) ==> v == digits_value(text@.subrange(a as int, b as int)),
        r is None <==> digits_value(text@.subrange(a as int, b as int)) > 1_000_000,
{
    let ghost u = text@.subrange(a as int, b as int);
    let mut acc: u64 = 0;
    let mut big = false;
    let mut i = a;
    while i < b
        invariant
            a <= i <= b <= text@.len(),
            u == text@.subrange(a as int, b as int),
            forall|t: int| a <= t < b ==> is_digit(#[trigger] text@[t]),
            !big ==> acc == digits_value(u.take(i - a)) && acc <= 1_000_000,
            big ==> digits_value(u.take(i - a)) > 1_000_000,
        decreases b - i,
    {
        proof {
            lemma_digits_step(u, i - a);
            assert(is_digit(text@[i as int]));
            assert(u[i - a] == text@[i as int]);
        }
        if !big {
            acc = acc * 10 + (text.get_char(i) as u32 - 48) as u64;
            if acc > 1_000_000 {
                big = true;
            }
        }
        i = i + 1;
    }
    assert(u.take(b - a) =~= u);
    if big {
        None
    } else {
        Some(acc)
    }
}

/// A rate, such as the quotient of two prices, in millionths.
#[derive(Clone, Copy, Debug, PartialEq, Eq, Structural)]
pub struct Rate {
    pub micros: u128,
}

/// The digits after the point of a fraction `f` of `w` digits, trailing zeros dropped.
pub open spec fn frac_text(f: nat, w: nat) -> Seq<char>
    decreases w,
{
    if w > 0 && f % 10 == 0 {
        frac_text(f / 10, (w - 1) as nat)
    } else {
        padded_digits(f, w)
    }
}

/// The shortest decimal text of `micros` millionths: `"6.5"`, `"0.065"`, `"7"`.
pub open spec fn rate_text(micros: nat) -> Seq<char> {
    let whole = micros / 1_000_000;
    let frac = micros % 1_000_000;
    if frac == 0 {
        digits_of(whole)
    } else {
        digits_of(whole) + seq!['.'] + frac_text(frac, 6)
    }
}

/// The text of `t` thousandths with exactly three decimals: `"6.500"`.
pub open spec fn fixed3_text(t: nat) -> Seq<char> {
    digits_of(t / 1000) + seq!['.'] + padded_digits(t % 1000, 3)
}

impl Rate {
    pub fn from_micros(micros: u128) -> (r: Rate)
        ensures
            r.micros == micros,
    {
        Rate { micros }
    }

    /// Appends the shortest decimal text of the rate.
    pub fn push_text(&self, s: &mut String)
        ensures
            final(s)@ == old(s)@ + rate_text(self.micros as nat),
    {
        let whole = self.micros / 1_000_000;
        let frac = self.micros % 1_000_000;
        push_digits(s, whole);
        if frac != 0 {
            push_char(s, '.');
            let mut f = frac;
            let mut w: u32 = 6;
            while w > 0 && f % 10 == 0
                invariant
                    w <= 6,
                    frac_text(frac as nat, 6) == frac_text(f as nat, w as nat),
                decreases w,
            {
                f = f / 10;
                w = w - 1;
            }
            push_padded(s, f, w);
            assert(final(s)@ =~= old(s)@ + rate_text(self.micros as nat));
        }
    }

    /// The shortest decimal text of the rate.
    pub fn to_text(&self) -> (r: String)
        ensures
            r@ == rate_text(self.micros as nat),
    {
        let mut s = String::new();
        self.push_text(&mut s);
        assert(s@ =~= rate_text(self.micros as nat));
        s
    }
}

/// Appends `t` thousandths with exactly three decimals.
pub fn push_fixed3(s: &mut String, t: u128)
    ensures
        final(s)@ == old(s)@ + fixed3_text(t as nat),
{
    push_digits(s, t / 1000);
    push_char(s, '.');
    push_padded(s, t % 1000, 3);
    assert(final(s)@ =~= old(s)@ + fixed3_text(t as nat));
}

} // verus!
