//! Building text: decimal digits and placeholder substitution.
use vstd::prelude::*;
use vstd::string::*;

verus! {

/// The character of a decimal digit.
pub open spec fn digit_char(d: nat) -> char {
    if d < 10 {
        ((d + 48) as u8) as char
    } else {
        '?'
    }
}

/// Decimal digits of `n`, without leading zeros (`"0"` for zero).
pub open spec fn digits_of(n: nat) -> Seq<char>
    decreases n,
{
    if n < 10 {
        seq![digit_char(n)]
    } else {
        digits_of(n / 10).push(digit_char(n % 10))
    }
}

/// Exactly `width` decimal digits of `n`, with leading zeros, dropping higher digits.
pub open spec fn padded_digits(n: nat, width: nat) -> Seq<char>
    decreases width,
{
    if width == 0 {
        Seq::empty()
    } else {
        padded_digits(n / 10, (width - 1) as nat).push(digit_char(n % 10))
    }
}

/// `"true"` or `"false"`.
pub open spec fn bool_text(b: bool) -> Seq<char> {
    if b {
        seq!['t', 'r', 'u', 'e']
    } else {
        seq!['f', 'a', 'l', 's', 'e']
    }
}

/// Every non-overlapping occurrence of `pat` in `s`, scanned from the left,
/// replaced by `rep`. An empty pattern leaves `s` as it is.
pub open spec fn replace_all(s: Seq<char>, pat: Seq<char>, rep: Seq<char>) -> Seq<char>
    decreases s.len(),
{
    if s.len() == 0 {
        s
    } else if pat.len() > 0 && pat.len() <= s.len() && s.take(pat.len() as int) == pat {
        rep + replace_all(s.skip(pat.len() as int), pat, rep)
    } else {
        seq![s[0]] + replace_all(s.skip(1), pat, rep)
    }
}

/// Relies on `String::push`: appends one character.
#[verifier::external_body]
pub(crate) fn push_char(s: &mut String, c: char)
    ensures
        final(s)@ == old(s)@.push(c),
{
    s.push(c)
}

pub fn digit(d: u128) -> (c: char)
    requires
        d < 10,
    ensures
        c == digit_char(d as nat),
{
    ((d as u8) + 48u8) as char
}

/// Appends the decimal digits of `n`.
pub fn push_digits(s: &mut String, n: u128)
    ensures
        final(s)@ == old(s)@ + digits_of(n as nat),
    decreases n,
{
    if n >= 10 {
        push_digits(s, n / 10);
    }
    push_char(s, digit(n % 10));
    assert(final(s)@ =~= old(s)@ + digits_of(n as nat));
}

/// Appends exactly `width` digits of `n`, with leading zeros.
pub fn push_padded(s: &mut String, n: u128, width: u32)
    ensures
        final(s)@ == old(s)@ + padded_digits(n as nat, width as nat),
    decreases width,
{
    if width > 0 {
        push_padded(s, n / 10, width - 1);
        push_char(s, digit(n % 10));
    }
    assert(final(s)@ =~= old(s)@ + padded_digits(n as nat, width as nat));
}

/// Appends `"true"` or `"false"`.
pub fn push_bool(s: &mut String, b: bool)
    ensures
        final(s)@ == old(s)@ + bool_text(b),
{
    if b {
        push_char(s, 't');
        push_char(s, 'r');
        push_char(s, 'u');
        push_char(s, 'e');
    } else {
        push_char(s, 'f');
        push_char(s, 'a');
        push_char(s, 'l');
        push_char(s, 's');
        push_char(s, 'e');
    }
    assert(final(s)@ =~= old(s)@ + bool_text(b));
}

/// Whether `pat` stands in `s` at character position `i`.
fn matches_at(s: &str, i: usize, pat: &str, p: usize) -> (r: bool)
    requires
        p == pat@.len(),
        i + p <= s@.len(),
        s@.len() <= usize::MAX,
    ensures
        r == (s@.subrange(i as int, i + p) == pat@),
{
    let mut k: usize = 0;
    while k < p
        invariant
            p == pat@.len(),
            i + p <= s@.len(),
            s@.len() <= usize::MAX,
            k <= p,
            forall|j: int| 0 <= j < k ==> s@[i + j] == pat@[j],
        decreases p - k,
    {
        if s.get_char(i + k) != pat.get_char(k) {
            assert(s@.subrange(i as int, i + p)[k as int] != pat@[k as int]);
            return false;
        }
        k = k + 1;
    }
    assert(s@.subrange(i as int, i + p) =~= pat@);
    true
}

/// Replaces every non-overlapping occurrence of `pat` in `s`, from the left, by `rep`.
pub fn replace(s: &str, pat: &str, rep: &str) -> (r: String)
    ensures
        r@ == replace_all(s@, pat@, rep@),
{
    let n = s.unicode_len();
    let p = pat.unicode_len();
    let mut out = String::new();
    let mut i: usize = 0;
    assert(s@.skip(0) =~= s@);
    assert(out@ + replace_all(s@, pat@, rep@) =~= replace_all(s@, pat@, rep@));
    while i < n
        invariant
            n == s@.len(),
            p == pat@.len(),
            i <= n,
            replace_all(s@, pat@, rep@) == out@ + replace_all(s@.skip(i as int), pat@, rep@),
        decreases n - i,
    {
        let ghost t = s@.skip(i as int);
        let ghost before = out@;
        if p > 0 && p <= n - i && matches_at(s, i, pat, p) {
            out.append(rep);
            proof {
                assert(t.take(p as int) =~= s@.subrange(i as int, i + p));
                assert(t.skip(p as int) =~= s@.skip(i + p));
                assert(before + (rep@ + replace_all(t.skip(p as int), pat@, rep@))
                    =~= out@ + replace_all(s@.skip(i + p), pat@, rep@));
            }
            i = i + p;
        } else {
            let c = s.get_char(i);
            push_char(&mut out, c);
            proof {
                if p > 0 && p <= n - i {
                    assert(t.take(p as int) =~= s@.subrange(i as int, i + p));
                }
                assert(t.skip(1) =~= s@.skip(i + 1));
                assert(before + (seq![t[0]] + replace_all(t.skip(1), pat@, rep@))
                    =~= out@ + replace_all(s@.skip(i + 1), pat@, rep@));
            }
            i = i + 1;
        }
    }
    assert(replace_all(s@.skip(n as int), pat@, rep@) =~= Seq::<char>::empty());
    assert(out@ + Seq::<char>::empty() =~= out@);
    out
}

} // verus!
