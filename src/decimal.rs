//! Decimal renderings of unsigned integers, as character sequences and as
//! exec `String`s, with the value a digit sequence denotes.
use vstd::prelude::*;

verus! {

/// The ASCII character of the decimal digit `d` (`d < 10`).
pub open spec fn digit_char(d: nat) -> char {
    seq!['0', '1', '2', '3', '4', '5', '6', '7', '8', '9'][d as int]
}

/// The numeric value of a decimal digit character.
pub open spec fn char_value(c: char) -> nat {
    if c == '1' { 1 }
    else if c == '2' { 2 }
    else if c == '3' { 3 }
    else if c == '4' { 4 }
    else if c == '5' { 5 }
    else if c == '6' { 6 }
    else if c == '7' { 7 }
    else if c == '8' { 8 }
    else if c == '9' { 9 }
    else { 0 }
}

/// Ten to the power `w`.
pub open spec fn pow10(w: nat) -> nat
    decreases w,
{
    if w == 0 { 1 } else { 10 * pow10((w - 1) as nat) }
}

/// The `w` lowest decimal digits of `n`, most significant first, zero-padded
/// on the left: the `{:0w}` rendering of `n` whenever `n < 10^w`.
pub open spec fn padded(n: nat, w: nat) -> Seq<char>
    decreases w,
{
    if w == 0 {
        Seq::empty()
    } else {
        padded(n / 10, (w - 1) as nat).push(digit_char(n % 10))
    }
}

/// The shortest decimal rendering of `n` (`"0"` for zero).
pub open spec fn decimal(n: nat) -> Seq<char>
    decreases n,
{
    if n < 10 {
        seq![digit_char(n)]
    } else {
        decimal(n / 10).push(digit_char(n % 10))
    }
}

/// The number that a sequence of decimal digits denotes.
pub open spec fn value_of(s: Seq<char>) -> nat
    decreases s.len(),
{
    if s.len() == 0 {
        0
    } else {
        value_of(s.drop_last()) * 10 + char_value(s.last())
    }
}

/// Every character of `s` is a decimal digit.
pub open spec fn all_digits(s: Seq<char>) -> bool {
    forall|i: int| 0 <= i < s.len() ==> #[trigger] is_digit(s[i])
}

/// `c` is one of `'0'` to `'9'`.
pub open spec fn is_digit(c: char) -> bool {
    '0' <= c && c <= '9'
}

pub proof fn lemma_digit_char(d: nat)
    requires
        d < 10,
    ensures
        char_value(digit_char(d)) == d,
        is_digit(digit_char(d)),
{
}

/// A padded rendering has exactly the requested width and holds digits only.
pub proof fn lemma_padded_shape(n: nat, w: nat)
    ensures
        padded(n, w).len() == w,
        all_digits(padded(n, w)),
    decreases w,
{
    if w > 0 {
        lemma_padded_shape(n / 10, (w - 1) as nat);
        lemma_digit_char(n % 10);
        let p = padded(n, w);
        assert forall|i: int| 0 <= i < p.len() implies #[trigger] is_digit(p[i]) by {
            if i < w - 1 {
                assert(p[i] == padded(n / 10, (w - 1) as nat)[i]);
            }
        }
    }
}

/// Reading back a padded rendering gives the number, when it fits the width.
pub proof fn lemma_padded_value(n: nat, w: nat)
    requires
        n < pow10(w),
    ensures
        value_of(padded(n, w)) == n,
    decreases w,
{
    if w > 0 {
        let p = padded(n, w);
        assert(p.drop_last() == padded(n / 10, (w - 1) as nat));
        lemma_padded_value(n / 10, (w - 1) as nat);
        lemma_digit_char(n % 10);
    } else {
        assert(n == 0);
    }
}

/// The value of a concatenation: the left part shifted by the right part's width.
pub proof fn lemma_value_concat(s: Seq<char>, t: Seq<char>)
    ensures
        value_of(s + t) == value_of(s) * pow10(t.len()) + value_of(t),
    decreases t.len(),
{
    if t.len() == 0 {
        assert(s + t == s);
        assert(value_of(t) == 0);
        assert(pow10(t.len()) == 1);
        assert(value_of(s) * 1 == value_of(s));
    } else {
        let u = t.drop_last();
        assert((s + t).drop_last() == s + u);
        assert((s + t).last() == t.last());
        lemma_value_concat(s, u);
        let vs = value_of(s);
        let vu = value_of(u);
        let p = pow10(u.len());
        assert(pow10(t.len()) == 10 * p);
        assert(value_of(t) == vu * 10 + char_value(t.last()));
        assert(value_of(s + t) == value_of(s + u) * 10 + char_value(t.last()));
        let q = pow10(t.len());
        assert((vs * p + vu) * 10 == vs * q + vu * 10) by (nonlinear_arith)
            requires
                q == 10 * p,
        ;
    }
}

/// The one-character literal of the digit `d`.
fn digit_str(d: u64) -> (r: &'static str)
    requires
        d < 10,
    ensures
        r@ == seq![digit_char(d as nat)],
{
    proof {
        reveal_strlit("0");
        reveal_strlit("1");
        reveal_strlit("2");
        reveal_strlit("3");
        reveal_strlit("4");
        reveal_strlit("5");
        reveal_strlit("6");
        reveal_strlit("7");
        reveal_strlit("8");
        reveal_strlit("9");
    }
    match d {
        0 => "0",
        1 => "1",
        2 => "2",
        3 => "3",
        4 => "4",
        5 => "5",
        6 => "6",
        7 => "7",
        8 => "8",
        _ => "9",
    }
}

/// Appends the `width` lowest decimal digits of `n`, zero-padded.
pub fn push_padded(s: &mut String, n: u64, width: usize)
    ensures
        final(s)@ == old(s)@ + padded(n as nat, width as nat),
    decreases width,
{
    if width > 0 {
        push_padded(s, n / 10, width - 1);
        s.append(digit_str(n % 10));
        proof {
            assert(padded(n as nat, width as nat) == padded(
                (n / 10) as nat,
                (width - 1) as nat,
            ).push(digit_char((n % 10) as nat)));
        }
    }
}

/// Appends the shortest decimal rendering of `n`.
pub fn push_decimal(s: &mut String, n: u64)
    ensures
        final(s)@ == old(s)@ + decimal(n as nat),
    decreases n,
{
    if n >= 10 {
        push_decimal(s, n / 10);
    }
    s.append(digit_str(n % 10));
    proof {
        if n < 10 {
            assert(n % 10 == n);
        }
    }
}

} // verus!
