//! Numbers as text: digits in a base from 2 to 16, padded with zeros to a
//! minimum width, appended to a `String`.

use vstd::prelude::*;

verus! {

/// `String::push` of the standard library, which appends the character `ch`
/// to the end of the string: afterwards the string holds the characters it
/// held before, followed by `ch`.
pub assume_specification[ String::push ](s: &mut String, ch: char)
    ensures
        final(s)@ == old(s)@.push(ch),
;

/// The character that stands for the digit `d`: `0` to `9`, then `a` to `f`.
pub open spec fn digit_char(d: nat) -> char {
    if d < 10 {
        ('0' as nat + d) as char
    } else {
        ('a' as nat + d - 10) as char
    }
}

/// The digits of `n` in base `base`, most significant first, without leading
/// zeros; a single `0` for zero.
pub open spec fn digits(n: nat, base: nat) -> Seq<char>
    decreases n,
    via digits_terminates
{
    if base < 2 || n < base {
        seq![digit_char(n)]
    } else {
        digits(n / base, base).push(digit_char(n % base))
    }
}

#[via_fn]
proof fn digits_terminates(n: nat, base: nat) {
    if base >= 2 && n >= base {
        assert(n / base < n) by (nonlinear_arith)
            requires
                base >= 2,
                n >= base,
        ;
    }
}

/// `s` with zeros in front of it until it is `width` characters long; `s`
/// itself where it is at least that long.
pub open spec fn padded(s: Seq<char>, width: nat) -> Seq<char> {
    if s.len() >= width {
        s
    } else {
        Seq::new((width - s.len()) as nat, |i: int| '0') + s
    }
}

/// `n` in lower-case hexadecimal, at least `width` digits.
pub open spec fn hex(n: nat, width: nat) -> Seq<char> {
    padded(digits(n, 16), width)
}

/// `n` in binary, at least `width` digits.
pub open spec fn binary(n: nat, width: nat) -> Seq<char> {
    padded(digits(n, 2), width)
}

/// `n` in decimal.
pub open spec fn decimal(n: nat) -> Seq<char> {
    digits(n, 10)
}

/// `true` or `false`, spelled out.
pub open spec fn truth(b: bool) -> Seq<char> {
    if b {
        "true"@
    } else {
        "false"@
    }
}

fn digit(d: u64) -> (c: char)
    requires
        d < 16,
    ensures
        c == digit_char(d as nat),
{
    if d < 10 {
        ('0' as u8 + d as u8) as char
    } else {
        ('a' as u8 + (d as u8 - 10)) as char
    }
}

/// Appends `value` in base `base` to `out`, with zeros in front up to `width`
/// digits.
pub fn push_number(out: &mut String, value: u64, base: u64, width: usize)
    requires
        2 <= base <= 16,
    ensures
        final(out)@ == old(out)@ + padded(digits(value as nat, base as nat), width as nat),
{
    let mut rev: Vec<char> = Vec::new();
    let mut rest: u64 = value;
    while rest >= base
        invariant
            2 <= base <= 16,
            digits(value as nat, base as nat) == digits(rest as nat, base as nat)
                + rev@.reverse(),
        decreases rest,
    {
        let d: char = digit(rest % base);
        proof {
            let higher = digits((rest / base) as nat, base as nat);
            assert(rev@.push(d).reverse() =~= seq![d] + rev@.reverse());
            assert(digits(rest as nat, base as nat) == higher.push(d));
            assert(higher.push(d) + rev@.reverse() =~= higher + (seq![d] + rev@.reverse()));
        }
        rev.push(d);
        rest = rest / base;
    }
    let d: char = digit(rest);
    proof {
        assert(rev@.push(d).reverse() =~= seq![d] + rev@.reverse());
        assert(digits(rest as nat, base as nat) =~= seq![d]);
    }
    rev.push(d);
    let ghost text = digits(value as nat, base as nat);
    assert(rev@.reverse() =~= text);
    let mut k: usize = rev.len();
    while k < width
        invariant
            rev@.len() <= k,
            k <= width || k == rev@.len(),
            out@ == old(out)@ + Seq::new((k - rev@.len()) as nat, |i: int| '0'),
        decreases width - k,
    {
        proof {
            assert(Seq::new((k - rev@.len()) as nat, |i: int| '0').push('0') =~= Seq::new(
                (k + 1 - rev@.len()) as nat,
                |i: int| '0',
            ));
        }
        out.push('0');
        k = k + 1;
    }
    let ghost front = out@;
    assert(front + text =~= old(out)@ + padded(text, width as nat));
    let mut i: usize = rev.len();
    while i > 0
        invariant
            i <= rev@.len(),
            rev@.reverse() == text,
            out@ == front + text.subrange(0, rev@.len() - i),
        decreases i,
    {
        i = i - 1;
        proof {
            assert(text.subrange(0, rev@.len() - i - 1).push(rev@[i as int]) =~= text.subrange(
                0,
                rev@.len() - i,
            ));
        }
        out.push(rev[i]);
    }
    assert(text.subrange(0, rev@.len() as int) =~= text);
}

/// Appends `true` or `false` to `out`.
pub fn push_truth(out: &mut String, b: bool)
    ensures
        final(out)@ == old(out)@ + truth(b),
{
    if b {
        out.append("true");
    } else {
        out.append("false");
    }
}

/// `value` in base `base` as a string of its own, with zeros in front up to
/// `width` digits.
pub fn number(value: u64, base: u64, width: usize) -> (text: String)
    requires
        2 <= base <= 16,
    ensures
        text@ == padded(digits(value as nat, base as nat), width as nat),
{
    let mut out = String::new();
    push_number(&mut out, value, base, width);
    assert(out@ =~= padded(digits(value as nat, base as nat), width as nat));
    out
}

/// The digit that the character `c` stands for; zero for a character that is
/// no digit.
pub open spec fn digit_value(c: char) -> nat {
    if '0' <= c <= '9' {
        (c as nat - '0' as nat) as nat
    } else if 'a' <= c <= 'f' {
        (c as nat - 'a' as nat + 10) as nat
    } else {
        0
    }
}

/// The number that the digits `s` spell in base `base`.
pub open spec fn number_of(s: Seq<char>, base: nat) -> nat
    decreases s.len(),
{
    if s.len() == 0 {
        0
    } else {
        number_of(s.drop_last(), base) * base + digit_value(s.last())
    }
}

/// The character of a digit stands for that digit.
pub proof fn lemma_digit_value(d: nat)
    requires
        d < 16,
    ensures
        digit_value(digit_char(d)) == d,
{
    assert('0' as nat == 48 && '9' as nat == 57 && 'a' as nat == 97 && 'f' as nat == 102);
    let c = digit_char(d);
    if d < 10 {
        assert(c as nat == 48 + d);
    } else {
        assert(c as nat == 87 + d);
    }
}

/// The digits of a number spell that number.
pub proof fn lemma_digits_read_back(n: nat, base: nat)
    requires
        2 <= base <= 16,
    ensures
        number_of(digits(n, base), base) == n,
    decreases n,
{
    if n < base {
        let s = seq![digit_char(n)];
        lemma_digit_value(n);
        assert(s.drop_last() =~= Seq::<char>::empty());
        assert(number_of(s.drop_last(), base) == 0);
        assert(s.last() == digit_char(n));
        assert(number_of(s, base) == 0 * base + n);
    } else {
        let higher = digits(n / base, base);
        let s = higher.push(digit_char(n % base));
        assert(n % base < base) by (nonlinear_arith)
            requires
                base > 0,
        ;
        lemma_digit_value(n % base);
        assert(s.drop_last() =~= higher);
        assert(s.last() == digit_char(n % base));
        lemma_digits_read_back(n / base, base);
        assert(number_of(s, base) == (n / base) * base + n % base);
        assert(n / base * base + n % base == n) by (nonlinear_arith)
            requires
                base > 0,
        ;
    }
}

/// Zeros in front change nothing of the number that digits spell.
pub proof fn lemma_padding_reads_back(s: Seq<char>, base: nat, width: nat)
    ensures
        number_of(padded(s, width), base) == number_of(s, base),
    decreases width,
{
    if s.len() < width {
        let zeros = Seq::new((width - s.len()) as nat, |i: int| '0');
        let whole = zeros + s;
        assert(whole == padded(s, width));
        assert('0' as nat == 48);
        if s.len() == 0 {
            assert(whole.last() == '0');
            assert(digit_value('0') == 0);
            assert(whole.drop_last() =~= padded(s, (width - 1) as nat));
            lemma_padding_reads_back(s, base, (width - 1) as nat);
            assert(number_of(whole, base) == number_of(whole.drop_last(), base) * base + 0);
            assert(number_of(s, base) == 0);
            assert(number_of(whole.drop_last(), base) * base == 0) by (nonlinear_arith)
                requires
                    number_of(whole.drop_last(), base) == 0,
            ;
        } else {
            assert(whole.drop_last() =~= padded(s.drop_last(), (width - 1) as nat));
            assert(whole.last() == s.last());
            lemma_padding_reads_back(s.drop_last(), base, (width - 1) as nat);
        }
    }
}

/// A number shown in hexadecimal, in binary or in decimal reads back as
/// itself, whatever the width.
pub proof fn lemma_text_reads_back(n: nat, width: nat)
    ensures
        number_of(hex(n, width), 16) == n,
        number_of(binary(n, width), 2) == n,
        number_of(decimal(n), 10) == n,
{
    lemma_digits_read_back(n, 16);
    lemma_digits_read_back(n, 2);
    lemma_digits_read_back(n, 10);
    lemma_padding_reads_back(digits(n, 16), 16, width);
    lemma_padding_reads_back(digits(n, 2), 2, width);
}

} // verus!
