use vstd::prelude::*;

verus! {

/// The decimal digit `d` as a character (`d` in `0..10`).
pub open spec fn digit_char(d: int) -> char {
    if d == 0 { '0' }
    else if d == 1 { '1' }
    else if d == 2 { '2' }
    else if d == 3 { '3' }
    else if d == 4 { '4' }
    else if d == 5 { '5' }
    else if d == 6 { '6' }
    else if d == 7 { '7' }
    else if d == 8 { '8' }
    else { '9' }
}

/// The decimal notation of `n`, without leading zeros.
pub open spec fn digits(n: nat) -> Seq<char>
    decreases n,
{
    if n < 10 {
        seq![digit_char(n as int)]
    } else {
        digits(n / 10).push(digit_char((n % 10) as int))
    }
}

/// The last `width` decimal digits of `n`, with leading zeros.
pub open spec fn padded_digits(n: nat, width: nat) -> Seq<char>
    decreases width,
{
    if width == 0 {
        Seq::empty()
    } else {
        padded_digits(n / 10, (width - 1) as nat).push(digit_char((n % 10) as int))
    }
}

/// Ten to the power `d`.
pub open spec fn pow10(d: nat) -> nat
    decreases d,
{
    if d == 0 { 1 } else { 10 * pow10((d - 1) as nat) }
}

/// `a / m` rounded to the nearest integer, ties to the even one.
pub open spec fn div_round_half_even(a: nat, m: nat) -> nat {
    let q = a / m;
    let r = a % m;
    if 2 * r > m || (2 * r == m && q % 2 == 1) {
        (q + 1) as nat
    } else {
        q
    }
}

/// The absolute value of `v`.
pub open spec fn abs(v: int) -> nat {
    if v < 0 { (-v) as nat } else { v as nat }
}

/// A minus sign for negative values, nothing otherwise.
pub open spec fn sign_text(v: int) -> Seq<char> {
    if v < 0 { seq!['-'] } else { Seq::empty() }
}

/// Number of fixed-point units in one whole unit: quantities are held in millionths.
pub const UNIT: i64 = 1_000_000;

/// Six decimal places are held in a fixed-point quantity.
pub const UNIT_DECIMALS: u32 = 6;

/// The text of the fixed-point quantity `v` (in millionths) with `decimals`
/// digits after the point, rounded half to even, as `{:.N}` prints a number.
pub open spec fn fixed_text(v: int, decimals: nat) -> Seq<char> {
    let scaled = div_round_half_even(abs(v), pow10((UNIT_DECIMALS - decimals) as nat));
    let whole = digits(scaled / pow10(decimals));
    let frac = if decimals == 0 {
        Seq::empty()
    } else {
        seq!['.'] + padded_digits(scaled % pow10(decimals), decimals)
    };
    sign_text(v) + whole + frac
}

/// The decimal text of the integer `v`.
pub open spec fn integer_text(v: int) -> Seq<char> {
    sign_text(v) + digits(abs(v))
}

fn digit_str(d: u64) -> (s: &'static str)
    requires
        d < 10,
    ensures
        s@ == seq![digit_char(d as int)],
{
    proof {
        reveal_strlit("0");
        reveal_strlit("1");
        reveal_strlit("2");
        reveal_strlit("3");
        reveal_strlit("4");
        reveal_strlit("5");
        reveal_strlit("6");
        reveal_strlit("7");
        reveal_strlit("8");
        reveal_strlit("9");
    }
    let s = if d == 0 { "0" }
    else if d == 1 { "1" }
    else if d == 2 { "2" }
    else if d == 3 { "3" }
    else if d == 4 { "4" }
    else if d == 5 { "5" }
    else if d == 6 { "6" }
    else if d == 7 { "7" }
    else if d == 8 { "8" }
    else { "9" };
    assert(s@ =~= seq![digit_char(d as int)]);
    s
}

pub(crate) fn push_digits(s: &mut String, n: u64)
    ensures
        final(s)@ == old(s)@ + digits(n as nat),
    decreases n,
{
    if n >= 10 {
        push_digits(s, n / 10);
    }
    s.append(digit_str(n % 10));
    assert(final(s)@ =~= old(s)@ + digits(n as nat)) by {
        if n >= 10 {
            assert(digits(n as nat) == digits((n / 10) as nat).push(digit_char((n % 10) as int)));
        }
    }
}

pub(crate) fn push_padded_digits(s: &mut String, n: u64, width: u32)
    ensures
        final(s)@ == old(s)@ + padded_digits(n as nat, width as nat),
    decreases width,
{
    if width > 0 {
        push_padded_digits(s, n / 10, width - 1);
        s.append(digit_str(n % 10));
        assert(final(s)@ =~= old(s)@ + padded_digits(n as nat, width as nat));
    } else {
        assert(final(s)@ =~= old(s)@ + padded_digits(n as nat, width as nat));
    }
}

fn pow10_exec(d: u32) -> (p: u64)
    requires
        d <= 6,
    ensures
        p == pow10(d as nat),
        1 <= p <= 1_000_000,
{
    proof {
        reveal_with_fuel(pow10, 7);
    }
    if d == 0 { 1 }
    else if d == 1 { 10 }
    else if d == 2 { 100 }
    else if d == 3 { 1_000 }
    else if d == 4 { 10_000 }
    else if d == 5 { 100_000 }
    else { 1_000_000 }
}

fn abs_exec(v: i64) -> (a: u64)
    ensures
        a == abs(v as int),
{
    if v < 0 {
        let w: i128 = -(v as i128);
        w as u64
    } else {
        v as u64
    }
}

fn push_sign(s: &mut String, v: i64)
    ensures
        final(s)@ == old(s)@ + sign_text(v as int),
{
    proof {
        reveal_strlit("-");
    }
    if v < 0 {
        s.append("-");
    }
    assert(final(s)@ =~= old(s)@ + sign_text(v as int));
}

/// The text of a fixed-point quantity with `decimals` digits after the point.
pub fn format_fixed(v: i64, decimals: u32) -> (s: String)
    requires
        decimals <= UNIT_DECIMALS,
    ensures
        s@ == fixed_text(v as int, decimals as nat),
{
    let a = abs_exec(v);
    let m = pow10_exec(UNIT_DECIMALS - decimals);
    let q = a / m;
    let r = a % m;
    let scaled: u64 = if r > m - r || (r == m - r && q % 2 == 1) {
        q + 1
    } else {
        q
    };
    assert(scaled == div_round_half_even(abs(v as int), pow10((UNIT_DECIMALS - decimals) as nat)));
    let p = pow10_exec(decimals);
    let mut s = String::new();
    push_sign(&mut s, v);
    push_digits(&mut s, scaled / p);
    proof {
        reveal_strlit(".");
    }
    if decimals > 0 {
        s.append(".");
        push_padded_digits(&mut s, scaled % p, decimals);
    }
    assert(s@ =~= fixed_text(v as int, decimals as nat));
    s
}

/// The decimal text of an integer.
pub fn format_int(v: i64) -> (s: String)
    ensures
        s@ == integer_text(v as int),
{
    let mut s = String::new();
    push_sign(&mut s, v);
    push_digits(&mut s, abs_exec(v));
    assert(s@ =~= integer_text(v as int));
    s
}

/// The number a string of decimal digits stands for.
pub open spec fn decimal_value(s: Seq<char>) -> int
    decreases s.len(),
{
    if s.len() == 0 {
        0
    } else {
        10 * decimal_value(s.drop_last()) + (s.last() as int - '0' as int)
    }
}

/// Whether every character of `s` is a decimal digit.
pub open spec fn all_decimal(s: Seq<char>) -> bool {
    forall|i: int| 0 <= i < s.len() ==> '0' <= #[trigger] s[i] <= '9'
}

proof fn lemma_digit_char(d: int)
    requires
        0 <= d < 10,
    ensures
        '0' <= digit_char(d) <= '9',
        digit_char(d) as int - '0' as int == d,
{
}

/// The digits of `n` are decimal digits that stand for `n`, with no leading zero.
pub proof fn lemma_digits_read_back(n: nat)
    ensures
        all_decimal(digits(n)),
        decimal_value(digits(n)) == n,
        digits(n).len() >= 1,
        digits(n).len() > 1 ==> digits(n)[0] != '0',
    decreases n,
{
    if n < 10 {
        lemma_digit_char(n as int);
        let s = seq![digit_char(n as int)];
        assert(s.drop_last() =~= Seq::<char>::empty());
        assert(s.last() == digit_char(n as int));
        assert(decimal_value(s) == 10 * decimal_value(s.drop_last()) + (s.last() as int - '0' as int));
        assert(digits(n).len() == 1);
    } else {
        let m = n / 10;
        lemma_digits_read_back(m);
        lemma_digit_char((n % 10) as int);
        let s = digits(n);
        assert(s.drop_last() =~= digits(m));
        assert(s.last() == digit_char((n % 10) as int));
        assert(s[0] == digits(m)[0]);
        if m < 10 {
            lemma_digit_char(m as int);
            assert(digits(m)[0] == digit_char(m as int));
            assert(m >= 1);
            assert(digit_char(m as int) != '0');
        } else {
            lemma_digits_read_back(m / 10);
            assert(digits(m) == digits(m / 10).push(digit_char((m % 10) as int)));
            assert(digits(m).len() > 1);
        }
        assert(s[0] != '0');
    }
}

/// The last `width` digits of `n`, with leading zeros, are decimal digits
/// standing for `n` modulo ten to the `width`.
pub proof fn lemma_padded_digits_read_back(n: nat, width: nat)
    ensures
        all_decimal(padded_digits(n, width)),
        padded_digits(n, width).len() == width,
        decimal_value(padded_digits(n, width)) == n % pow10(width),
    decreases width,
{
    if width > 0 {
        lemma_padded_digits_read_back(n / 10, (width - 1) as nat);
        lemma_digit_char((n % 10) as int);
        let s = padded_digits(n, width);
        assert(s.drop_last() =~= padded_digits(n / 10, (width - 1) as nat));
        let p = pow10((width - 1) as nat);
        assert(p > 0) by {
            lemma_pow10_positive((width - 1) as nat);
        }
        assert((n / 10) % p * 10 + n % 10 == n % (10 * p)) by {
            vstd::arithmetic::div_mod::lemma_breakdown(n as int, 10, p as int);
            assert((n as int / 10) % (p as int) * 10 == 10 * ((n as int / 10) % (p as int))) by (nonlinear_arith);
        }
    }
}

proof fn lemma_pow10_positive(d: nat)
    ensures
        pow10(d) > 0,
    decreases d,
{
    if d > 0 {
        lemma_pow10_positive((d - 1) as nat);
    }
}

/// Rounding to the nearest multiple is off by at most half a step.
pub proof fn lemma_rounding_error(a: nat, m: nat)
    requires
        m > 0,
    ensures
        2 * (div_round_half_even(a, m) * m - a) <= m,
        2 * (a - div_round_half_even(a, m) * m) <= m,
{
    vstd::arithmetic::div_mod::lemma_fundamental_div_mod(a as int, m as int);
    let q = a / m;
    let r = a % m;
    assert(q * m == m * q) by (nonlinear_arith);
    assert((q + 1) * m == q * m + m) by (nonlinear_arith);
}

} // verus!
