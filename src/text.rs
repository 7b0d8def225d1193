//! Decimal text of fixed-point values.
use vstd::prelude::*;
use vstd::string::StringExecFns;
use crate::fixed::SCALE;
use vstd::arithmetic::div_mod::lemma_fundamental_div_mod;

verus! {

/// The character of the decimal digit `d`.
pub open spec fn digit_char(d: int) -> char {
    if d == 0 {
        '0'
    } else if d == 1 {
        '1'
    } else if d == 2 {
        '2'
    } else if d == 3 {
        '3'
    } else if d == 4 {
        '4'
    } else if d == 5 {
        '5'
    } else if d == 6 {
        '6'
    } else if d == 7 {
        '7'
    } else if d == 8 {
        '8'
    } else {
        '9'
    }
}

/// Decimal digits of `n`, most significant first, without leading zeros.
pub open spec fn digits(n: nat) -> Seq<char>
    decreases n,
{
    if n < 10 {
        seq![digit_char(n as int)]
    } else {
        digits(n / 10).push(digit_char((n % 10) as int))
    }
}

/// The last `k` decimal digits of `f`, with leading zeros.
pub open spec fn padded(f: nat, k: nat) -> Seq<char>
    decreases k,
{
    if k == 0 {
        Seq::empty()
    } else {
        padded(f / 10, (k - 1) as nat).push(digit_char((f % 10) as int))
    }
}

/// The `k`-digit fraction `f` with its trailing zeros dropped.
pub open spec fn fraction(f: nat, k: nat) -> Seq<char>
    decreases k,
{
    if k == 0 {
        Seq::empty()
    } else if f % 10 == 0 {
        fraction(f / 10, (k - 1) as nat)
    } else {
        padded(f, k)
    }
}

/// Text of a fixed-point value: an optional minus sign, the whole part,
/// and, unless it is zero, a point and the fraction without trailing zeros
/// (`2_500_000` is "2.5", `-750_000` is "-0.75", `3_000_000` is "3").
pub open spec fn fixed_text(v: int) -> Seq<char> {
    let a = if v < 0 {
        -v
    } else {
        v
    };
    let sign = if v < 0 {
        seq!['-']
    } else {
        Seq::empty()
    };
    let whole = digits((a / SCALE as int) as nat);
    let f = (a % SCALE as int) as nat;
    if f == 0 {
        sign + whole
    } else {
        sign + whole + seq!['.'] + fraction(f, 6)
    }
}

fn digit_str(d: u64) -> (r: &'static str)
    requires
        d < 10,
    ensures
        r@ == seq![digit_char(d as int)],
{
    if d == 0 {
        proof {
            reveal_strlit("0");
        }
        "0"
    } else if d == 1 {
        proof {
            reveal_strlit("1");
        }
        "1"
    } else if d == 2 {
        proof {
            reveal_strlit("2");
        }
        "2"
    } else if d == 3 {
        proof {
            reveal_strlit("3");
        }
        "3"
    } else if d == 4 {
        proof {
            reveal_strlit("4");
        }
        "4"
    } else if d == 5 {
        proof {
            reveal_strlit("5");
        }
        "5"
    } else if d == 6 {
        proof {
            reveal_strlit("6");
        }
        "6"
    } else if d == 7 {
        proof {
            reveal_strlit("7");
        }
        "7"
    } else if d == 8 {
        proof {
            reveal_strlit("8");
        }
        "8"
    } else {
        proof {
            reveal_strlit("9");
        }
        "9"
    }
}

fn push_digits(out: &mut String, n: u64)
    ensures
        final(out)@ == old(out)@ + digits(n as nat),
    decreases n,
{
    if n >= 10 {
        push_digits(out, n / 10);
    }
    out.append(digit_str(n % 10));
    proof {
        if n < 10 {
            assert(n % 10 == n);
        }
    }
    assert(final(out)@ =~= old(out)@ + digits(n as nat)) by {
        if n >= 10 {
            assert(digits(n as nat) == digits((n / 10) as nat).push(digit_char((n % 10) as int)));
        }
    }
}

fn push_padded(out: &mut String, f: u64, k: u64)
    ensures
        final(out)@ == old(out)@ + padded(f as nat, k as nat),
    decreases k,
{
    if k > 0 {
        push_padded(out, f / 10, k - 1);
        out.append(digit_str(f % 10));
    }
    assert(final(out)@ =~= old(out)@ + padded(f as nat, k as nat));
}

/// Appends the text of the fixed-point value `v` to `out`.
pub fn push_fixed(out: &mut String, v: i64)
    ensures
        final(out)@ == old(out)@ + fixed_text(v as int),
{
    let a: u64 = if v < 0 {
        (-(v as i128)) as u64
    } else {
        v as u64
    };
    let ghost start = out@;
    if v < 0 {
        proof {
            reveal_strlit("-");
        }
        out.append("-");
    }
    push_digits(out, a / SCALE as u64);
    let mut f: u64 = a % SCALE as u64;
    if f != 0 {
        proof {
            reveal_strlit(".");
        }
        out.append(".");
        let ghost f0 = f;
        let mut k: u64 = 6;
        while k > 0 && f % 10 == 0
            invariant
                k <= 6,
                fraction(f as nat, k as nat) == fraction(f0 as nat, 6),
            decreases k,
        {
            f = f / 10;
            k = k - 1;
        }
        push_padded(out, f, k);
        assert(fraction(f as nat, k as nat) == padded(f as nat, k as nat));
    }
    assert(out@ =~= start + fixed_text(v as int));
}

/// Text of the fixed-point value `v`.
pub fn fixed_to_string(v: i64) -> (r: String)
    ensures
        r@ == fixed_text(v as int),
{
    let mut out = String::new();
    push_fixed(&mut out, v);
    out
}


/// Whether `c` is a decimal digit.
pub open spec fn is_digit(c: char) -> bool {
    c == '0' || c == '1' || c == '2' || c == '3' || c == '4' || c == '5' || c == '6' || c == '7' || c == '8' || c == '9'
}

/// Value of the decimal digit `c`.
pub open spec fn digit_value(c: char) -> int {
    if c == '0' {
        0
    } else if c == '1' {
        1
    } else if c == '2' {
        2
    } else if c == '3' {
        3
    } else if c == '4' {
        4
    } else if c == '5' {
        5
    } else if c == '6' {
        6
    } else if c == '7' {
        7
    } else if c == '8' {
        8
    } else {
        9
    }
}

/// Value of the decimal digits `s`, most significant first.
pub open spec fn decimal_value(s: Seq<char>) -> int
    decreases s.len(),
{
    if s.len() == 0 {
        0
    } else {
        decimal_value(s.drop_last()) * 10 + digit_value(s.last())
    }
}

/// `10` to the power `k`.
pub open spec fn pow10(k: nat) -> nat
    decreases k,
{
    if k == 0 {
        1
    } else {
        10 * pow10((k - 1) as nat)
    }
}

proof fn lemma_pow10_six()
    ensures
        pow10(6) == 1_000_000,
{
    assert(pow10(0) == 1);
    assert(pow10(1) == 10);
    assert(pow10(2) == 100);
    assert(pow10(3) == 1_000);
    assert(pow10(4) == 10_000);
    assert(pow10(5) == 100_000);
}

proof fn lemma_digit_char(d: int)
    requires
        0 <= d < 10,
    ensures
        is_digit(digit_char(d)),
        digit_value(digit_char(d)) == d,
{
}

proof fn lemma_digits(n: nat)
    ensures
        digits(n).len() >= 1,
        decimal_value(digits(n)) == n,
        forall|i: int| 0 <= i < digits(n).len() ==> is_digit(#[trigger] digits(n)[i]),
    decreases n,
{
    if n < 10 {
        lemma_digit_char(n as int);
        assert(seq![digit_char(n as int)].drop_last() =~= Seq::<char>::empty());
        assert(decimal_value(Seq::<char>::empty()) == 0);
        assert(decimal_value(digits(n)) == decimal_value(Seq::<char>::empty()) * 10 + n);
    } else {
        lemma_digits(n / 10);
        lemma_digit_char((n % 10) as int);
        let prev = digits(n / 10);
        assert(digits(n).drop_last() =~= prev);
        assert(decimal_value(digits(n)) == decimal_value(prev) * 10 + n % 10);
        assert forall|i: int| 0 <= i < digits(n).len() implies is_digit(#[trigger] digits(n)[i]) by {
            if i < prev.len() {
                assert(digits(n)[i] == prev[i]);
            }
        }
    }
}

proof fn lemma_padded(f: nat, k: nat)
    requires
        f < pow10(k),
    ensures
        padded(f, k).len() == k,
        decimal_value(padded(f, k)) == f,
        forall|i: int| 0 <= i < padded(f, k).len() ==> is_digit(#[trigger] padded(f, k)[i]),
    decreases k,
{
    if k > 0 {
        let k1 = (k - 1) as nat;
        assert(f / 10 < pow10(k1));
        lemma_padded(f / 10, k1);
        lemma_digit_char((f % 10) as int);
        let prev = padded(f / 10, k1);
        assert(padded(f, k).drop_last() =~= prev);
        assert forall|i: int| 0 <= i < padded(f, k).len() implies is_digit(
            #[trigger] padded(f, k)[i],
        ) by {
            if i < prev.len() {
                assert(padded(f, k)[i] == prev[i]);
            }
        }
    } else {
        assert(f == 0);
    }
}

proof fn lemma_fraction(f: nat, k: nat)
    requires
        f < pow10(k),
    ensures
        fraction(f, k).len() <= k,
        decimal_value(fraction(f, k)) * pow10((k - fraction(f, k).len()) as nat) == f,
        forall|i: int| 0 <= i < fraction(f, k).len() ==> is_digit(#[trigger] fraction(f, k)[i]),
    decreases k,
{
    if k == 0 {
        assert(f == 0);
        assert(fraction(f, k) == Seq::<char>::empty());
        assert(decimal_value(Seq::<char>::empty()) == 0);
        let p = pow10((k - fraction(f, k).len()) as nat);
        assert(0 * p == 0);
    } else if f % 10 == 0 {
        let k1 = (k - 1) as nat;
        assert(f / 10 < pow10(k1));
        lemma_fraction(f / 10, k1);
        let fr = fraction(f / 10, k1);
        assert(fraction(f, k) == fr);
        let e = (k1 - fr.len()) as nat;
        assert(pow10((k - fr.len()) as nat) == 10 * pow10(e));
        assert(decimal_value(fr) * (10 * pow10(e)) == (decimal_value(fr) * pow10(e)) * 10)
            by (nonlinear_arith);
        assert((f / 10) * 10 == f);
        assert(decimal_value(fraction(f, k)) * pow10((k - fraction(f, k).len()) as nat) == f);
    } else {
        lemma_padded(f, k);
        assert(fraction(f, k) == padded(f, k));
        assert(pow10(0) == 1);
        assert((k - fraction(f, k).len()) as nat == 0);
        let p = pow10((k - fraction(f, k).len()) as nat);
        let x = decimal_value(fraction(f, k));
        assert(x * p == x) by (nonlinear_arith)
            requires
                p == 1,
        ;
    }
}

/// `a + b == c + d` where `a` and `c` hold only digits and `b` and `d` are
/// empty or start with a non-digit: then `a == c` and `b == d`.
proof fn lemma_split_digits(a: Seq<char>, b: Seq<char>, c: Seq<char>, d: Seq<char>)
    requires
        a + b == c + d,
        forall|i: int| 0 <= i < a.len() ==> is_digit(#[trigger] a[i]),
        forall|i: int| 0 <= i < c.len() ==> is_digit(#[trigger] c[i]),
        b.len() > 0 ==> !is_digit(b[0]),
        d.len() > 0 ==> !is_digit(d[0]),
    ensures
        a == c,
        b == d,
{
    let s = a + b;
    if a.len() < c.len() {
        assert(s[a.len() as int] == c[a.len() as int]);
        assert(b.len() > 0);
        assert(s[a.len() as int] == b[0]);
    } else if c.len() < a.len() {
        assert(s[c.len() as int] == a[c.len() as int]);
        assert(d.len() > 0);
        assert((c + d)[c.len() as int] == d[0]);
    }
    assert(a =~= s.subrange(0, a.len() as int));
    assert(c =~= (c + d).subrange(0, c.len() as int));
    assert(b =~= s.subrange(a.len() as int, s.len() as int));
    assert(d =~= (c + d).subrange(c.len() as int, s.len() as int));
}

/// Every character of the text of a value is a digit, `-` or `.`.
pub proof fn lemma_fixed_text_chars(v: int)
    requires
        i64::MIN <= v <= i64::MAX,
    ensures
        forall|i: int|
            0 <= i < fixed_text(v).len() ==> {
                let c = #[trigger] fixed_text(v)[i];
                is_digit(c) || c == '-' || c == '.'
            },
{
    let a = if v < 0 {
        -v
    } else {
        v
    };
    lemma_digits((a / SCALE as int) as nat);
    let f = (a % SCALE as int) as nat;
    lemma_pow10_six();
    lemma_fraction(f, 6);
}

/// Magnitude of `v`.
pub open spec fn magnitude(v: int) -> int {
    if v < 0 {
        -v
    } else {
        v
    }
}

/// What follows the whole part in the text of `v`: nothing, or a point and
/// the fraction.
pub open spec fn tail_text(v: int) -> Seq<char> {
    let f = (magnitude(v) % SCALE as int) as nat;
    if f == 0 {
        Seq::empty()
    } else {
        seq!['.'] + fraction(f, 6)
    }
}

proof fn lemma_text_parts(v: int)
    ensures
        v < 0 ==> fixed_text(v) == seq!['-'] + (digits((magnitude(v) / SCALE as int) as nat)
            + tail_text(v)),
        v >= 0 ==> fixed_text(v) == digits((magnitude(v) / SCALE as int) as nat) + tail_text(v),
        digits((magnitude(v) / SCALE as int) as nat).len() >= 1,
        forall|i: int|
            0 <= i < digits((magnitude(v) / SCALE as int) as nat).len() ==> is_digit(
                #[trigger] digits((magnitude(v) / SCALE as int) as nat)[i],
            ),
        tail_text(v).len() > 0 ==> tail_text(v)[0] == '.',
{
    lemma_digits((magnitude(v) / SCALE as int) as nat);
    let whole = digits((magnitude(v) / SCALE as int) as nat);
    if v < 0 {
        assert(fixed_text(v) =~= seq!['-'] + (whole + tail_text(v)));
    } else {
        assert(fixed_text(v) =~= whole + tail_text(v));
    }
}

proof fn lemma_tail_injective(v: int, w: int)
    requires
        tail_text(v) == tail_text(w),
    ensures
        magnitude(v) % SCALE as int == magnitude(w) % SCALE as int,
{
    let fv = (magnitude(v) % SCALE as int) as nat;
    let fw = (magnitude(w) % SCALE as int) as nat;
    lemma_pow10_six();
    lemma_fraction(fv, 6);
    lemma_fraction(fw, 6);
    if fv != 0 && fw != 0 {
        assert(fraction(fv, 6) =~= tail_text(v).subrange(1, tail_text(v).len() as int));
        assert(fraction(fw, 6) =~= tail_text(w).subrange(1, tail_text(w).len() as int));
    } else if fv != 0 {
        assert(tail_text(v).len() > 0);
    } else if fw != 0 {
        assert(tail_text(w).len() > 0);
    }
}

/// Text of values is one to one: different values print differently.
pub proof fn lemma_fixed_text_injective(v: int, w: int)
    requires
        fixed_text(v) == fixed_text(w),
    ensures
        v == w,
{
    lemma_text_parts(v);
    lemma_text_parts(w);
    let k = SCALE as int;
    let dv = digits((magnitude(v) / k) as nat);
    let dw = digits((magnitude(w) / k) as nat);
    let t = fixed_text(v);
    if v < 0 && w >= 0 {
        assert(t[0] == '-');
        assert(t[0] == dw[0]);
    } else if w < 0 && v >= 0 {
        assert(t[0] == '-');
        assert(t[0] == dv[0]);
    }
    assert(dv + tail_text(v) == dw + tail_text(w)) by {
        if v < 0 {
            assert(dv + tail_text(v) =~= t.subrange(1, t.len() as int));
            assert(dw + tail_text(w) =~= t.subrange(1, t.len() as int));
        }
    }
    lemma_split_digits(dv, tail_text(v), dw, tail_text(w));
    lemma_digits((magnitude(v) / k) as nat);
    lemma_digits((magnitude(w) / k) as nat);
    lemma_tail_injective(v, w);
    lemma_fundamental_div_mod(magnitude(v), k);
    lemma_fundamental_div_mod(magnitude(w), k);
}

} // verus!
