use vstd::prelude::*;
use vstd::arithmetic::div_mod::{lemma_div_decreases, lemma_fundamental_div_mod};

verus! {

/// `base` raised to the power `exp`.
pub open spec fn power(base: nat, exp: nat) -> nat
    decreases exp,
{
    if exp == 0 {
        1
    } else {
        base * power(base, (exp - 1) as nat)
    }
}

/// The base-`base` digits of `i`, least significant first; empty for `i == 0`.
pub open spec fn base_digits(i: nat, base: nat) -> Seq<nat>
    decreases i,
{
    if i == 0 || base < 2 {
        Seq::empty()
    } else {
        proof {
            lemma_div_decreases(i as int, base as int);
        }
        seq![i % base].add(base_digits(i / base, base))
    }
}

/// The number written by the digit sequence `digits` in base `base`, the
/// first digit being the most significant one.
pub open spec fn digits_value(digits: Seq<nat>, base: nat) -> nat
    decreases digits.len(),
{
    if digits.len() == 0 {
        0
    } else {
        digits_value(digits.drop_last(), base) * base + digits.last()
    }
}

/// An exact fraction `num / den`.
#[derive(Clone, Copy, Debug, PartialEq, Eq)]
pub struct Fraction {
    pub num: u64,
    pub den: u64,
}

/// The Halton (radical-inverse) value of `i` in `base`: the base-`base`
/// digits of `i` mirrored about the radix point.
pub open spec fn halton_spec(i: nat, base: nat) -> (nat, nat) {
    let digits = base_digits(i, base);
    (digits_value(digits, base), power(base, digits.len()))
}

proof fn lemma_digits_value_push(s: Seq<nat>, d: nat, base: nat)
    ensures
        digits_value(s.push(d), base) == digits_value(s, base) * base + d,
{
    assert(s.push(d).drop_last() =~= s);
}

proof fn lemma_power_step(base: nat, e: nat)
    ensures
        power(base, e + 1) == base * power(base, e),
{
}

proof fn lemma_digits_value_prepend(d: nat, s: Seq<nat>, base: nat)
    ensures
        digits_value(seq![d].add(s), base) == d * power(base, s.len()) + digits_value(s, base),
    decreases s.len(),
{
    if s.len() == 0 {
        assert(seq![d].add(s).drop_last() =~= Seq::<nat>::empty());
        assert(digits_value(Seq::<nat>::empty(), base) == 0);
    } else {
        let t = s.drop_last();
        assert(seq![d].add(s).drop_last() =~= seq![d].add(t));
        lemma_digits_value_prepend(d, t, base);
        lemma_power_step(base, t.len());
        let pt = power(base, t.len());
        let vt = digits_value(t, base);
        assert((d * pt + vt) * base + s.last() == d * (base * pt) + (vt * base + s.last())) by (nonlinear_arith);
    }
}

/// The Halton value of `i` is its last base-`base` digit placed just after
/// the radix point, followed by the Halton value of `i / base` shifted one
/// place further: `h(i) = (i % base + h(i / base)) / base`, as exact fractions.
pub proof fn lemma_halton_first_digit(i: nat, base: nat)
    requires
        i > 0,
        base >= 2,
    ensures
        ({
            let (num, den) = halton_spec(i, base);
            let (num_q, den_q) = halton_spec(i / base, base);
            &&& den == den_q * base
            &&& num == (i % base) * den_q + num_q
        }),
{
    let rest = base_digits(i / base, base);
    assert(base_digits(i, base) == seq![i % base].add(rest));
    lemma_digits_value_prepend(i % base, rest, base);
    assert(seq![i % base].add(rest).len() == rest.len() + 1);
    lemma_power_step(base, rest.len());
    let pq = power(base, rest.len());
    assert(power(base, rest.len() + 1) == pq * base) by (nonlinear_arith)
        requires power(base, rest.len() + 1) == base * pq;
    assert(digits_value(base_digits(i, base), base) == (i % base) * pq + digits_value(rest, base));
}

/// Element `k` of the Halton sequence in `base`, as an exact fraction.
///
/// The numerator is the base-`base` digits of `i` read in reverse order and
/// the denominator is the smallest power of `base` above `i`, so the value lies
/// in `[0, 1)`.
pub fn halton(i: u32, base: u32) -> (r: Fraction)
    requires
        i == 0 || base >= 2,
    ensures
        (r.num as nat, r.den as nat) == halton_spec(i as nat, base as nat),
        r.num < r.den,
        i < r.den,
        i > 0 ==> r.den <= i * base,
        i == 0 ==> r.num == 0 && r.den == 1,
        i > 0 ==> ({
            let (num_q, den_q) = halton_spec((i / base) as nat, base as nat);
            &&& r.den == den_q * base
            &&& r.num == (i % base) * den_q + num_q
        }),
{
    proof {
        if i > 0 {
            lemma_halton_first_digit(i as nat, base as nat);
        }
    }
    let mut n: u32 = i;
    let mut num: u64 = 0;
    let mut den: u64 = 1;
    let ghost mut processed: Seq<nat> = Seq::empty();
    let ghost mut low: int = 0;
    proof {
        assert(base_digits(i as nat, base as nat) =~= processed.add(base_digits(n as nat, base as nat)));
        if i > 0 {
            assert(1 <= (i as int) * (base as int)) by (nonlinear_arith)
                requires i >= 1, base >= 2;
        }
    }
    while n > 0
        invariant
            n == 0 || base >= 2,
            base_digits(i as nat, base as nat) == processed.add(base_digits(n as nat, base as nat)),
            num as nat == digits_value(processed, base as nat),
            den as nat == power(base as nat, processed.len()),
            num < den,
            den * n <= i,
            i > 0 ==> den <= i * base,
            i == n * den + low,
            0 <= low < den,
        decreases n,
    {
        let d: u32 = n % base;
        let q: u32 = n / base;
        proof {
            lemma_fundamental_div_mod(n as int, base as int);
            assert(den <= i) by (nonlinear_arith)
                requires den * n <= i, n >= 1;
            assert(num * base + d < den * base) by (nonlinear_arith)
                requires num < den, d < base;
            assert(den * base <= (i as int) * (base as int)) by (nonlinear_arith)
                requires den <= i, base >= 2;
            assert((i as int) * (base as int) <= 0xffff_ffff * 0xffff_ffff) by (nonlinear_arith)
                requires i <= 0xffff_ffff, base <= 0xffff_ffff;
        }
        let ghost old_n: nat = n as nat;
        let ghost old_den: int = den as int;
        num = num * (base as u64) + (d as u64);
        den = den * (base as u64);
        n = q;
        proof {
            lemma_digits_value_push(processed, d as nat, base as nat);
            lemma_power_step(base as nat, processed.len());
            assert(base_digits(old_n, base as nat) == seq![d as nat].add(base_digits(n as nat, base as nat)));
            assert(processed.push(d as nat).add(base_digits(n as nat, base as nat))
                =~= processed.add(seq![d as nat].add(base_digits(n as nat, base as nat))));
            processed = processed.push(d as nat);
            assert(den * n <= old_den * old_n) by (nonlinear_arith)
                requires den == old_den * base, old_n == q * base + d, n == q, old_den >= 1, d >= 0;
            assert(i == n * den + (d * old_den + low)) by (nonlinear_arith)
                requires i == old_n * old_den + low, old_n == q * base + d, n == q, den == old_den * base;
            assert(d * old_den + low < den) by (nonlinear_arith)
                requires d < base, low < old_den, den == old_den * base, d >= 0;
            low = d * old_den + low;
        }
    }
    proof {
        assert(processed.add(base_digits(0, base as nat)) =~= processed);
    }
    Fraction { num, den }
}

} // verus!
