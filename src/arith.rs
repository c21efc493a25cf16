//! The arithmetic core: pure functions over `i32`.
use vstd::arithmetic::div_mod::*;
use vstd::arithmetic::power::*;
use vstd::prelude::*;

verus! {

/// Number of distinct `i32` values.
pub open spec fn i32_range() -> int {
    0x1_0000_0000
}

/// The `i32` congruent to `x` modulo 2^32: the two's-complement wraparound rule.
pub open spec fn wrap_i32(x: int) -> i32 {
    let m = x % i32_range();
    if m > i32::MAX {
        (m - i32_range()) as i32
    } else {
        m as i32
    }
}

/// Integer division rounding toward zero.
pub open spec fn trunc_div(a: int, b: int) -> int {
    let q = abs(a) / abs(b);
    if (a < 0) != (b < 0) {
        -q
    } else {
        q
    }
}

/// Absolute value.
pub open spec fn abs(x: int) -> int {
    if x < 0 {
        -x
    } else {
        x
    }
}

/// Returns `a + b`, wrapped to 32 bits.
pub fn add(a: i32, b: i32) -> (r: i32)
    ensures
        r == wrap_i32(a + b),
{
    a.wrapping_add(b)
}


/// Returns `a * b`, wrapped to 32 bits.
pub fn multiply(a: i32, b: i32) -> (r: i32)
    ensures
        r == wrap_i32(a * b),
{
    a.wrapping_mul(b)
}

/// The message carried by a failed division.
pub open spec fn division_by_zero_text() -> Seq<char> {
    "Division by zero"@
}

/// Returns the quotient of `a` by `b` rounded toward zero, wrapped to 32 bits
/// (only `i32::MIN / -1` wraps, giving `i32::MIN`); fails when `b` is zero.
pub fn divide(a: i32, b: i32) -> (r: Result<i32, String>)
    ensures
        r.is_err() <==> b == 0,
        b == 0 ==> r.unwrap_err()@ == division_by_zero_text(),
        b != 0 ==> r == Ok::<i32, String>(wrap_i32(trunc_div(a as int, b as int))),
{
    if b == 0 {
        Err(String::from_str("Division by zero"))
    } else {
        match a.checked_div(b) {
            Some(q) => Ok(q),
            None => {
                // Only i32::MIN / -1 leaves the range: its quotient 2^31 wraps to i32::MIN.
                Ok(a)
            },
        }
    }
}

/// `base` raised to `exp`, where a negative `exp` is read as the `u32` with
/// the same bits.
pub open spec fn pow_exponent(base: i32, exp: i32) -> int {
    pow(base as int, exp as u32 as nat)
}

/// Returns `base` raised to the power `exp`, wrapped to 32 bits. A negative
/// `exp` is reinterpreted as the unsigned 32-bit value with the same bits.
pub fn exponent(base: i32, exp: i32) -> (r: i32)
    ensures
        r == wrap_i32(pow_exponent(base, exp)),
        exp >= 0 ==> r == wrap_i32(pow(base as int, exp as nat)),
{
    let n: u32 = exp as u32;
    let mut acc: i32 = 1;
    let mut b: i32 = base;
    let mut e: u32 = n;
    while e > 0
        invariant
            (acc * pow(b as int, e as nat)) % i32_range() == pow(base as int, n as nat) % i32_range(),
        decreases e,
    {
        let ghost acc0 = acc;
        let ghost b0 = b;
        if e % 2 == 1 {
            acc = acc.wrapping_mul(b);
        }
        b = b.wrapping_mul(b);
        proof {
            lemma_wrap_congruent(acc0 * b0);
            lemma_wrap_congruent(b0 * b0);
            lemma_square_multiply_step(acc0 as int, b0 as int, e as nat, acc as int, b as int);
        }
        e = e / 2;
    }
    proof {
        lemma_pow0(b as int);
        lemma_wrap_of_i32(acc);
    }
    acc
}


/// Every `int` in the `i32` range is its own wrapped value.
pub proof fn lemma_wrap_in_range(x: int)
    requires
        i32::MIN <= x <= i32::MAX,
    ensures
        wrap_i32(x) == x,
{
    lemma_wrap_of_i32(x as i32);
}

/// For a nonzero divisor the truncating quotient fits in an `i32`, and so is
/// returned unwrapped, except for `i32::MIN / -1`.
pub proof fn lemma_divide_exact(a: i32, b: i32)
    requires
        b != 0,
        !(a == i32::MIN && b == -1),
    ensures
        i32::MIN <= trunc_div(a as int, b as int) <= i32::MAX,
        wrap_i32(trunc_div(a as int, b as int)) == trunc_div(a as int, b as int),
{
    let q = abs(a as int) / abs(b as int);
    lemma_div_is_ordered_by_denominator(abs(a as int), 1, abs(b as int));
    lemma_div_pos_is_pos(abs(a as int), abs(b as int));
    if abs(b as int) >= 2 {
        lemma_div_is_ordered_by_denominator(abs(a as int), 2, abs(b as int));
    }
    assert(q <= abs(a as int));
    lemma_wrap_in_range(trunc_div(a as int, b as int));
}

/// Wrapping keeps the residue modulo 2^32.
pub proof fn lemma_wrap_congruent(x: int)
    ensures
        (wrap_i32(x) as int) % i32_range() == x % i32_range(),
{
    let m = x % i32_range();
    lemma_mod_bound(x, i32_range());
    lemma_small_mod(m as nat, i32_range() as nat);
    if m > i32::MAX {
        lemma_mod_add_multiples_vanish(m - i32_range(), i32_range());
    }
}

/// Every `i32` is its own wrapped value.
pub proof fn lemma_wrap_of_i32(v: i32)
    ensures
        wrap_i32(v as int) == v,
{
    if v >= 0 {
        lemma_small_mod(v as nat, i32_range() as nat);
    } else {
        lemma_small_mod((v + i32_range()) as nat, i32_range() as nat);
        lemma_mod_add_multiples_vanish(v as int, i32_range());
    }
}

/// One round of square-and-multiply keeps `acc * b^e` modulo 2^32.
proof fn lemma_square_multiply_step(acc: int, b: int, e: nat, acc2: int, b2: int)
    requires
        e > 0,
        acc2 % i32_range() == (if e % 2 == 1 { acc * b } else { acc }) % i32_range(),
        b2 % i32_range() == (b * b) % i32_range(),
    ensures
        (acc2 * pow(b2, e / 2)) % i32_range() == (acc * pow(b, e)) % i32_range(),
{
    let h: nat = e / 2;
    let x: int = if e % 2 == 1 { acc * b } else { acc };
    lemma_square_is_pow2(b);
    lemma_pow_multiplies(b, 2, h);
    assert(pow(b * b, h) == pow(b, 2 * h));
    if e % 2 == 1 {
        lemma_pow_adds(b, 2 * h, 1);
        lemma_pow1(b);
        assert(e == 2 * h + 1);
        assert(acc * b * pow(b, 2 * h) == acc * (pow(b, 2 * h) * b)) by (nonlinear_arith);
    } else {
        assert(e == 2 * h);
    }
    assert(x * pow(b * b, h) == acc * pow(b, e));
    lemma_pow_mod_noop(b2, h, i32_range());
    lemma_pow_mod_noop(b * b, h, i32_range());
    lemma_mul_mod_noop(acc2, pow(b2, h), i32_range());
    lemma_mul_mod_noop(x, pow(b * b, h), i32_range());
}

} // verus!
