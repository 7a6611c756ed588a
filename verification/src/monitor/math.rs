use vstd::prelude::*;

verus! {

/// Integer division truncated toward zero, as Rust's `/` computes it.
pub open spec fn trunc_div(a: int, b: int) -> int {
    let m = if b < 0 { -b } else { b };
    let q = if a >= 0 { a / m } else { -((-a) / m) };
    if b < 0 { -q } else { q }
}

/// Remainder of truncated division, as Rust's `%` computes it: it takes the
/// sign of `a` and its magnitude is `|a| mod |b|`.
pub open spec fn trunc_rem(a: int, b: int) -> int {
    let m = if b < 0 { -b } else { b };
    if a >= 0 { a % m } else { -((-a) % m) }
}

/// Mathematical meaning of `wrapped_value`: the remainder of `value` by
/// `range` folded into the window around zero whose half width is `range / 2`.
pub open spec fn spec_wrapped_value(value: int, range: int) -> int {
    let half = trunc_div(range, 2);
    let rem = trunc_rem(value, range);
    if rem > half {
        rem - range
    } else if rem < -half {
        rem + range
    } else {
        rem
    }
}

/// Wraps a relative axis accumulator into a display window of width `range`.
pub fn wrapped_value(value: i32, range: i32) -> (wrapped: i32)
    requires
        range != 0,
        !(value == i32::MIN && range == -1),
        i32::MIN <= spec_wrapped_value(value as int, range as int) <= i32::MAX,
    ensures
        wrapped == spec_wrapped_value(value as int, range as int),
        range > 0 ==> -(range / 2) - 1 <= wrapped <= range / 2,
{
    // The remainder is taken on magnitudes, which is how Rust's `%` is defined
    // for signed operands; 64-bit intermediates keep every step in range.
    let m: i64 = if range < 0 { -(range as i64) } else { range as i64 };
    let a: i64 = if value < 0 { -(value as i64) } else { value as i64 };
    let r: i64 = a % m;
    let rem: i64 = if value < 0 { -r } else { r };
    let half: i64 = if range < 0 { -((m / 2)) } else { m / 2 };
    let wrapped: i64 = if rem > half {
        rem - range as i64
    } else if rem < -half {
        rem + range as i64
    } else {
        rem
    };
    wrapped as i32
}

/// Wrapping only moves a value by whole ranges: the displayed value differs
/// from the accumulated one by a multiple of the range.
pub proof fn law_wrap_keeps_residue(value: int, range: int)
    requires
        range > 0,
    ensures
        exists|k: int| #[trigger] (k * range) == spec_wrapped_value(value, range) - value,
{
    let rem = trunc_rem(value, range);
    let k0: int = if value >= 0 {
        vstd::arithmetic::div_mod::lemma_fundamental_div_mod(value, range);
        -(value / range)
    } else {
        vstd::arithmetic::div_mod::lemma_fundamental_div_mod(-value, range);
        (-value) / range
    };
    assert(rem - value == k0 * range) by (nonlinear_arith)
        requires
            value >= 0 ==> (value == range * (value / range) + value % range && rem == value % range && k0
                == -(value / range)),
            value < 0 ==> (-value == range * ((-value) / range) + (-value) % range && rem == -((-value)
                % range) && k0 == (-value) / range),
    ;
    let w = spec_wrapped_value(value, range);
    let c: int = if w == rem - range { -1 } else if w == rem + range { 1 } else { 0 };
    assert(w == rem + c * range);
    assert((k0 + c) * range == w - value) by (nonlinear_arith)
        requires
            rem - value == k0 * range,
            w == rem + c * range,
    ;
}

/// Wrapping the negated value gives the negated wrap: the window is
/// symmetric around zero.
pub proof fn law_wrap_is_symmetric(value: int, range: int)
    requires
        range > 0,
    ensures
        spec_wrapped_value(-value, range) == -spec_wrapped_value(value, range),
{
    if value == 0 {
        vstd::arithmetic::div_mod::lemma_small_mod(0, range as nat);
    }
    assert(trunc_rem(-value, range) == -trunc_rem(value, range));
}

/// A wrapped value lies in the window `[-(range / 2), range / 2]`, and
/// wrapping it again leaves it as it is.
pub proof fn law_wrap_is_idempotent(value: int, range: int)
    requires
        range > 0,
    ensures
        -trunc_div(range, 2) <= spec_wrapped_value(value, range) <= trunc_div(range, 2),
        spec_wrapped_value(spec_wrapped_value(value, range), range) == spec_wrapped_value(value, range),
{
    let half = trunc_div(range, 2);
    let rem = trunc_rem(value, range);
    assert(-range < rem < range) by {
        if value >= 0 {
            vstd::arithmetic::div_mod::lemma_mod_bound(value, range);
        } else {
            vstd::arithmetic::div_mod::lemma_mod_bound(-value, range);
        }
    }
    assert(half == range / 2);
    let w = spec_wrapped_value(value, range);
    assert(-half <= w <= half);
    assert(trunc_rem(w, range) == w) by {
        if w >= 0 {
            vstd::arithmetic::div_mod::lemma_small_mod(w as nat, range as nat);
        } else {
            vstd::arithmetic::div_mod::lemma_small_mod((-w) as nat, range as nat);
        }
    }
}

} // verus!
