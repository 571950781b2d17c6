use vstd::prelude::*;

verus! {

/// All lengths, coordinates, padding and spacing values in this engine are
/// whole integer units, held in `i64`. Every arithmetic step saturates at
/// `UNIT_LIMIT` (about 2.25 * 10^15 units) instead of wrapping, so layout
/// never panics: results beyond that range are pinned to the limit.
/// Percentages are stored in thousandths (per-mille), so a fraction of
/// `800` means eighty percent.
pub const UNIT_LIMIT: i64 = 0x8_0000_0000_0000;

/// One whole, expressed in the per-mille scale used by percentage fractions.
pub const FRAC_ONE: i64 = 1000;

/// The value `v` pinned into `[-UNIT_LIMIT, UNIT_LIMIT]`.
pub open spec fn clamped(v: int) -> int {
    if v > UNIT_LIMIT as int {
        UNIT_LIMIT as int
    } else if v < -(UNIT_LIMIT as int) {
        -(UNIT_LIMIT as int)
    } else {
        v
    }
}

/// Saturating sum of two unit values.
pub open spec fn unit_add(a: int, b: int) -> int {
    clamped(a + b)
}

/// Saturating difference of two unit values.
pub open spec fn unit_sub(a: int, b: int) -> int {
    clamped(a - b)
}

pub open spec fn unit_min(a: int, b: int) -> int {
    if a < b {
        a
    } else {
        b
    }
}

pub open spec fn unit_max(a: int, b: int) -> int {
    if a < b {
        b
    } else {
        a
    }
}

/// `v * p / 1000`, the application of a per-mille fraction `p` to a value
/// `v`, rounded towards zero and saturated.
pub open spec fn unit_mul_frac(v: int, p: int) -> int {
    let m = v * p;
    if m >= 0 {
        clamped(m / (FRAC_ONE as int))
    } else {
        clamped(-((-m) / (FRAC_ONE as int)))
    }
}

/// Half of `v`, rounded towards zero.
pub open spec fn unit_half(v: int) -> int {
    if v >= 0 {
        v / 2
    } else {
        -((-v) / 2)
    }
}

fn clamp_wide(v: i128) -> (r: i64)
    ensures
        r == clamped(v as int),
{
    if v > UNIT_LIMIT as i128 {
        UNIT_LIMIT
    } else if v < -(UNIT_LIMIT as i128) {
        -UNIT_LIMIT
    } else {
        v as i64
    }
}

pub fn add_units(a: i64, b: i64) -> (r: i64)
    ensures
        r == unit_add(a as int, b as int),
{
    clamp_wide(a as i128 + b as i128)
}

pub fn sub_units(a: i64, b: i64) -> (r: i64)
    ensures
        r == unit_sub(a as int, b as int),
{
    clamp_wide(a as i128 - b as i128)
}

pub fn min_units(a: i64, b: i64) -> (r: i64)
    ensures
        r == unit_min(a as int, b as int),
{
    if a < b {
        a
    } else {
        b
    }
}

pub fn max_units(a: i64, b: i64) -> (r: i64)
    ensures
        r == unit_max(a as int, b as int),
{
    if a < b {
        b
    } else {
        a
    }
}

pub fn mul_frac(v: i64, p: i64) -> (r: i64)
    ensures
        r == unit_mul_frac(v as int, p as int),
{
    let vw = v as i128;
    let pw = p as i128;
    let va: u128 = if vw >= 0 {
        vw as u128
    } else {
        (-vw) as u128
    };
    let pa: u128 = if pw >= 0 {
        pw as u128
    } else {
        (-pw) as u128
    };
    proof {
        assert(va * pa <= 0x8000_0000_0000_0000 * 0x8000_0000_0000_0000) by (nonlinear_arith)
            requires
                va <= 0x8000_0000_0000_0000u128,
                pa <= 0x8000_0000_0000_0000u128,
        ;
    }
    let prod = va * pa;
    let q = prod / (FRAC_ONE as u128);
    proof {
        assert(q <= prod) by (nonlinear_arith)
            requires
                q == prod / 1000,
        ;
        let m = (v as int) * (p as int);
        if vw >= 0 && pw >= 0 {
            assert(va * pa == m) by (nonlinear_arith)
                requires
                    va == vw && pa == pw && vw == v as int && pw == p as int && m == (v as int) * (
                    p as int),
            ;
        } else if vw < 0 && pw < 0 {
            assert(va * pa == m) by (nonlinear_arith)
                requires
                    va == -vw && pa == -pw && vw == v as int && pw == p as int && m == (v as int)
                        * (p as int),
            ;
        } else {
            assert(va * pa == -m) by (nonlinear_arith)
                requires
                    ((va == vw && pa == -pw) || (va == -vw && pa == pw)) && vw == v as int && pw
                        == p as int && m == (v as int) * (p as int),
            ;
        }
    }
    let negative = (v < 0) != (p < 0);
    if negative {
        clamp_wide(-(q as i128))
    } else {
        clamp_wide(q as i128)
    }
}

/// `n * v`, the total of `n` copies of a unit value, saturated.
pub open spec fn unit_scale(n: int, v: int) -> int {
    clamped(n * v)
}

pub fn scale_units(n: usize, v: i64) -> (r: i64)
    ensures
        r == unit_scale(n as int, v as int),
{
    let nw = n as u128;
    let vw = v as i128;
    let va: u128 = if vw >= 0 {
        vw as u128
    } else {
        (-vw) as u128
    };
    proof {
        assert(nw * va <= 0xffff_ffff_ffff_ffff * 0x8000_0000_0000_0000) by (nonlinear_arith)
            requires
                nw <= 0xffff_ffff_ffff_ffffu128,
                va <= 0x8000_0000_0000_0000u128,
        ;
        if vw >= 0 {
            assert(nw * va == (n as int) * (v as int)) by (nonlinear_arith)
                requires
                    nw == n as int,
                    va == vw,
                    vw == v as int,
            ;
        } else {
            assert(nw * va == -((n as int) * (v as int))) by (nonlinear_arith)
                requires
                    nw == n as int,
                    va == -vw,
                    vw == v as int,
            ;
        }
    }
    let prod = nw * va;
    if v >= 0 {
        if prod > UNIT_LIMIT as u128 {
            UNIT_LIMIT
        } else {
            prod as i64
        }
    } else {
        if prod > UNIT_LIMIT as u128 {
            -UNIT_LIMIT
        } else {
            -(prod as i64)
        }
    }
}

pub fn half_unit(v: i64) -> (r: i64)
    ensures
        r == unit_half(v as int),
{
    let vw = v as i128;
    if vw >= 0 {
        (vw / 2) as i64
    } else {
        (-((-vw) / 2)) as i64
    }
}

} // verus!
