use vstd::prelude::*;

verus! {

/// Integer division rounding toward zero, as Rust's `/` on signed integers does.
pub open spec fn trunc_div(a: int, b: int) -> int {
    if b > 0 {
        if a >= 0 { a / b } else { -((-a) / b) }
    } else {
        if a >= 0 { -(a / (-b)) } else { (-a) / (-b) }
    }
}

/// `a / b` on `i64`, rounding toward zero.
pub fn div_trunc_i64(a: i64, b: i64) -> (q: i64)
    requires
        b != 0,
        a != i64::MIN,
        b != i64::MIN,
    ensures
        q == trunc_div(a as int, b as int),
{
    if b > 0 {
        a / b
    } else {
        let nb = -b;
        let na = -a;
        if a >= 0 {
            -(a / nb)
        } else {
            na / nb
        }
    }
}

/// `x + y` wrapping around modulo 2^usize::BITS.
pub open spec fn add_wrap(x: usize, y: usize) -> usize {
    if x + y > usize::MAX {
        (x + y - (usize::MAX + 1)) as usize
    } else {
        (x + y) as usize
    }
}

/// `x - y` wrapping around modulo 2^usize::BITS.
pub open spec fn sub_wrap(x: usize, y: usize) -> usize {
    if x < y {
        (x - y + (usize::MAX + 1)) as usize
    } else {
        (x - y) as usize
    }
}

/// `x - y` wrapping around modulo 2^64.
pub open spec fn sub_wrap_u64(x: u64, y: u64) -> u64 {
    if x < y {
        (x - y + 0x1_0000_0000_0000_0000) as u64
    } else {
        (x - y) as u64
    }
}

} // verus!
