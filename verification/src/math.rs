//! Integer arithmetic helpers: sum, difference, product and truncating
//! quotient of two machine integers.

use vstd::prelude::*;

verus! {

/// Truncating (round-toward-zero) integer division, the quotient that the
/// division operator of the host language computes.
pub open spec fn trunc_div(a: int, b: int) -> int
    recommends
        b != 0,
{
    if a >= 0 && b > 0 {
        a / b
    } else if a < 0 && b < 0 {
        (-a) / (-b)
    } else if a < 0 {
        -((-a) / b)
    } else {
        -(a / (-b))
    }
}

/// Sum of two machine integers.
pub fn add(a: i32, b: i32) -> (r: i32)
    requires
        i32::MIN <= a + b <= i32::MAX,
    ensures
        r == a + b,
{
    a + b
}

/// Difference of two machine integers.
pub fn subtract(a: i32, b: i32) -> (r: i32)
    requires
        i32::MIN <= a - b <= i32::MAX,
    ensures
        r == a - b,
{
    a - b
}

/// Product of two machine integers.
pub fn multiply(a: i32, b: i32) -> (r: i32)
    requires
        i32::MIN <= a * b <= i32::MAX,
    ensures
        r == a * b,
{
    a * b
}

/// Truncating quotient of two machine integers; division by zero is
/// reported as an error rather than attempted.
pub fn divide(a: i32, b: i32) -> (r: Result<i32, String>)
    requires
        !(a == i32::MIN && b == -1),
    ensures
        b == 0 ==> (r matches Err(m) && m@ == "Division by zero"@),
        b != 0 ==> (r matches Ok(q) && q == trunc_div(a as int, b as int)),
{
    if b == 0 {
        Err(String::from_str("Division by zero"))
    } else {
        let ua: u32 = if a >= 0 {
            a as u32
        } else {
            ((-(a as i64)) as u64) as u32
        };
        let ub: u32 = if b >= 0 {
            b as u32
        } else {
            ((-(b as i64)) as u64) as u32
        };
        assert(ua == if a >= 0 { a as int } else { -(a as int) });
        assert(ub == if b >= 0 { b as int } else { -(b as int) });
        let uq: u32 = ua / ub;
        assert(uq <= ua) by (nonlinear_arith)
            requires
                ub >= 1,
                uq == ua as int / ub as int,
        ;
        if (a >= 0) == (b >= 0) {
            assert(uq <= i32::MAX) by {
                if ua == 0x8000_0000u32 {
                    assert(ub >= 2);
                    assert(ua as int / ub as int <= ua as int / 2) by (nonlinear_arith)
                        requires
                            ub >= 2,
                            ua >= 0,
                    ;
                }
            };
            Ok(uq as i32)
        } else {
            Ok((-(uq as i64)) as i32)
        }
    }
}

} // verus!
