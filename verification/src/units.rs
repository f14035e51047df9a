//! Fixed-point units and the checked arithmetic the ledger is built on.
//!
//! A quantity of shares and a unit price are `i64` counts of millionths. A money
//! amount is an `i128` count of millionths of a millionth of a currency unit, so
//! that the product of a quantity and a price is an amount with nothing rounded.

use vstd::prelude::*;
use vstd::arithmetic::div_mod::lemma_fundamental_div_mod;

verus! {

/// Number of quantity units in one share.
pub const QUANTITY_SCALE: i64 = 1_000_000;

/// Number of price units in one currency unit.
pub const PRICE_SCALE: i64 = 1_000_000;

/// Number of amount units in one currency unit.
pub const AMOUNT_SCALE: i128 = 1_000_000_000_000;

/// A position whose quantity is at most this far from zero counts as closed.
pub const QUANTITY_EPSILON: i64 = 1;

/// A cost basis at most this large counts as nothing invested.
pub const AMOUNT_EPSILON: i128 = 1_000_000;

/// Number of percentage units in one percent.
pub const PERCENT_SCALE: i128 = 1_000_000;

/// The amounts the ledger can hold: the 128-bit range without its lowest value,
/// so that the negation of an amount is an amount.
pub open spec fn in_range(x: int) -> bool {
    -(i128::MAX as int) <= x <= i128::MAX as int
}

/// The absolute value of an integer.
pub open spec fn magnitude(x: int) -> int {
    if x < 0 {
        -x
    } else {
        x
    }
}

/// The quotient of `n` by `d` rounded towards negative infinity, for `d` other than 0.
pub open spec fn floor_div(n: int, d: int) -> int {
    if d > 0 {
        n / d
    } else {
        (-n) / (-d)
    }
}

/// `floor_div(n, d)` is the one integer `k` with `k * d <= n < (k + 1) * d` for a
/// positive divisor, and with the inequalities turned round for a negative one.
pub proof fn lemma_floor_div_bounds(n: int, d: int)
    requires
        d != 0,
    ensures
        d > 0 ==> floor_div(n, d) * d <= n < (floor_div(n, d) + 1) * d,
        d < 0 ==> floor_div(n, d) * d >= n > (floor_div(n, d) + 1) * d,
{
    if d > 0 {
        lemma_fundamental_div_mod(n, d);
        assert(floor_div(n, d) * d <= n < (floor_div(n, d) + 1) * d) by (nonlinear_arith)
            requires
                n == d * (n / d) + n % d,
                0 <= n % d < d,
                floor_div(n, d) == n / d,
        ;
    } else {
        let m = -n;
        let e = -d;
        lemma_fundamental_div_mod(m, e);
        assert(floor_div(n, d) * d >= n > (floor_div(n, d) + 1) * d) by (nonlinear_arith)
            requires
                m == e * (m / e) + m % e,
                0 <= m % e < e,
                floor_div(n, d) == m / e,
                m == -n,
                e == -d,
        ;
    }
}

/// A quotient is no further from zero than its dividend.
pub proof fn lemma_floor_div_in_range(n: int, d: int)
    requires
        d != 0,
        in_range(n),
    ensures
        in_range(floor_div(n, d)),
{
    lemma_floor_div_bounds(n, d);
    let k = floor_div(n, d);
    assert(-(i128::MAX as int) <= k <= i128::MAX as int) by (nonlinear_arith)
        requires
            d != 0,
            -(i128::MAX as int) <= n <= i128::MAX as int,
            d > 0 ==> k * d <= n < (k + 1) * d,
            d < 0 ==> k * d >= n > (k + 1) * d,
    ;
}

/// Dividing a multiple of `d` by `d` gives the other factor back.
pub proof fn lemma_floor_div_of_multiple(k: int, d: int)
    requires
        d != 0,
    ensures
        floor_div(k * d, d) == k,
{
    lemma_floor_div_bounds(k * d, d);
    let f = floor_div(k * d, d);
    assert(f == k) by (nonlinear_arith)
        requires
            d != 0,
            d > 0 ==> f * d <= k * d < (f + 1) * d,
            d < 0 ==> f * d >= k * d > (f + 1) * d,
    ;
}

/// The sum of two amounts, if it is an amount.
pub fn amount_add(a: i128, b: i128) -> (r: Option<i128>)
    ensures
        r == (if in_range(a + b) {
            Some((a + b) as i128)
        } else {
            None
        }),
{
    match a.checked_add(b) {
        Some(s) => if s == i128::MIN {
            None
        } else {
            Some(s)
        },
        None => None,
    }
}

/// The difference of two amounts, if it is an amount.
pub fn amount_sub(a: i128, b: i128) -> (r: Option<i128>)
    ensures
        r == (if in_range(a - b) {
            Some((a - b) as i128)
        } else {
            None
        }),
{
    match a.checked_sub(b) {
        Some(s) => if s == i128::MIN {
            None
        } else {
            Some(s)
        },
        None => None,
    }
}

/// The product of two amounts, if it is an amount.
pub fn amount_mul(a: i128, b: i128) -> (r: Option<i128>)
    ensures
        r == (if in_range(a * b) {
            Some((a * b) as i128)
        } else {
            None
        }),
{
    match a.checked_mul(b) {
        Some(s) => if s == i128::MIN {
            None
        } else {
            Some(s)
        },
        None => None,
    }
}

/// The quotient of an amount by a divisor other than 0, rounded towards negative
/// infinity.
pub fn amount_div_floor(n: i128, d: i128) -> (r: i128)
    requires
        d != 0,
        in_range(n as int),
        in_range(d as int),
    ensures
        r == floor_div(n as int, d as int),
{
    proof {
        lemma_floor_div_in_range(n as int, d as int);
    }
    if d > 0 {
        match n.checked_div_euclid(d) {
            Some(k) => k,
            None => 0,
        }
    } else {
        let m: i128 = -n;
        let e: i128 = -d;
        match m.checked_div_euclid(e) {
            Some(k) => k,
            None => 0,
        }
    }
}

} // verus!
