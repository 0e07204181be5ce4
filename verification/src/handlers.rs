//! The arithmetic operations behind the calculator endpoints and the
//! handlers that turn a request body into a response or a typed failure.
//!
//! Division rejects a zero divisor with [`ErrorKind::DivideByZero`]; that is
//! the one handled failure the service itself produces.

use vstd::prelude::*;

use vstd::arithmetic::div_mod::{
    lemma_div_is_ordered_by_denominator, lemma_div_nonincreasing, lemma_div_pos_is_pos,
};

use crate::errors::ErrorKind;

verus! {

/// The body of a calculation request: the two operands.
#[derive(Clone, Copy, Debug, PartialEq, Eq, Structural)]
pub struct CalculationRequest {
    pub x: i32,
    pub y: i32,
}

/// The body of a calculation response: the result.
#[derive(Clone, Copy, Debug, PartialEq, Eq, Structural)]
pub struct CalculationResponse {
    pub res: i32,
}

/// The body of the health-check response.
#[derive(Debug)]
pub struct StatusResponse {
    pub status: String,
}

/// Adds the operands.
pub fn add(x: i32, y: i32) -> (r: Result<i32, ErrorKind>)
    requires
        i32::MIN <= x + y <= i32::MAX,
    ensures
        r == Result::<i32, ErrorKind>::Ok((x + y) as i32),
{
    Ok(x + y)
}

/// Subtracts the second operand from the first.
pub fn sub(x: i32, y: i32) -> (r: Result<i32, ErrorKind>)
    requires
        i32::MIN <= x - y <= i32::MAX,
    ensures
        r == Result::<i32, ErrorKind>::Ok((x - y) as i32),
{
    Ok(x - y)
}

/// Multiplies the operands.
pub fn mul(x: i32, y: i32) -> (r: Result<i32, ErrorKind>)
    requires
        i32::MIN <= x * y <= i32::MAX,
    ensures
        r == Result::<i32, ErrorKind>::Ok((x * y) as i32),
{
    Ok(x * y)
}

/// The quotient of `x` and `d` as machine division computes it: the exact
/// quotient rounded towards zero.
pub open spec fn spec_div_trunc(x: int, d: int) -> int
    recommends
        d != 0,
{
    if x == 0 {
        0
    } else if x > 0 && d > 0 {
        x / d
    } else if x < 0 && d < 0 {
        (x * -1) / (d * -1)
    } else if x < 0 {
        ((x * -1) / d) * -1
    } else {
        (x / (d * -1)) * -1
    }
}

/// For any operands a division can be asked for, the truncated quotient
/// fits in the result type.
proof fn lemma_div_trunc_fits(x: int, d: int)
    requires
        i32::MIN <= x <= i32::MAX,
        i32::MIN <= d <= i32::MAX,
        d != 0,
        !(x == i32::MIN && d == -1),
    ensures
        i32::MIN <= spec_div_trunc(x, d) <= i32::MAX,
{
    if x == 0 {
    } else if x > 0 && d > 0 {
        lemma_div_pos_is_pos(x, d);
        lemma_div_nonincreasing(x, d);
    } else if x < 0 && d < 0 {
        lemma_div_pos_is_pos(x * -1, d * -1);
        lemma_div_nonincreasing(x * -1, d * -1);
        if d == -1 {
            // x != i32::MIN here, so -x stays within the positive range.
            assert(x * -1 <= i32::MAX);
        } else {
            lemma_div_is_ordered_by_denominator(x * -1, 2, d * -1);
            lemma_div_nonincreasing(x * -1, 2);
            assert((x * -1) / 2 <= i32::MAX) by {
                assert(x * -1 <= 0x8000_0000);
            };
        }
    } else if x < 0 {
        lemma_div_pos_is_pos(x * -1, d);
        lemma_div_nonincreasing(x * -1, d);
    } else {
        lemma_div_pos_is_pos(x, d * -1);
        lemma_div_nonincreasing(x, d * -1);
    }
}

/// Divides the first operand by the second; a zero divisor is rejected with
/// [`ErrorKind::DivideByZero`].
pub fn div(x: i32, y: i32) -> (r: Result<i32, ErrorKind>)
    requires
        !(x == i32::MIN && y == -1),
    ensures
        y == 0 ==> r == Result::<i32, ErrorKind>::Err(ErrorKind::DivideByZero),
        y != 0 ==> r == Result::<i32, ErrorKind>::Ok(spec_div_trunc(x as int, y as int) as i32),
{
    if y == 0 {
        Err(ErrorKind::DivideByZero)
    } else {
        proof {
            lemma_div_trunc_fits(x as int, y as int);
        }
        match x.checked_div(y) {
            Some(q) => Ok(q),
            None => Err(ErrorKind::DivideByZero),
        }
    }
}

/// Handles an addition request.
pub fn handle_add(body: CalculationRequest) -> (r: Result<CalculationResponse, ErrorKind>)
    requires
        i32::MIN <= body.x + body.y <= i32::MAX,
    ensures
        r == Result::<CalculationResponse, ErrorKind>::Ok(
            CalculationResponse { res: (body.x + body.y) as i32 },
        ),
{
    match crate::handlers::add(body.x, body.y) {
        Ok(res) => Ok(CalculationResponse { res }),
        Err(e) => Err(e),
    }
}

/// Handles a subtraction request.
pub fn handle_sub(body: CalculationRequest) -> (r: Result<CalculationResponse, ErrorKind>)
    requires
        i32::MIN <= body.x - body.y <= i32::MAX,
    ensures
        r == Result::<CalculationResponse, ErrorKind>::Ok(
            CalculationResponse { res: (body.x - body.y) as i32 },
        ),
{
    match crate::handlers::sub(body.x, body.y) {
        Ok(res) => Ok(CalculationResponse { res }),
        Err(e) => Err(e),
    }
}

/// Handles a multiplication request.
pub fn handle_mul(body: CalculationRequest) -> (r: Result<CalculationResponse, ErrorKind>)
    requires
        i32::MIN <= body.x * body.y <= i32::MAX,
    ensures
        r == Result::<CalculationResponse, ErrorKind>::Ok(
            CalculationResponse { res: (body.x * body.y) as i32 },
        ),
{
    match crate::handlers::mul(body.x, body.y) {
        Ok(res) => Ok(CalculationResponse { res }),
        Err(e) => Err(e),
    }
}

/// Handles a division request: a zero divisor yields the one client-fault
/// failure of the service.
pub fn handle_div(body: CalculationRequest) -> (r: Result<CalculationResponse, ErrorKind>)
    requires
        !(body.x == i32::MIN && body.y == -1),
    ensures
        body.y == 0 ==> r == Result::<CalculationResponse, ErrorKind>::Err(
            ErrorKind::DivideByZero,
        ),
        body.y != 0 ==> r == Result::<CalculationResponse, ErrorKind>::Ok(
            CalculationResponse { res: spec_div_trunc(body.x as int, body.y as int) as i32 },
        ),
{
    match crate::handlers::div(body.x, body.y) {
        Ok(res) => Ok(CalculationResponse { res }),
        Err(e) => Err(e),
    }
}

/// Handles the health check.
pub fn status() -> (r: StatusResponse)
    ensures
        r.status@ == "OK"@,
{
    StatusResponse { status: "OK".to_string() }
}

} // verus!
