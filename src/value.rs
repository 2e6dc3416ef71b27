use vstd::prelude::*;

verus! {

/// A runtime value: a 64-bit signed integer or a boolean.
#[derive(Debug, Clone, Copy, PartialEq, Eq, Structural)]
pub enum Value {
    Integer(i64),
    Boolean(bool),
}

/// Division of integers that truncates toward zero.
pub open spec fn trunc_div(a: int, b: int) -> int
    recommends
        b != 0,
{
    if a >= 0 && b > 0 {
        a / b
    } else if a < 0 && b < 0 {
        (-a) / (-b)
    } else if a < 0 {
        -((-a) / b)
    } else {
        -(a / (-b))
    }
}

/// Truncating division on `i64`, wrapping on the single overflowing case
/// (`i64::MIN / -1`).
pub open spec fn i64_div(a: i64, b: i64) -> i64
    recommends
        b != 0,
{
    if trunc_div(a as int, b as int) > i64::MAX {
        i64::MIN
    } else {
        trunc_div(a as int, b as int) as i64
    }
}

/// Whether a value counts as true: a boolean is its own truth value, an
/// integer is true when it is nonzero.
pub open spec fn truthy(v: Value) -> bool {
    match v {
        Value::Boolean(b) => b,
        Value::Integer(n) => n != 0,
    }
}

pub open spec fn spec_add(a: Value, b: Value) -> Option<Value> {
    match (a, b) {
        (Value::Integer(x), Value::Integer(y)) => Some(Value::Integer(x.wrapping_add(y))),
        _ => None,
    }
}

pub open spec fn spec_sub(a: Value, b: Value) -> Option<Value> {
    match (a, b) {
        (Value::Integer(x), Value::Integer(y)) => Some(Value::Integer(x.wrapping_sub(y))),
        _ => None,
    }
}

pub open spec fn spec_mul(a: Value, b: Value) -> Option<Value> {
    match (a, b) {
        (Value::Integer(x), Value::Integer(y)) => Some(Value::Integer(x.wrapping_mul(y))),
        _ => None,
    }
}

/// Integer division; `None` for non-integers and for a zero divisor.
pub open spec fn spec_div(a: Value, b: Value) -> Option<Value> {
    match (a, b) {
        (Value::Integer(x), Value::Integer(y)) => if y == 0 {
            None
        } else {
            Some(Value::Integer(i64_div(x, y)))
        },
        _ => None,
    }
}

pub open spec fn spec_gt(a: Value, b: Value) -> Option<Value> {
    match (a, b) {
        (Value::Integer(x), Value::Integer(y)) => Some(Value::Boolean(x > y)),
        _ => None,
    }
}

pub open spec fn spec_lt(a: Value, b: Value) -> Option<Value> {
    match (a, b) {
        (Value::Integer(x), Value::Integer(y)) => Some(Value::Boolean(x < y)),
        _ => None,
    }
}

pub open spec fn spec_gte(a: Value, b: Value) -> Option<Value> {
    match (a, b) {
        (Value::Integer(x), Value::Integer(y)) => Some(Value::Boolean(x >= y)),
        _ => None,
    }
}

pub open spec fn spec_lte(a: Value, b: Value) -> Option<Value> {
    match (a, b) {
        (Value::Integer(x), Value::Integer(y)) => Some(Value::Boolean(x <= y)),
        _ => None,
    }
}

/// Equality of two values of the same kind; `None` across kinds.
pub open spec fn spec_eq(a: Value, b: Value) -> Option<Value> {
    match (a, b) {
        (Value::Integer(x), Value::Integer(y)) => Some(Value::Boolean(x == y)),
        (Value::Boolean(x), Value::Boolean(y)) => Some(Value::Boolean(x == y)),
        _ => None,
    }
}

pub open spec fn spec_neq(a: Value, b: Value) -> Option<Value> {
    match (a, b) {
        (Value::Integer(x), Value::Integer(y)) => Some(Value::Boolean(x != y)),
        (Value::Boolean(x), Value::Boolean(y)) => Some(Value::Boolean(x != y)),
        _ => None,
    }
}

/// Division truncates toward zero: the quotient times the divisor never
/// overshoots the dividend, and what is left is smaller than the divisor.
pub proof fn lemma_div_truncates(a: i64, b: i64)
    requires
        b != 0,
        !(a == i64::MIN && b == -1),
    ensures
        spec_div(Value::Integer(a), Value::Integer(b)) == Some(
            Value::Integer(trunc_div(a as int, b as int) as i64),
        ),
        vstd::math::abs(trunc_div(a as int, b as int) * b) <= vstd::math::abs(a as int),
        vstd::math::abs(a - trunc_div(a as int, b as int) * b) < vstd::math::abs(b as int),
        (a >= 0) == (b >= 0) || trunc_div(a as int, b as int) <= 0,
{
    let x = vstd::math::abs(a as int);
    let y = vstd::math::abs(b as int);
    let q = x / y;
    assert(trunc_div(a as int, b as int) == if (a < 0) == (b < 0) {
        q as int
    } else {
        -(q as int)
    });
    assert(q * y <= x && x - q * y < y) by (nonlinear_arith)
        requires
            y > 0,
            x >= 0,
            q == x / y,
    ;
    assert(0 <= q <= x) by (nonlinear_arith)
        requires
            y > 0,
            x >= 0,
            q == x / y,
    ;
    assert(vstd::math::abs(trunc_div(a as int, b as int) * b) == q * y) by (nonlinear_arith)
        requires
            q >= 0,
            y == vstd::math::abs(b as int),
            trunc_div(a as int, b as int) == q || trunc_div(a as int, b as int) == -q,
    ;
    assert(vstd::math::abs(a - trunc_div(a as int, b as int) * b) == x - q * y) by (
        nonlinear_arith)
        requires
            q >= 0,
            q * y <= x,
            x == vstd::math::abs(a as int),
            y == vstd::math::abs(b as int),
            (a < 0) == (b < 0) ==> trunc_div(a as int, b as int) == q,
            (a < 0) != (b < 0) ==> trunc_div(a as int, b as int) == -q,
    ;
    assert(y >= 2 ==> 2 * q <= x) by (nonlinear_arith)
        requires
            q >= 0,
            q * y <= x,
    ;
    assert(y == 1 ==> q == x) by (nonlinear_arith)
        requires
            q * y <= x,
            x - q * y < y,
    ;
}

impl Value {
    /// An integer value.
    pub fn int_solution(n: i64) -> (r: Value)
        ensures
            r == Value::Integer(n),
    {
        Value::Integer(n)
    }

    /// The integer inside, or `None` for a boolean.
    pub fn as_int_solution(&self) -> (r: Option<i64>)
        ensures
            r == (match *self {
                Value::Integer(n) => Some(n),
                _ => None,
            }),
    {
        match self {
            Value::Integer(n) => Some(*n),
            _ => None,
        }
    }

    /// Sum of two integers, wrapping on overflow.
    pub fn add_solution(self, other: Value) -> (r: Option<Value>)
        ensures
            r == spec_add(self, other),
    {
        match (self, other) {
            (Value::Integer(a), Value::Integer(b)) => Some(Value::Integer(a.wrapping_add(b))),
            _ => None,
        }
    }

    /// Difference of two integers, wrapping on overflow.
    pub fn sub_solution(self, other: Value) -> (r: Option<Value>)
        ensures
            r == spec_sub(self, other),
    {
        match (self, other) {
            (Value::Integer(a), Value::Integer(b)) => Some(Value::Integer(a.wrapping_sub(b))),
            _ => None,
        }
    }

    /// Product of two integers, wrapping on overflow.
    pub fn mul_solution(self, other: Value) -> (r: Option<Value>)
        ensures
            r == spec_mul(self, other),
    {
        match (self, other) {
            (Value::Integer(a), Value::Integer(b)) => Some(Value::Integer(a.wrapping_mul(b))),
            _ => None,
        }
    }

    /// Quotient of two integers, truncated toward zero; `None` on a zero
    /// divisor or a non-integer operand.
    pub fn div_solution(self, other: Value) -> (r: Option<Value>)
        ensures
            r == spec_div(self, other),
    {
        match (self, other) {
            (Value::Integer(a), Value::Integer(b)) => {
                if b == 0 {
                    None
                } else {
                    match a.checked_div(b) {
                        Some(q) => Some(Value::Integer(q)),
                        None => Some(Value::Integer(i64::MIN)),
                    }
                }
            },
            _ => None,
        }
    }

    /// A boolean value.
    pub fn bool_solution(b: bool) -> (r: Value)
        ensures
            r == Value::Boolean(b),
    {
        Value::Boolean(b)
    }

    /// The boolean inside, or `None` for an integer.
    pub fn as_bool_solution(&self) -> (r: Option<bool>)
        ensures
            r == (match *self {
                Value::Boolean(b) => Some(b),
                _ => None,
            }),
    {
        match self {
            Value::Boolean(b) => Some(*b),
            _ => None,
        }
    }

    /// Whether the value counts as true in a conditional jump.
    pub fn is_truthy_solution(&self) -> (r: bool)
        ensures
            r == truthy(*self),
    {
        match self {
            Value::Boolean(b) => *b,
            Value::Integer(n) => *n != 0,
        }
    }

    pub fn gt_solution(self, other: Value) -> (r: Option<Value>)
        ensures
            r == spec_gt(self, other),
    {
        match (self, other) {
            (Value::Integer(a), Value::Integer(b)) => Some(Value::Boolean(a > b)),
            _ => None,
        }
    }

    pub fn lt_solution(self, other: Value) -> (r: Option<Value>)
        ensures
            r == spec_lt(self, other),
    {
        match (self, other) {
            (Value::Integer(a), Value::Integer(b)) => Some(Value::Boolean(a < b)),
            _ => None,
        }
    }

    pub fn gte_solution(self, other: Value) -> (r: Option<Value>)
        ensures
            r == spec_gte(self, other),
    {
        match (self, other) {
            (Value::Integer(a), Value::Integer(b)) => Some(Value::Boolean(a >= b)),
            _ => None,
        }
    }

    pub fn lte_solution(self, other: Value) -> (r: Option<Value>)
        ensures
            r == spec_lte(self, other),
    {
        match (self, other) {
            (Value::Integer(a), Value::Integer(b)) => Some(Value::Boolean(a <= b)),
            _ => None,
        }
    }

    pub fn eq_solution(self, other: Value) -> (r: Option<Value>)
        ensures
            r == spec_eq(self, other),
    {
        match (self, other) {
            (Value::Integer(a), Value::Integer(b)) => Some(Value::Boolean(a == b)),
            (Value::Boolean(a), Value::Boolean(b)) => Some(Value::Boolean(a == b)),
            _ => None,
        }
    }

    pub fn neq_solution(self, other: Value) -> (r: Option<Value>)
        ensures
            r == spec_neq(self, other),
    {
        match (self, other) {
            (Value::Integer(a), Value::Integer(b)) => Some(Value::Boolean(a != b)),
            (Value::Boolean(a), Value::Boolean(b)) => Some(Value::Boolean(a != b)),
            _ => None,
        }
    }
}

} // verus!
