use vstd::prelude::*;

use crate::number::{
    f64_add_bits, f64_div_bits, f64_eq_bits, f64_ge_bits, f64_gt_bits, f64_is_nan, f64_le_bits,
    f64_lt_bits, f64_mul_bits, f64_neg_bits, f64_sub_bits, num_add, num_div, num_eq, num_le,
    num_lt, num_mul, num_neg, num_sub,
};

verus! {

/// A runtime value. `S` is the representation of string content:
/// executable code uses `Value<Vec<u8>>`, specifications `Value<Seq<u8>>`.
/// Numbers are IEEE-754 binary64 bit patterns.
#[derive(Debug, PartialEq)]
pub enum Value<S> {
    Nil,
    Boolean(bool),
    Number(u64),
    String(S),
}

impl View for Value<Vec<u8>> {
    type V = Value<Seq<u8>>;

    open spec fn view(&self) -> Value<Seq<u8>> {
        match self {
            Value::Nil => Value::Nil,
            Value::Boolean(b) => Value::Boolean(*b),
            Value::Number(bits) => Value::Number(*bits),
            Value::String(s) => Value::String(s@),
        }
    }
}

/// An operator applied to operands of the wrong type; carries the verbatim
/// error message.
#[derive(Debug, PartialEq)]
pub struct ValueError(pub &'static str);

pub type ValueResult = Result<Value<Vec<u8>>, ValueError>;

/// The specification-level form of a value operation's outcome: the value
/// model on success, the message text on failure.
pub open spec fn res_model(r: ValueResult) -> Result<Value<Seq<u8>>, Seq<char>> {
    match r {
        Ok(v) => Ok(v@),
        Err(e) => Err(e.0@),
    }
}

/// Truthiness: every value is truthy except `Nil` and `Boolean(false)`.
/// All numbers, zero included, and all strings, empty included, are truthy.
pub open spec fn spec_truthy(v: Value<Seq<u8>>) -> bool {
    match v {
        Value::Nil => false,
        Value::Boolean(b) => b,
        _ => true,
    }
}

/// Structural equality over the full value domain, with no coercion:
/// values of different variants are never equal, numbers compare by
/// IEEE-754 equality, strings by content.
pub open spec fn spec_value_eq(a: Value<Seq<u8>>, b: Value<Seq<u8>>) -> bool {
    match (a, b) {
        (Value::Nil, Value::Nil) => true,
        (Value::Boolean(x), Value::Boolean(y)) => x == y,
        (Value::Number(x), Value::Number(y)) => f64_eq_bits(x, y),
        (Value::String(x), Value::String(y)) => x == y,
        _ => false,
    }
}

/// `+` adds two numbers or concatenates two strings; every other pairing
/// fails.
pub open spec fn spec_value_add(a: Value<Seq<u8>>, b: Value<Seq<u8>>) -> Result<
    Value<Seq<u8>>,
    Seq<char>,
> {
    match (a, b) {
        (Value::Number(x), Value::Number(y)) => Ok(Value::Number(f64_add_bits(x, y))),
        (Value::String(x), Value::String(y)) => Ok(Value::String(x + y)),
        _ => Err("Operands must be two numbers or two strings."@),
    }
}

pub open spec fn spec_value_sub(a: Value<Seq<u8>>, b: Value<Seq<u8>>) -> Result<
    Value<Seq<u8>>,
    Seq<char>,
> {
    match (a, b) {
        (Value::Number(x), Value::Number(y)) => Ok(Value::Number(f64_sub_bits(x, y))),
        _ => Err("Operands must be numbers."@),
    }
}

pub open spec fn spec_value_mul(a: Value<Seq<u8>>, b: Value<Seq<u8>>) -> Result<
    Value<Seq<u8>>,
    Seq<char>,
> {
    match (a, b) {
        (Value::Number(x), Value::Number(y)) => Ok(Value::Number(f64_mul_bits(x, y))),
        _ => Err("Operands must be numbers."@),
    }
}

/// Division follows IEEE-754 semantics verbatim: division by zero is not a
/// failure, it gives an infinity or a NaN.
pub open spec fn spec_value_div(a: Value<Seq<u8>>, b: Value<Seq<u8>>) -> Result<
    Value<Seq<u8>>,
    Seq<char>,
> {
    match (a, b) {
        (Value::Number(x), Value::Number(y)) => Ok(Value::Number(f64_div_bits(x, y))),
        _ => Err("Operands must be numbers."@),
    }
}

pub open spec fn spec_value_lt(a: Value<Seq<u8>>, b: Value<Seq<u8>>) -> Result<
    Value<Seq<u8>>,
    Seq<char>,
> {
    match (a, b) {
        (Value::Number(x), Value::Number(y)) => Ok(Value::Boolean(f64_lt_bits(x, y))),
        _ => Err("Operands must be numbers."@),
    }
}

pub open spec fn spec_value_le(a: Value<Seq<u8>>, b: Value<Seq<u8>>) -> Result<
    Value<Seq<u8>>,
    Seq<char>,
> {
    match (a, b) {
        (Value::Number(x), Value::Number(y)) => Ok(Value::Boolean(f64_le_bits(x, y))),
        _ => Err("Operands must be numbers."@),
    }
}

pub open spec fn spec_value_gt(a: Value<Seq<u8>>, b: Value<Seq<u8>>) -> Result<
    Value<Seq<u8>>,
    Seq<char>,
> {
    match (a, b) {
        (Value::Number(x), Value::Number(y)) => Ok(Value::Boolean(f64_gt_bits(x, y))),
        _ => Err("Operands must be numbers."@),
    }
}

pub open spec fn spec_value_ge(a: Value<Seq<u8>>, b: Value<Seq<u8>>) -> Result<
    Value<Seq<u8>>,
    Seq<char>,
> {
    match (a, b) {
        (Value::Number(x), Value::Number(y)) => Ok(Value::Boolean(f64_ge_bits(x, y))),
        _ => Err("Operands must be numbers."@),
    }
}

/// `-` negates a number; every other operand fails.
pub open spec fn spec_value_neg(a: Value<Seq<u8>>) -> Result<Value<Seq<u8>>, Seq<char>> {
    match a {
        Value::Number(x) => Ok(Value::Number(f64_neg_bits(x))),
        _ => Err("Operand must be a number."@),
    }
}

/// `!` maps every value to the boolean opposite of its truthiness; it
/// never fails.
pub open spec fn spec_value_not(a: Value<Seq<u8>>) -> Result<Value<Seq<u8>>, Seq<char>> {
    Ok(Value::Boolean(!spec_truthy(a)))
}

/// Truthiness holds for every value except `Nil` and `Boolean(false)`:
/// the two falsy values are exactly those.
pub proof fn lemma_truthiness(v: Value<Seq<u8>>)
    ensures
        spec_truthy(v) <==> !(v == Value::<Seq<u8>>::Nil || v == Value::<Seq<u8>>::Boolean(false)),
{
}

/// Dividing one number by another never fails, whatever the divisor:
/// division by zero yields the IEEE-754 infinity or NaN value instead.
pub proof fn lemma_division_never_fails(a: u64, b: u64)
    ensures
        spec_value_div(Value::Number(a), Value::Number(b)) == Ok::<Value<Seq<u8>>, Seq<char>>(
            Value::Number(f64_div_bits(a, b)),
        ),
{
}

/// Equality is reflexive over the whole value domain except at NaN
/// numbers: `v == v` holds if and only if `v` is not a NaN.
pub proof fn lemma_value_eq_reflexive(v: Value<Seq<u8>>)
    ensures
        spec_value_eq(v, v) <==> !(v matches Value::Number(bits) && f64_is_nan(bits)),
{
}

/// Values of different variants are never equal: there is no cross-variant
/// coercion.
pub proof fn lemma_value_eq_no_coercion(a: Value<Seq<u8>>, b: Value<Seq<u8>>)
    requires
        !(a is Nil && b is Nil),
        !(a is Boolean && b is Boolean),
        !(a is Number && b is Number),
        !(a is String && b is String),
    ensures
        !spec_value_eq(a, b),
{
}

pub(crate) fn bytes_eq(a: &[u8], b: &[u8]) -> (r: bool)
    ensures
        r == (a@ == b@),
{
    if a.len() != b.len() {
        return false;
    }
    let mut i: usize = 0;
    while i < a.len()
        invariant
            i <= a.len(),
            a@.len() == b@.len(),
            forall|j: int| 0 <= j < i ==> a@[j] == b@[j],
        decreases a.len() - i,
    {
        if a[i] != b[i] {
            return false;
        }
        i += 1;
    }
    proof {
        assert(a@ =~= b@);
    }
    true
}

pub(crate) fn append_bytes(dst: &mut Vec<u8>, src: &[u8])
    ensures
        final(dst)@ == old(dst)@ + src@,
{
    let mut i: usize = 0;
    while i < src.len()
        invariant
            i <= src.len(),
            dst@ == old(dst)@ + src@.subrange(0, i as int),
        decreases src.len() - i,
    {
        dst.push(src[i]);
        proof {
            assert(old(dst)@ + src@.subrange(0, i as int) + seq![src@[i as int]] =~= old(dst)@
                + src@.subrange(0, i + 1));
        }
        i += 1;
    }
    proof {
        assert(src@.subrange(0, src@.len() as int) =~= src@);
    }
}

impl Value<Vec<u8>> {
    /// Truthiness holds for every value except `Nil` and `Boolean(false)`.
    pub fn is_truthy(&self) -> (r: bool)
        ensures
            r == spec_truthy(self@),
    {
        !(matches!(self, Value::Nil) || matches!(self, Value::Boolean(false)))
    }

    /// `==` over the full value domain; never fails. Together with
    /// `lemma_value_eq_reflexive` this pins the whole equality table.
    pub fn eq(&self, other: &Value<Vec<u8>>) -> (r: ValueResult)
        ensures
            res_model(r) == Ok::<Value<Seq<u8>>, Seq<char>>(Value::Boolean(spec_value_eq(self@, other@))),
    {
        let b = match (self, other) {
            (Value::Nil, Value::Nil) => true,
            (Value::Boolean(x), Value::Boolean(y)) => *x == *y,
            (Value::Number(x), Value::Number(y)) => num_eq(*x, *y),
            (Value::String(x), Value::String(y)) => bytes_eq(x.as_slice(), y.as_slice()),
            _ => false,
        };
        Ok(Value::Boolean(b))
    }

    /// `!=` is the negation of `==`; never fails.
    pub fn ne(&self, other: &Value<Vec<u8>>) -> (r: ValueResult)
        ensures
            res_model(r) == Ok::<Value<Seq<u8>>, Seq<char>>(Value::Boolean(!spec_value_eq(self@, other@))),
    {
        let b = match (self, other) {
            (Value::Nil, Value::Nil) => true,
            (Value::Boolean(x), Value::Boolean(y)) => *x == *y,
            (Value::Number(x), Value::Number(y)) => num_eq(*x, *y),
            (Value::String(x), Value::String(y)) => bytes_eq(x.as_slice(), y.as_slice()),
            _ => false,
        };
        Ok(Value::Boolean(!b))
    }

    pub fn lt(&self, other: &Value<Vec<u8>>) -> (r: ValueResult)
        ensures
            res_model(r) == spec_value_lt(self@, other@),
    {
        match (self, other) {
            (Value::Number(x), Value::Number(y)) => Ok(Value::Boolean(num_lt(*x, *y))),
            _ => Err(ValueError("Operands must be numbers.")),
        }
    }

    pub fn le(&self, other: &Value<Vec<u8>>) -> (r: ValueResult)
        ensures
            res_model(r) == spec_value_le(self@, other@),
    {
        match (self, other) {
            (Value::Number(x), Value::Number(y)) => Ok(Value::Boolean(num_le(*x, *y))),
            _ => Err(ValueError("Operands must be numbers.")),
        }
    }

    pub fn gt(&self, other: &Value<Vec<u8>>) -> (r: ValueResult)
        ensures
            res_model(r) == spec_value_gt(self@, other@),
    {
        match (self, other) {
            (Value::Number(x), Value::Number(y)) => Ok(Value::Boolean(num_lt(*y, *x))),
            _ => Err(ValueError("Operands must be numbers.")),
        }
    }

    pub fn ge(&self, other: &Value<Vec<u8>>) -> (r: ValueResult)
        ensures
            res_model(r) == spec_value_ge(self@, other@),
    {
        match (self, other) {
            (Value::Number(x), Value::Number(y)) => Ok(Value::Boolean(num_le(*y, *x))),
            _ => Err(ValueError("Operands must be numbers.")),
        }
    }

    /// `+`: numeric addition or string concatenation, exactly as
    /// `spec_value_add` states.
    pub fn add(&self, other: &Value<Vec<u8>>) -> (r: ValueResult)
        ensures
            res_model(r) == spec_value_add(self@, other@),
    {
        match (self, other) {
            (Value::Number(x), Value::Number(y)) => Ok(Value::Number(num_add(*x, *y))),
            (Value::String(x), Value::String(y)) => {
                let mut joined = vstd::slice::slice_to_vec(x.as_slice());
                append_bytes(&mut joined, y.as_slice());
                Ok(Value::String(joined))
            },
            _ => Err(ValueError("Operands must be two numbers or two strings.")),
        }
    }

    pub fn sub(&self, other: &Value<Vec<u8>>) -> (r: ValueResult)
        ensures
            res_model(r) == spec_value_sub(self@, other@),
    {
        match (self, other) {
            (Value::Number(x), Value::Number(y)) => Ok(Value::Number(num_sub(*x, *y))),
            _ => Err(ValueError("Operands must be numbers.")),
        }
    }

    pub fn mul(&self, other: &Value<Vec<u8>>) -> (r: ValueResult)
        ensures
            res_model(r) == spec_value_mul(self@, other@),
    {
        match (self, other) {
            (Value::Number(x), Value::Number(y)) => Ok(Value::Number(num_mul(*x, *y))),
            _ => Err(ValueError("Operands must be numbers.")),
        }
    }

    pub fn div(&self, other: &Value<Vec<u8>>) -> (r: ValueResult)
        ensures
            res_model(r) == spec_value_div(self@, other@),
    {
        match (self, other) {
            (Value::Number(x), Value::Number(y)) => Ok(Value::Number(num_div(*x, *y))),
            _ => Err(ValueError("Operands must be numbers.")),
        }
    }

    pub fn neg(&self) -> (r: ValueResult)
        ensures
            res_model(r) == spec_value_neg(self@),
    {
        match self {
            Value::Number(x) => Ok(Value::Number(num_neg(*x))),
            _ => Err(ValueError("Operand must be a number.")),
        }
    }

    pub fn not(&self) -> (r: ValueResult)
        ensures
            res_model(r) == spec_value_not(self@),
    {
        Ok(Value::Boolean(!self.is_truthy()))
    }
}

} // verus!
