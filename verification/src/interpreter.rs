use vstd::prelude::*;

use crate::error::{runtime_error, DiagnosticModel, Diagnostics};
use crate::expr::{expr_model, lit_model, Expr, Literal};
use crate::token::{BinaryTokenType, UnaryTokenType};
use crate::value::{
    spec_value_add, spec_value_div, spec_value_eq, spec_value_ge, spec_value_gt, spec_value_le,
    spec_value_lt, spec_value_mul, spec_value_neg, spec_value_not, spec_value_sub,
    Value, ValueError,
};

verus! {

/// A failed evaluation step: its verbatim message and the line of the
/// operator that failed.
#[derive(Debug, PartialEq)]
pub struct RuntimeError {
    pub message: &'static str,
    pub line: u32,
}

/// The specification-level form of a runtime error.
pub struct RuntimeErrorModel {
    pub message: Seq<char>,
    pub line: u32,
}

impl RuntimeError {
    pub open spec fn model(&self) -> RuntimeErrorModel {
        RuntimeErrorModel { message: self.message@, line: self.line }
    }
}

/// The specification-level form of an evaluation outcome.
pub open spec fn eval_res_model(r: Result<Value<Vec<u8>>, RuntimeError>) -> Result<
    Value<Seq<u8>>,
    RuntimeErrorModel,
> {
    match r {
        Ok(v) => Ok(v@),
        Err(e) => Err(e.model()),
    }
}

/// The value a literal node evaluates to.
pub open spec fn spec_literal_value(l: Literal<Seq<u8>>) -> Value<Seq<u8>> {
    match l {
        Literal::Nil => Value::Nil,
        Literal::Boolean(b) => Value::Boolean(b),
        Literal::Number(bits) => Value::Number(bits),
        Literal::String(s) => Value::String(s),
    }
}

/// Attaches the failing operator's line to a value operation's outcome.
pub open spec fn spec_with_line(r: Result<Value<Seq<u8>>, Seq<char>>, line: u32) -> Result<
    Value<Seq<u8>>,
    RuntimeErrorModel,
> {
    match r {
        Ok(v) => Ok(v),
        Err(message) => Err(RuntimeErrorModel { message, line }),
    }
}

/// The meaning of one expression: a recursive post-order walk. Operands
/// are evaluated left before right, and the first failure short-circuits
/// the enclosing expression unchanged.
pub open spec fn spec_eval(e: Expr<Seq<u8>>) -> Result<Value<Seq<u8>>, RuntimeErrorModel>
    decreases e,
{
    match e {
        Expr::Literal(l) => Ok(spec_literal_value(l)),
        Expr::Grouping(inner) => spec_eval(*inner),
        Expr::Unary(op, operand) => match spec_eval(*operand) {
            Err(err) => Err(err),
            Ok(v) => match op.kind {
                UnaryTokenType::Bang => spec_with_line(spec_value_not(v), op.line),
                UnaryTokenType::Minus => spec_with_line(spec_value_neg(v), op.line),
            },
        },
        Expr::Binary(left, op, right) => match spec_eval(*left) {
            Err(err) => Err(err),
            Ok(lv) => match spec_eval(*right) {
                Err(err) => Err(err),
                Ok(rv) => spec_with_line(
                    match op.kind {
                        BinaryTokenType::Minus => spec_value_sub(lv, rv),
                        BinaryTokenType::Plus => spec_value_add(lv, rv),
                        BinaryTokenType::Slash => spec_value_div(lv, rv),
                        BinaryTokenType::Star => spec_value_mul(lv, rv),
                        BinaryTokenType::BangEqual => Ok(
                            Value::Boolean(!spec_value_eq(lv, rv)),
                        ),
                        BinaryTokenType::EqualEqual => Ok(Value::Boolean(spec_value_eq(lv, rv))),
                        BinaryTokenType::Greater => spec_value_gt(lv, rv),
                        BinaryTokenType::GreaterEqual => spec_value_ge(lv, rv),
                        BinaryTokenType::Less => spec_value_lt(lv, rv),
                        BinaryTokenType::LessEqual => spec_value_le(lv, rv),
                    },
                    op.line,
                ),
            },
        },
    }
}

/// The tree-walking evaluator. It will gain state later; for now one
/// instance evaluates one expression at a time.
pub struct Interpreter {}

impl Interpreter {
    pub fn new() -> Self {
        Self {}
    }

    /// Evaluates one expression exactly as `spec_eval` states: the
    /// resulting value on success, or the first runtime failure with the
    /// failing operator's line.
    pub fn evaluate(&self, expr: &Expr<Vec<u8>>) -> (r: Result<Value<Vec<u8>>, RuntimeError>)
        ensures
            eval_res_model(r) == spec_eval(expr_model(*expr)),
        decreases *expr,
    {
        match expr {
            Expr::Literal(l) => Ok(
                match l {
                    Literal::Nil => Value::Nil,
                    Literal::Boolean(b) => Value::Boolean(*b),
                    Literal::Number(bits) => Value::Number(*bits),
                    Literal::String(s) => Value::String(
                        vstd::slice::slice_to_vec(s.as_slice()),
                    ),
                },
            ),
            Expr::Grouping(inner) => self.evaluate(inner),
            Expr::Unary(op, operand) => {
                let v = match self.evaluate(operand) {
                    Ok(v) => v,
                    Err(err) => {
                        return Err(err);
                    },
                };
                let outcome = match op.kind {
                    UnaryTokenType::Bang => v.not(),
                    UnaryTokenType::Minus => v.neg(),
                };
                match outcome {
                    Ok(v) => Ok(v),
                    Err(ValueError(message)) => Err(
                        RuntimeError { message, line: op.line },
                    ),
                }
            },
            Expr::Binary(left, op, right) => {
                let lv = match self.evaluate(left) {
                    Ok(v) => v,
                    Err(err) => {
                        return Err(err);
                    },
                };
                let rv = match self.evaluate(right) {
                    Ok(v) => v,
                    Err(err) => {
                        return Err(err);
                    },
                };
                let outcome = match op.kind {
                    BinaryTokenType::Minus => lv.sub(&rv),
                    BinaryTokenType::Plus => lv.add(&rv),
                    BinaryTokenType::Slash => lv.div(&rv),
                    BinaryTokenType::Star => lv.mul(&rv),
                    BinaryTokenType::BangEqual => lv.ne(&rv),
                    BinaryTokenType::EqualEqual => lv.eq(&rv),
                    BinaryTokenType::Greater => lv.gt(&rv),
                    BinaryTokenType::GreaterEqual => lv.ge(&rv),
                    BinaryTokenType::Less => lv.lt(&rv),
                    BinaryTokenType::LessEqual => lv.le(&rv),
                };
                match outcome {
                    Ok(v) => Ok(v),
                    Err(ValueError(message)) => Err(
                        RuntimeError { message, line: op.line },
                    ),
                }
            },
        }
    }

    /// Evaluates one expression for the driver: hands back the value for
    /// printing, or records the runtime failure in the session and hands
    /// back nothing.
    pub fn interpret(&self, expr: &Expr<Vec<u8>>, diags: &mut Diagnostics) -> (r: Option<
        Value<Vec<u8>>,
    >)
        ensures
            match spec_eval(expr_model(*expr)) {
                Ok(v) => {
                    &&& r matches Some(rv) && rv@ == v
                    &&& *final(diags) == *old(diags)
                },
                Err(err) => {
                    &&& r is None
                    &&& crate::error::entries_model(final(diags)) == crate::error::entries_model(
                        old(diags),
                    ).push(DiagnosticModel::Runtime { line: err.line, message: err.message })
                    &&& final(diags).had_runtime_error
                    &&& final(diags).had_error == old(diags).had_error
                },
            },
    {
        match self.evaluate(expr) {
            Ok(value) => Some(value),
            Err(RuntimeError { message, line }) => {
                runtime_error(diags, message, line);
                None
            },
        }
    }
}

} // verus!
