use vstd::prelude::*;

use crate::expr::{expr_model, Expr, Literal};
use crate::number::{decimal_of_f64, num_render};
use crate::token::{BinaryTokenType, UnaryTokenType};
use crate::value::append_bytes;

verus! {

// A pure serializer for syntax trees, a debugging aid with no part in
// evaluation: operators render as `(<operator> <child>...)`, groupings as
// `(group <child>)`, literals as their text.

/// The lexeme a binary operator prints as.
pub open spec fn spec_binary_op_text(k: BinaryTokenType) -> Seq<u8> {
    match k {
        BinaryTokenType::Minus => seq![('-' as u8)],
        BinaryTokenType::Plus => seq![('+' as u8)],
        BinaryTokenType::Slash => seq![('/' as u8)],
        BinaryTokenType::Star => seq![('*' as u8)],
        BinaryTokenType::BangEqual => seq![('!' as u8), ('=' as u8)],
        BinaryTokenType::EqualEqual => seq![('=' as u8), ('=' as u8)],
        BinaryTokenType::Greater => seq![('>' as u8)],
        BinaryTokenType::GreaterEqual => seq![('>' as u8), ('=' as u8)],
        BinaryTokenType::Less => seq![('<' as u8)],
        BinaryTokenType::LessEqual => seq![('<' as u8), ('=' as u8)],
    }
}

/// The lexeme a unary operator prints as.
pub open spec fn spec_unary_op_text(k: UnaryTokenType) -> Seq<u8> {
    match k {
        UnaryTokenType::Minus => seq![('-' as u8)],
        UnaryTokenType::Bang => seq![('!' as u8)],
    }
}

/// The printed form of one expression.
pub open spec fn spec_render(e: Expr<Seq<u8>>) -> Seq<u8>
    decreases e,
{
    match e {
        Expr::Binary(left, op, right) => seq![('(' as u8)] + spec_binary_op_text(op.kind) + seq![
            (' ' as u8),
        ] + spec_render(*left) + seq![(' ' as u8)] + spec_render(*right) + seq![(')' as u8)],
        Expr::Grouping(inner) => seq![
            ('(' as u8),
            ('g' as u8),
            ('r' as u8),
            ('o' as u8),
            ('u' as u8),
            ('p' as u8),
            (' ' as u8),
        ] + spec_render(*inner) + seq![(')' as u8)],
        Expr::Literal(Literal::Nil) => seq![('n' as u8), ('i' as u8), ('l' as u8)],
        Expr::Literal(Literal::Boolean(b)) => if b {
            seq![('t' as u8), ('r' as u8), ('u' as u8), ('e' as u8)]
        } else {
            seq![('f' as u8), ('a' as u8), ('l' as u8), ('s' as u8), ('e' as u8)]
        },
        Expr::Literal(Literal::Number(bits)) => decimal_of_f64(bits),
        Expr::Literal(Literal::String(s)) => s,
        Expr::Unary(op, operand) => seq![('(' as u8)] + spec_unary_op_text(op.kind) + seq![
            (' ' as u8),
        ] + spec_render(*operand) + seq![(')' as u8)],
    }
}

fn push_binary_op_text(out: &mut Vec<u8>, k: BinaryTokenType)
    ensures
        final(out)@ == old(out)@ + spec_binary_op_text(k),
{
    match k {
        BinaryTokenType::Minus => out.push('-' as u8),
        BinaryTokenType::Plus => out.push('+' as u8),
        BinaryTokenType::Slash => out.push('/' as u8),
        BinaryTokenType::Star => out.push('*' as u8),
        BinaryTokenType::BangEqual => {
            out.push('!' as u8);
            out.push('=' as u8);
        },
        BinaryTokenType::EqualEqual => {
            out.push('=' as u8);
            out.push('=' as u8);
        },
        BinaryTokenType::Greater => out.push('>' as u8),
        BinaryTokenType::GreaterEqual => {
            out.push('>' as u8);
            out.push('=' as u8);
        },
        BinaryTokenType::Less => out.push('<' as u8),
        BinaryTokenType::LessEqual => {
            out.push('<' as u8);
            out.push('=' as u8);
        },
    }
    proof {
        assert(final(out)@ =~= old(out)@ + spec_binary_op_text(k));
    }
}

/// Serializes one expression to its printed form, exactly as
/// `spec_render` states; the driver writes the bytes out.
pub fn render(expr: &Expr<Vec<u8>>) -> (r: Vec<u8>)
    ensures
        r@ == spec_render(expr_model(*expr)),
    decreases *expr,
{
    match expr {
        Expr::Binary(left, op, right) => {
            let mut out: Vec<u8> = Vec::new();
            out.push('(' as u8);
            push_binary_op_text(&mut out, op.kind);
            out.push(' ' as u8);
            let left_text = render(left);
            append_bytes(&mut out, left_text.as_slice());
            out.push(' ' as u8);
            let right_text = render(right);
            append_bytes(&mut out, right_text.as_slice());
            out.push(')' as u8);
            proof {
                assert(out@ =~= spec_render(expr_model(*expr)));
            }
            out
        },
        Expr::Grouping(inner) => {
            let mut out: Vec<u8> = Vec::new();
            out.push('(' as u8);
            out.push('g' as u8);
            out.push('r' as u8);
            out.push('o' as u8);
            out.push('u' as u8);
            out.push('p' as u8);
            out.push(' ' as u8);
            let inner_text = render(inner);
            append_bytes(&mut out, inner_text.as_slice());
            out.push(')' as u8);
            proof {
                assert(out@ =~= spec_render(expr_model(*expr)));
            }
            out
        },
        Expr::Literal(Literal::Nil) => {
            let mut out: Vec<u8> = Vec::new();
            out.push('n' as u8);
            out.push('i' as u8);
            out.push('l' as u8);
            proof {
                assert(out@ =~= spec_render(expr_model(*expr)));
            }
            out
        },
        Expr::Literal(Literal::Boolean(b)) => {
            let mut out: Vec<u8> = Vec::new();
            if *b {
                out.push('t' as u8);
                out.push('r' as u8);
                out.push('u' as u8);
                out.push('e' as u8);
            } else {
                out.push('f' as u8);
                out.push('a' as u8);
                out.push('l' as u8);
                out.push('s' as u8);
                out.push('e' as u8);
            }
            proof {
                assert(out@ =~= spec_render(expr_model(*expr)));
            }
            out
        },
        Expr::Literal(Literal::Number(bits)) => num_render(*bits),
        Expr::Literal(Literal::String(s)) => vstd::slice::slice_to_vec(s.as_slice()),
        Expr::Unary(op, operand) => {
            let mut out: Vec<u8> = Vec::new();
            out.push('(' as u8);
            match op.kind {
                UnaryTokenType::Minus => out.push('-' as u8),
                UnaryTokenType::Bang => out.push('!' as u8),
            }
            out.push(' ' as u8);
            let operand_text = render(operand);
            append_bytes(&mut out, operand_text.as_slice());
            out.push(')' as u8);
            proof {
                assert(out@ =~= spec_render(expr_model(*expr)));
            }
            out
        },
    }
}

} // verus!
