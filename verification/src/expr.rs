//! Compiled expressions.

use vstd::prelude::*;
use crate::span::IrSpanned;
use crate::values::Value;

verus! {

/// A compiled expression.
#[derive(Debug, PartialEq, Eq)]
pub enum ExprCompiled {
    /// A constant.
    Value(Value),
    /// Reads a local slot; fails while the slot is unassigned.
    Local(u32),
    /// Calls the routine with this number.  The call is observable, may fail,
    /// and its result is not known before the program runs.
    Call(u32),
    /// `not x`.
    Not(Box<IrSpanned<ExprCompiled>>),
    /// `x and y`.
    And(Box<(IrSpanned<ExprCompiled>, IrSpanned<ExprCompiled>)>),
    /// `x or y`.
    Or(Box<(IrSpanned<ExprCompiled>, IrSpanned<ExprCompiled>)>),
    /// Evaluates the first operand for its effect, then yields the second.
    Sequence(Box<(IrSpanned<ExprCompiled>, IrSpanned<ExprCompiled>)>),
}

impl ExprCompiled {
    /// The boolean that the expression is statically known to coerce to, if
    /// there is one.  An answer `Some(b)` is given only where evaluation can
    /// neither fail nor be observed; operands that short-circuit evaluation
    /// skips are not looked at.
    pub open spec fn pure_bool(self) -> Option<bool>
        decreases self,
    {
        match self {
            ExprCompiled::Value(v) => Some(v.truth()),
            ExprCompiled::Not(x) => match x.node.pure_bool() {
                Some(b) => Some(!b),
                None => None,
            },
            ExprCompiled::And(p) => match p.0.node.pure_bool() {
                Some(true) => p.1.node.pure_bool(),
                Some(false) => Some(false),
                None => None,
            },
            ExprCompiled::Or(p) => match p.0.node.pure_bool() {
                Some(false) => p.1.node.pure_bool(),
                Some(true) => Some(true),
                None => None,
            },
            _ => None,
        }
    }

    /// Asks whether the expression is free of effects and failure and coerces
    /// to a boolean that is known now.
    pub fn is_pure_infallible_to_bool(&self) -> (r: Option<bool>)
        ensures
            r == self.pure_bool(),
        decreases *self,
    {
        match self {
            ExprCompiled::Value(v) => Some(v.to_bool()),
            ExprCompiled::Not(x) => match x.node.is_pure_infallible_to_bool() {
                Some(b) => Some(!b),
                None => None,
            },
            ExprCompiled::And(p) => match p.0.node.is_pure_infallible_to_bool() {
                Some(true) => p.1.node.is_pure_infallible_to_bool(),
                Some(false) => Some(false),
                None => None,
            },
            ExprCompiled::Or(p) => match p.0.node.is_pure_infallible_to_bool() {
                Some(false) => p.1.node.is_pure_infallible_to_bool(),
                Some(true) => Some(true),
                None => None,
            },
            _ => None,
        }
    }

    /// The expression that evaluates `a` for its effect, drops what it
    /// yields, and then yields `b`.  Its span covers both operands.
    pub fn seq(a: IrSpanned<ExprCompiled>, b: IrSpanned<ExprCompiled>) -> (s: IrSpanned<
        ExprCompiled,
    >)
        ensures
            s == (IrSpanned {
                span: a.span.spec_merge(b.span),
                node: ExprCompiled::Sequence(Box::new((a, b))),
            }),
    {
        let span = a.span.merge(&b.span);
        IrSpanned { span, node: ExprCompiled::Sequence(Box::new((a, b))) }
    }
}

} // verus!
