//! Expressions that are about to be truth-tested.

use vstd::prelude::*;
use crate::equivalence::{lemma_known_iff_pure, theorem_folding_preserves_truth};
use crate::expr::ExprCompiled;
use crate::semantics::{eval_bool, Env};
use crate::span::{FrozenFileSpan, IrSpanned};
use crate::values::Value;

verus! {

/// An expression of which only the truth matters.
#[derive(Debug, PartialEq, Eq)]
pub enum ExprCompiledBool {
    /// The truth is known now, and nothing is left to run.
    Const(bool),
    /// An expression that has to run.
    Expr(ExprCompiled),
}

impl IrSpanned<ExprCompiledBool> {
    /// The general expression that stands for `self`, at the same place.
    pub open spec fn lowered(self) -> IrSpanned<ExprCompiled> {
        IrSpanned { span: self.span, node: self.node.lowered() }
    }

    /// Turns `self` back into a general expression, keeping its span.
    pub fn into_expr(self) -> (e: IrSpanned<ExprCompiled>)
        ensures
            e == self.lowered(),
    {
        IrSpanned { span: self.span, node: self.node.into_expr() }
    }
}

/// The node whose truth is known to be `b`, at `span`.
pub open spec fn known_at(span: FrozenFileSpan, b: bool) -> IrSpanned<ExprCompiledBool> {
    IrSpanned { span, node: ExprCompiledBool::Const(b) }
}

fn new_bool(span: FrozenFileSpan, b: bool) -> (r: IrSpanned<ExprCompiledBool>)
    ensures
        r == known_at(span, b),
{
    IrSpanned { node: ExprCompiledBool::Const(b), span }
}

impl ExprCompiledBool {
    /// The general expression that stands for `self`: a boolean literal for a
    /// known truth, the expression itself otherwise.
    pub open spec fn lowered(self) -> ExprCompiled {
        match self {
            ExprCompiledBool::Const(b) => ExprCompiled::Value(Value::Bool(b)),
            ExprCompiledBool::Expr(e) => e,
        }
    }

    /// Turns `self` back into a general expression.
    pub fn into_expr(self) -> (e: ExprCompiled)
        ensures
            e == self.lowered(),
    {
        match self {
            ExprCompiledBool::Const(b) => ExprCompiled::Value(Value::new_bool(b)),
            ExprCompiledBool::Expr(e) => e,
        }
    }

    /// The truth of `self` where it is known.
    pub open spec fn known(self) -> Option<bool> {
        match self {
            ExprCompiledBool::Const(b) => Some(b),
            ExprCompiledBool::Expr(_) => None,
        }
    }

    /// Reads the truth of `self` where it is known.
    pub fn const_value(&self) -> (r: Option<bool>)
        ensures
            r == self.known(),
    {
        match self {
            ExprCompiledBool::Const(b) => Some(*b),
            ExprCompiledBool::Expr(..) => None,
        }
    }

    /// `not x`, for an operand `x` that has been folded already.
    pub open spec fn folded_not(span: FrozenFileSpan, x: IrSpanned<ExprCompiledBool>) -> IrSpanned<
        ExprCompiledBool,
    > {
        match x.node.known() {
            Some(b) => known_at(span, !b),
            None => IrSpanned {
                span,
                node: ExprCompiledBool::Expr(ExprCompiled::Not(Box::new(x.lowered()))),
            },
        }
    }

    /// `x and y`, for operands that have been folded already.
    ///
    /// A false `x` decides, and `y` is dropped.  A true `x` leaves `y`.  A
    /// true `y` leaves `x`.  A false `y` leaves `x` to run for its effect,
    /// followed by the literal `false`.
    pub open spec fn folded_and(
        span: FrozenFileSpan,
        x: IrSpanned<ExprCompiledBool>,
        y: IrSpanned<ExprCompiledBool>,
    ) -> IrSpanned<ExprCompiledBool> {
        match (x.node.known(), y.node.known()) {
            (Some(false), _) => known_at(span, false),
            (Some(true), _) => y,
            (None, Some(true)) => x,
            (None, Some(false)) => IrSpanned {
                span,
                node: ExprCompiledBool::Expr(
                    ExprCompiled::Sequence(Box::new((x.lowered(), known_at(y.span, false).lowered()))),
                ),
            },
            (None, None) => IrSpanned {
                span,
                node: ExprCompiledBool::Expr(ExprCompiled::And(Box::new((x.lowered(), y.lowered())))),
            },
        }
    }

    /// `x or y`, for operands that have been folded already: as for `and`,
    /// with true and false changing places.
    pub open spec fn folded_or(
        span: FrozenFileSpan,
        x: IrSpanned<ExprCompiledBool>,
        y: IrSpanned<ExprCompiledBool>,
    ) -> IrSpanned<ExprCompiledBool> {
        match (x.node.known(), y.node.known()) {
            (Some(true), _) => known_at(span, true),
            (Some(false), _) => y,
            (None, Some(false)) => x,
            (None, Some(true)) => IrSpanned {
                span,
                node: ExprCompiledBool::Expr(
                    ExprCompiled::Sequence(Box::new((x.lowered(), known_at(y.span, true).lowered()))),
                ),
            },
            (None, None) => IrSpanned {
                span,
                node: ExprCompiledBool::Expr(ExprCompiled::Or(Box::new((x.lowered(), y.lowered())))),
            },
        }
    }

    /// The folded form of `expr`.
    ///
    /// An expression whose truth is statically known becomes that truth,
    /// whatever it is made of.  Otherwise `not`, `and` and `or` are folded
    /// from their folded operands, and any other expression stays as it is.
    pub open spec fn folded(expr: IrSpanned<ExprCompiled>) -> IrSpanned<ExprCompiledBool>
        decreases expr,
    {
        match expr.node.pure_bool() {
            Some(b) => known_at(expr.span, b),
            None => match expr.node {
                ExprCompiled::Not(x) => Self::folded_not(expr.span, Self::folded(*x)),
                ExprCompiled::And(p) => Self::folded_and(
                    expr.span,
                    Self::folded(p.0),
                    Self::folded(p.1),
                ),
                ExprCompiled::Or(p) => Self::folded_or(
                    expr.span,
                    Self::folded(p.0),
                    Self::folded(p.1),
                ),
                other => IrSpanned { span: expr.span, node: ExprCompiledBool::Expr(other) },
            },
        }
    }

    /// `bool(expr)`, folded as far as can be done without running anything.
    ///
    /// The truth comes out known exactly where it is statically known, and a
    /// truth test of the result, lowered, cannot be told from one of `expr`:
    /// the same calls in the same order, failure in the same runs, the same
    /// truth.
    pub fn new(expr: IrSpanned<ExprCompiled>) -> (r: IrSpanned<ExprCompiledBool>)
        ensures
            r == Self::folded(expr),
            r.node.known() == expr.node.pure_bool(),
            forall|env: Env, trace: Seq<u32>|
                #![trigger eval_bool(r.lowered().node, env, trace)]
                eval_bool(r.lowered().node, env, trace) == eval_bool(expr.node, env, trace),
        decreases expr,
    {
        proof {
            lemma_known_iff_pure(expr);
            assert forall|env: Env, trace: Seq<u32>|
                #![trigger eval_bool(Self::folded(expr).lowered().node, env, trace)]
                eval_bool(Self::folded(expr).lowered().node, env, trace) == eval_bool(
                    expr.node,
                    env,
                    trace,
                ) by {
                theorem_folding_preserves_truth(expr, env, trace);
            }
        }
        let span = expr.span;

        if let Some(b) = expr.node.is_pure_infallible_to_bool() {
            return new_bool(span, b);
        }

        match expr.node {
            ExprCompiled::Not(x) => {
                let x = Self::new(*x);
                match x.node.const_value() {
                    Some(b) => new_bool(span, !b),
                    None => IrSpanned {
                        node: ExprCompiledBool::Expr(ExprCompiled::Not(Box::new(x.into_expr()))),
                        span,
                    },
                }
            },
            ExprCompiled::And(p) => {
                let (x, y) = *p;
                let x = Self::new(x);
                let y = Self::new(y);
                match (x.node.const_value(), y.node.const_value()) {
                    (Some(false), _) => new_bool(span, false),
                    (Some(true), _) => y,
                    (None, Some(true)) => x,
                    (None, Some(false)) => {
                        // The truth is known, but the left operand still has
                        // to run for its effect.
                        IrSpanned {
                            span,
                            node: ExprCompiledBool::Expr(
                                ExprCompiled::seq(x.into_expr(), new_bool(y.span, false).into_expr()).node,
                            ),
                        }
                    },
                    (None, None) => IrSpanned {
                        node: ExprCompiledBool::Expr(
                            ExprCompiled::And(Box::new((x.into_expr(), y.into_expr()))),
                        ),
                        span,
                    },
                }
            },
            ExprCompiled::Or(p) => {
                let (x, y) = *p;
                let x = Self::new(x);
                let y = Self::new(y);
                match (x.node.const_value(), y.node.const_value()) {
                    (Some(true), _) => new_bool(span, true),
                    (Some(false), _) => y,
                    (None, Some(false)) => x,
                    (None, Some(true)) => {
                        // The truth is known, but the left operand still has
                        // to run for its effect.
                        IrSpanned {
                            span,
                            node: ExprCompiledBool::Expr(
                                ExprCompiled::seq(x.into_expr(), new_bool(y.span, true).into_expr()).node,
                            ),
                        }
                    },
                    (None, None) => IrSpanned {
                        node: ExprCompiledBool::Expr(
                            ExprCompiled::Or(Box::new((x.into_expr(), y.into_expr()))),
                        ),
                        span,
                    },
                }
            },
            other => IrSpanned { node: ExprCompiledBool::Expr(other), span },
        }
    }
}

} // verus!
