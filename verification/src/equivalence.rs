//! What folding keeps and what it gives: the theorems about
//! `ExprCompiledBool::folded`.

use vstd::prelude::*;
use crate::expr::ExprCompiled;
use crate::expr_bool::{known_at, ExprCompiledBool};
use crate::semantics::{eval, eval_bool, BoolOutcome, Env};
use crate::span::{FrozenFileSpan, IrSpanned};
use crate::values::Value;

verus! {

/// Folding yields a known truth exactly for the expressions whose truth is
/// statically known, and then that truth.
pub proof fn lemma_known_iff_pure(expr: IrSpanned<ExprCompiled>)
    ensures
        ExprCompiledBool::folded(expr).node.known() == expr.node.pure_bool(),
    decreases expr,
{
    match expr.node {
        ExprCompiled::Not(x) => {
            lemma_known_iff_pure(*x);
        },
        ExprCompiled::And(p) => {
            lemma_known_iff_pure(p.0);
            lemma_known_iff_pure(p.1);
        },
        ExprCompiled::Or(p) => {
            lemma_known_iff_pure(p.0);
            lemma_known_iff_pure(p.1);
        },
        _ => {},
    }
}

/// Folding does not change what a truth test observes: in every environment
/// and after every trace, testing the lowered folded expression makes the
/// same calls in the same order, fails in the same runs, and finds the same
/// truth as testing the expression itself.
pub proof fn theorem_folding_preserves_truth(
    expr: IrSpanned<ExprCompiled>,
    env: Env,
    trace: Seq<u32>,
)
    ensures
        eval_bool(ExprCompiledBool::folded(expr).lowered().node, env, trace) == eval_bool(
            expr.node,
            env,
            trace,
        ),
    decreases expr,
{
    match expr.node.pure_bool() {
        Some(b) => {
            crate::semantics::lemma_pure_bool_sound(expr.node, b, env, trace);
        },
        None => {
            match expr.node {
                ExprCompiled::Not(x) => {
                    theorem_folding_preserves_truth(*x, env, trace);
                },
                ExprCompiled::And(p) => {
                    let after_x = eval(p.0.node, env, trace).trace;
                    theorem_folding_preserves_truth(p.0, env, trace);
                    theorem_folding_preserves_truth(p.1, env, after_x);
                    theorem_folding_preserves_truth(p.1, env, trace);
                },
                ExprCompiled::Or(p) => {
                    let after_x = eval(p.0.node, env, trace).trace;
                    theorem_folding_preserves_truth(p.0, env, trace);
                    theorem_folding_preserves_truth(p.1, env, after_x);
                    theorem_folding_preserves_truth(p.1, env, trace);
                },
                _ => {},
            }
        },
    }
}

/// An expression whose truth is statically known folds to that truth and to
/// nothing else, whatever `not`, `and` and `or` it is made of.
pub proof fn lemma_pure_collapses(expr: IrSpanned<ExprCompiled>, b: bool)
    requires
        expr.node.pure_bool() == Some(b),
    ensures
        ExprCompiledBool::folded(expr) == known_at(expr.span, b),
{
}

/// `x and y` at `span`.
pub open spec fn and_at(
    span: FrozenFileSpan,
    x: IrSpanned<ExprCompiled>,
    y: IrSpanned<ExprCompiled>,
) -> IrSpanned<ExprCompiled> {
    IrSpanned { span, node: ExprCompiled::And(Box::new((x, y))) }
}

/// `x or y` at `span`.
pub open spec fn or_at(
    span: FrozenFileSpan,
    x: IrSpanned<ExprCompiled>,
    y: IrSpanned<ExprCompiled>,
) -> IrSpanned<ExprCompiled> {
    IrSpanned { span, node: ExprCompiled::Or(Box::new((x, y))) }
}

/// `not x` at `span`.
pub open spec fn not_at(span: FrozenFileSpan, x: IrSpanned<ExprCompiled>) -> IrSpanned<
    ExprCompiled,
> {
    IrSpanned { span, node: ExprCompiled::Not(Box::new(x)) }
}

/// The expression that runs `x` and then yields the literal `b`, which stands
/// at `at`.
pub open spec fn run_then(x: IrSpanned<ExprCompiled>, at: FrozenFileSpan, b: bool) -> ExprCompiled {
    ExprCompiled::Sequence(
        Box::new((x, IrSpanned { span: at, node: ExprCompiled::Value(Value::Bool(b)) })),
    )
}

/// The negation of an operand that folds to a known truth is the opposite
/// truth; the negation of any other operand is `not` of the folded operand.
pub proof fn lemma_not(span: FrozenFileSpan, x: IrSpanned<ExprCompiled>)
    ensures
        ExprCompiledBool::folded(not_at(span, x)) == match ExprCompiledBool::folded(x).node {
            ExprCompiledBool::Const(b) => known_at(span, !b),
            ExprCompiledBool::Expr(_) => IrSpanned {
                span,
                node: ExprCompiledBool::Expr(
                    ExprCompiled::Not(Box::new(ExprCompiledBool::folded(x).lowered())),
                ),
            },
        },
{
    lemma_known_iff_pure(x);
}

/// A conjunction whose left operand folds to false folds to false: nothing
/// of the right operand is left in the result, and testing it makes no call
/// at all.
pub proof fn lemma_and_false_left(
    span: FrozenFileSpan,
    x: IrSpanned<ExprCompiled>,
    y: IrSpanned<ExprCompiled>,
    env: Env,
    trace: Seq<u32>,
)
    requires
        ExprCompiledBool::folded(x).node == ExprCompiledBool::Const(false),
    ensures
        ExprCompiledBool::folded(and_at(span, x, y)) == known_at(span, false),
        eval_bool(ExprCompiledBool::folded(and_at(span, x, y)).lowered().node, env, trace) == (
        BoolOutcome { truth: Some(false), trace }),
{
    lemma_known_iff_pure(x);
}

/// A conjunction whose left operand folds to true folds to its folded right
/// operand.
pub proof fn lemma_and_true_left(
    span: FrozenFileSpan,
    x: IrSpanned<ExprCompiled>,
    y: IrSpanned<ExprCompiled>,
)
    requires
        ExprCompiledBool::folded(x).node == ExprCompiledBool::Const(true),
    ensures
        ExprCompiledBool::folded(and_at(span, x, y)).node == ExprCompiledBool::folded(y).node,
{
    lemma_known_iff_pure(x);
    lemma_known_iff_pure(y);
}

/// A conjunction whose right operand folds to true, and whose left operand
/// does not fold to a known truth, folds to its folded left operand.
pub proof fn lemma_and_true_right(
    span: FrozenFileSpan,
    x: IrSpanned<ExprCompiled>,
    y: IrSpanned<ExprCompiled>,
)
    requires
        ExprCompiledBool::folded(x).node is Expr,
        ExprCompiledBool::folded(y).node == ExprCompiledBool::Const(true),
    ensures
        ExprCompiledBool::folded(and_at(span, x, y)) == ExprCompiledBool::folded(x),
{
    lemma_known_iff_pure(x);
}

/// A conjunction whose right operand folds to false, and whose left operand
/// does not fold to a known truth, folds to the folded left operand followed
/// by the literal `false`.  Testing it runs the left operand once, with the
/// calls that the operand makes and no others, and finds false unless the
/// operand fails.
pub proof fn lemma_and_false_right(
    span: FrozenFileSpan,
    x: IrSpanned<ExprCompiled>,
    y: IrSpanned<ExprCompiled>,
    env: Env,
    trace: Seq<u32>,
)
    requires
        ExprCompiledBool::folded(x).node is Expr,
        ExprCompiledBool::folded(y).node == ExprCompiledBool::Const(false),
    ensures
        ExprCompiledBool::folded(and_at(span, x, y)) == (IrSpanned {
            span,
            node: ExprCompiledBool::Expr(
                run_then(ExprCompiledBool::folded(x).lowered(), y.span, false),
            ),
        }),
        eval_bool(ExprCompiledBool::folded(and_at(span, x, y)).lowered().node, env, trace) == (
        BoolOutcome {
            truth: if eval(x.node, env, trace).value is Some {
                Some(false)
            } else {
                None
            },
            trace: eval(x.node, env, trace).trace,
        }),
{
    lemma_known_iff_pure(x);
    lemma_known_iff_pure(y);
    theorem_folding_preserves_truth(x, env, trace);
    let after_x = eval(ExprCompiledBool::folded(x).lowered().node, env, trace).trace;
    assert(eval(ExprCompiled::Value(Value::Bool(false)), env, after_x).value == Some(Value::Bool(false)));
}

/// A conjunction neither of whose operands folds to a known truth folds to
/// the conjunction of the folded operands, left before right.
pub proof fn lemma_and_residual(
    span: FrozenFileSpan,
    x: IrSpanned<ExprCompiled>,
    y: IrSpanned<ExprCompiled>,
)
    requires
        ExprCompiledBool::folded(x).node is Expr,
        ExprCompiledBool::folded(y).node is Expr,
    ensures
        ExprCompiledBool::folded(and_at(span, x, y)) == (IrSpanned {
            span,
            node: ExprCompiledBool::Expr(
                and_at(
                    span,
                    ExprCompiledBool::folded(x).lowered(),
                    ExprCompiledBool::folded(y).lowered(),
                ).node,
            ),
        }),
{
    lemma_known_iff_pure(x);
}

/// A disjunction whose left operand folds to true folds to true: nothing of
/// the right operand is left in the result, and testing it makes no call at
/// all.
pub proof fn lemma_or_true_left(
    span: FrozenFileSpan,
    x: IrSpanned<ExprCompiled>,
    y: IrSpanned<ExprCompiled>,
    env: Env,
    trace: Seq<u32>,
)
    requires
        ExprCompiledBool::folded(x).node == ExprCompiledBool::Const(true),
    ensures
        ExprCompiledBool::folded(or_at(span, x, y)) == known_at(span, true),
        eval_bool(ExprCompiledBool::folded(or_at(span, x, y)).lowered().node, env, trace) == (
        BoolOutcome { truth: Some(true), trace }),
{
    lemma_known_iff_pure(x);
}

/// A disjunction whose left operand folds to false folds to its folded right
/// operand.
pub proof fn lemma_or_false_left(
    span: FrozenFileSpan,
    x: IrSpanned<ExprCompiled>,
    y: IrSpanned<ExprCompiled>,
)
    requires
        ExprCompiledBool::folded(x).node == ExprCompiledBool::Const(false),
    ensures
        ExprCompiledBool::folded(or_at(span, x, y)).node == ExprCompiledBool::folded(y).node,
{
    lemma_known_iff_pure(x);
    lemma_known_iff_pure(y);
}

/// A disjunction whose right operand folds to false, and whose left operand
/// does not fold to a known truth, folds to its folded left operand.
pub proof fn lemma_or_false_right(
    span: FrozenFileSpan,
    x: IrSpanned<ExprCompiled>,
    y: IrSpanned<ExprCompiled>,
)
    requires
        ExprCompiledBool::folded(x).node is Expr,
        ExprCompiledBool::folded(y).node == ExprCompiledBool::Const(false),
    ensures
        ExprCompiledBool::folded(or_at(span, x, y)) == ExprCompiledBool::folded(x),
{
    lemma_known_iff_pure(x);
}

/// A disjunction whose right operand folds to true, and whose left operand
/// does not fold to a known truth, folds to the folded left operand followed
/// by the literal `true`.  Testing it runs the left operand once, with the
/// calls that the operand makes and no others, and finds true unless the
/// operand fails.
pub proof fn lemma_or_true_right(
    span: FrozenFileSpan,
    x: IrSpanned<ExprCompiled>,
    y: IrSpanned<ExprCompiled>,
    env: Env,
    trace: Seq<u32>,
)
    requires
        ExprCompiledBool::folded(x).node is Expr,
        ExprCompiledBool::folded(y).node == ExprCompiledBool::Const(true),
    ensures
        ExprCompiledBool::folded(or_at(span, x, y)) == (IrSpanned {
            span,
            node: ExprCompiledBool::Expr(
                run_then(ExprCompiledBool::folded(x).lowered(), y.span, true),
            ),
        }),
        eval_bool(ExprCompiledBool::folded(or_at(span, x, y)).lowered().node, env, trace) == (
        BoolOutcome {
            truth: if eval(x.node, env, trace).value is Some {
                Some(true)
            } else {
                None
            },
            trace: eval(x.node, env, trace).trace,
        }),
{
    lemma_known_iff_pure(x);
    lemma_known_iff_pure(y);
    theorem_folding_preserves_truth(x, env, trace);
    let after_x = eval(ExprCompiledBool::folded(x).lowered().node, env, trace).trace;
    assert(eval(ExprCompiled::Value(Value::Bool(true)), env, after_x).value == Some(Value::Bool(true)));
}

/// A disjunction neither of whose operands folds to a known truth folds to
/// the disjunction of the folded operands, left before right.
pub proof fn lemma_or_residual(
    span: FrozenFileSpan,
    x: IrSpanned<ExprCompiled>,
    y: IrSpanned<ExprCompiled>,
)
    requires
        ExprCompiledBool::folded(x).node is Expr,
        ExprCompiledBool::folded(y).node is Expr,
    ensures
        ExprCompiledBool::folded(or_at(span, x, y)) == (IrSpanned {
            span,
            node: ExprCompiledBool::Expr(
                or_at(
                    span,
                    ExprCompiledBool::folded(x).lowered(),
                    ExprCompiledBool::folded(y).lowered(),
                ).node,
            ),
        }),
{
    lemma_known_iff_pure(x);
}

/// An expression that is no `not`, `and` or `or`, and whose truth is not
/// statically known, is left as it is.
pub proof fn lemma_other_shapes_stay(expr: IrSpanned<ExprCompiled>)
    requires
        expr.node.pure_bool() is None,
        !(expr.node is Not),
        !(expr.node is And),
        !(expr.node is Or),
    ensures
        ExprCompiledBool::folded(expr).lowered() == expr,
{
}


/// The number of nodes of an expression.
pub open spec fn node_count(e: ExprCompiled) -> nat
    decreases e,
{
    match e {
        ExprCompiled::Not(x) => 1 + node_count(x.node),
        ExprCompiled::And(p) => 1 + node_count(p.0.node) + node_count(p.1.node),
        ExprCompiled::Or(p) => 1 + node_count(p.0.node) + node_count(p.1.node),
        ExprCompiled::Sequence(p) => 1 + node_count(p.0.node) + node_count(p.1.node),
        _ => 1,
    }
}

/// Folding never makes an expression larger.
pub proof fn lemma_folding_does_not_grow(expr: IrSpanned<ExprCompiled>)
    ensures
        1 <= node_count(ExprCompiledBool::folded(expr).lowered().node) <= node_count(expr.node),
    decreases expr,
{
    match expr.node {
        ExprCompiled::Not(x) => {
            lemma_folding_does_not_grow(*x);
        },
        ExprCompiled::And(p) => {
            lemma_folding_does_not_grow(p.0);
            lemma_folding_does_not_grow(p.1);
            assert(node_count(ExprCompiled::Value(Value::Bool(false))) == 1);
        },
        ExprCompiled::Or(p) => {
            lemma_folding_does_not_grow(p.0);
            lemma_folding_does_not_grow(p.1);
            assert(node_count(ExprCompiled::Value(Value::Bool(true))) == 1);
        },
        _ => {},
    }
}

/// Every span that stands somewhere in an expression.
pub open spec fn spans(e: IrSpanned<ExprCompiled>) -> Set<FrozenFileSpan>
    decreases e,
{
    match e.node {
        ExprCompiled::Not(x) => spans(*x).insert(e.span),
        ExprCompiled::And(p) => spans(p.0).union(spans(p.1)).insert(e.span),
        ExprCompiled::Or(p) => spans(p.0).union(spans(p.1)).insert(e.span),
        ExprCompiled::Sequence(p) => spans(p.0).union(spans(p.1)).insert(e.span),
        _ => set![e.span],
    }
}

/// Folding makes no span up: each span of the result, that of the result
/// itself among them, stood in the expression before.
pub proof fn lemma_folding_keeps_spans(expr: IrSpanned<ExprCompiled>)
    ensures
        spans(ExprCompiledBool::folded(expr).lowered()).subset_of(spans(expr)),
        spans(expr).contains(ExprCompiledBool::folded(expr).span),
    decreases expr,
{
    match expr.node {
        ExprCompiled::Not(x) => {
            lemma_folding_keeps_spans(*x);
        },
        ExprCompiled::And(p) => {
            lemma_folding_keeps_spans(p.0);
            lemma_folding_keeps_spans(p.1);
            lemma_known_iff_pure(p.1);
            let lit = IrSpanned { span: p.1.span, node: ExprCompiled::Value(Value::Bool(false)) };
            assert(spans(lit) == set![p.1.span]);
        },
        ExprCompiled::Or(p) => {
            lemma_folding_keeps_spans(p.0);
            lemma_folding_keeps_spans(p.1);
            lemma_known_iff_pure(p.1);
            let lit = IrSpanned { span: p.1.span, node: ExprCompiled::Value(Value::Bool(true)) };
            assert(spans(lit) == set![p.1.span]);
        },
        _ => {},
    }
}


} // verus!
