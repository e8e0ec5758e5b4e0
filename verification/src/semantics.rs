//! What a compiled expression does when it runs.
//!
//! Nothing here is executable: this is the model that the folding of boolean
//! expressions is held to.  A run has an environment, which fixes the locals
//! and says what each call returns, and a trace, the calls made so far in the
//! order in which they were made.  The trace is what an observer sees of the
//! effects of a run.

use vstd::prelude::*;
use crate::expr::ExprCompiled;
use crate::values::Value;

verus! {

/// The surroundings of a run.
pub ghost struct Env {
    /// The local slots; `None` is a slot that has not been assigned.
    pub locals: Seq<Option<Value>>,
    /// What the call of a routine returns after the calls in the trace, or
    /// `None` where the call fails.
    pub call: spec_fn(u32, Seq<u32>) -> Option<Value>,
}

/// How the evaluation of an expression ended.
pub ghost struct Outcome {
    /// The value yielded, or `None` where evaluation failed.
    pub value: Option<Value>,
    /// Every call made so far, oldest first.
    pub trace: Seq<u32>,
}

/// How the truth test of an expression ended.
pub ghost struct BoolOutcome {
    /// The truth of the value yielded, or `None` where evaluation failed.
    pub truth: Option<bool>,
    /// Every call made so far, oldest first.
    pub trace: Seq<u32>,
}

/// Evaluates `e` in `env`, after the calls in `trace`.  Operands run left to
/// right, `and` and `or` skip their right operand once the left one decides,
/// and a failure ends the run where it happens.
pub open spec fn eval(e: ExprCompiled, env: Env, trace: Seq<u32>) -> Outcome
    decreases e,
{
    match e {
        ExprCompiled::Value(v) => Outcome { value: Some(v), trace },
        ExprCompiled::Local(i) => Outcome {
            value: if i < env.locals.len() {
                env.locals[i as int]
            } else {
                None
            },
            trace,
        },
        ExprCompiled::Call(f) => Outcome { value: (env.call)(f, trace), trace: trace.push(f) },
        ExprCompiled::Not(x) => {
            let r = eval(x.node, env, trace);
            match r.value {
                Some(v) => Outcome { value: Some(Value::Bool(!v.truth())), trace: r.trace },
                None => r,
            }
        },
        ExprCompiled::And(p) => {
            let r = eval(p.0.node, env, trace);
            match r.value {
                Some(v) => if v.truth() {
                    eval(p.1.node, env, r.trace)
                } else {
                    r
                },
                None => r,
            }
        },
        ExprCompiled::Or(p) => {
            let r = eval(p.0.node, env, trace);
            match r.value {
                Some(v) => if v.truth() {
                    r
                } else {
                    eval(p.1.node, env, r.trace)
                },
                None => r,
            }
        },
        ExprCompiled::Sequence(p) => {
            let r = eval(p.0.node, env, trace);
            match r.value {
                Some(_) => eval(p.1.node, env, r.trace),
                None => r,
            }
        },
    }
}

/// Evaluates `e` and coerces what it yields to a boolean.
pub open spec fn eval_bool(e: ExprCompiled, env: Env, trace: Seq<u32>) -> BoolOutcome {
    let r = eval(e, env, trace);
    BoolOutcome {
        truth: match r.value {
            Some(v) => Some(v.truth()),
            None => None,
        },
        trace: r.trace,
    }
}

/// An expression that is statically known to coerce to `b` yields, in every
/// environment, a value whose truth is `b`, without failing and without
/// making a call.
pub proof fn lemma_pure_bool_sound(e: ExprCompiled, b: bool, env: Env, trace: Seq<u32>)
    requires
        e.pure_bool() == Some(b),
    ensures
        eval_bool(e, env, trace) == (BoolOutcome { truth: Some(b), trace }),
    decreases e,
{
    match e {
        ExprCompiled::Not(x) => {
            lemma_pure_bool_sound(x.node, !b, env, trace);
        },
        ExprCompiled::And(p) => {
            let bx = p.0.node.pure_bool().unwrap();
            lemma_pure_bool_sound(p.0.node, bx, env, trace);
            if bx {
                lemma_pure_bool_sound(p.1.node, b, env, trace);
            }
        },
        ExprCompiled::Or(p) => {
            let bx = p.0.node.pure_bool().unwrap();
            lemma_pure_bool_sound(p.0.node, bx, env, trace);
            if !bx {
                lemma_pure_bool_sound(p.1.node, b, env, trace);
            }
        },
        _ => {},
    }
}

} // verus!
