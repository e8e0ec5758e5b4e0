//! Calling-convention descriptors and boolean-expression folding for a small
//! Starlark-like interpreter.
//!
//! The crate has two halves.
//!
//! `call` describes the argument layout of one call site, `stack` rebuilds
//! the structured `arguments` of a call from the operand stack, and `text`
//! renders the one-line summary of a layout.
//!
//! `expr` holds the compiled expression tree and `expr_bool` the folding of
//! expressions that are about to be truth-tested.  `semantics` says what an
//! expression does when it runs, and `equivalence` proves that folding cannot
//! be observed, together with what each rule of the folding gives.

pub mod values;
pub mod text;
pub mod arguments;
pub mod stack;
pub mod call;
pub mod span;
pub mod expr;
pub mod semantics;
pub mod expr_bool;
pub mod equivalence;
