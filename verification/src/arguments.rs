//! The arguments of one call, as the callee receives them.

use vstd::prelude::*;
use crate::values::Symbol;

verus! {

/// The arguments of one call, taken apart by kind.
#[derive(Debug, PartialEq, Eq)]
pub struct Arguments<'a, V> {
    /// The positional arguments, first to last.
    pub pos: Vec<V>,
    /// The values of the named arguments, in the order of `names`.
    pub named: Vec<V>,
    /// The names of the named arguments, as the call site wrote them.
    pub names: &'a [(Symbol, String)],
    /// The `*args` argument.
    pub args: Option<V>,
    /// The `**kwargs` argument.
    pub kwargs: Option<V>,
}

/// What an `Arguments` holds, as plain sequences.
pub ghost struct ArgumentsView<V> {
    /// The positional arguments, first to last.
    pub pos: Seq<V>,
    /// The values of the named arguments, in the order of `names`.
    pub named: Seq<V>,
    /// The names of the named arguments.
    pub names: Seq<(Symbol, String)>,
    /// The `*args` argument.
    pub args: Option<V>,
    /// The `**kwargs` argument.
    pub kwargs: Option<V>,
}

impl<'a, V> View for Arguments<'a, V> {
    type V = ArgumentsView<V>;

    open spec fn view(&self) -> ArgumentsView<V> {
        ArgumentsView {
            pos: self.pos@,
            named: self.named@,
            names: self.names@,
            args: self.args,
            kwargs: self.kwargs,
        }
    }
}

impl<V> ArgumentsView<V> {
    /// Every named argument has its value.
    pub open spec fn wf(self) -> bool {
        self.named.len() == self.names.len()
    }

    /// The slots that the arguments came from, deepest first: the positional
    /// values, the named values, then `*args` and `**kwargs` where present.
    pub open spec fn slots(self) -> Seq<V> {
        self.pos + self.named + (match self.args {
            Some(v) => seq![v],
            None => seq![],
        }) + (match self.kwargs {
            Some(v) => seq![v],
            None => seq![],
        })
    }
}

} // verus!
