//! The operand stack, as a call instruction sees it.

use vstd::prelude::*;
use crate::arguments::Arguments;
use crate::call::{BcCallArgsFull, BcCallArgsPos};
use crate::values::Symbol;

verus! {

/// The operand stack of one frame.  The last slot is the top.
///
/// A call finds its operands on top of the stack in this order, deepest
/// first: the positional values, the values of the named arguments, the
/// `*args` value if the call has one, the `**kwargs` value if the call has
/// one.
#[derive(Debug, PartialEq, Eq)]
pub struct BcStackPtr<V> {
    /// The slots, deepest first.
    pub slots: Vec<V>,
}

impl<V> View for BcStackPtr<V> {
    type V = Seq<V>;

    open spec fn view(&self) -> Seq<V> {
        self.slots@
    }
}

impl<V> BcStackPtr<V> {
    /// Takes the top slot off the stack.
    pub fn pop(&mut self) -> (v: V)
        requires
            old(self)@.len() > 0,
        ensures
            v == old(self)@.last(),
            final(self)@ == old(self)@.drop_last(),
    {
        self.slots.pop().unwrap()
    }

    /// Takes the `n` top slots off the stack, and hands them out deepest
    /// first.
    pub fn pop_slice(&mut self, n: u32) -> (top: Vec<V>)
        requires
            n <= old(self)@.len(),
        ensures
            top@ == old(self)@.skip(old(self)@.len() - n),
            final(self)@ == old(self)@.take(old(self)@.len() - n),
    {
        let at = self.slots.len() - n as usize;
        self.slots.split_off(at)
    }

    /// Takes the operands of a call with the layout `a` off the stack.
    pub fn pop_args<'a>(&mut self, a: &'a BcCallArgsFull) -> (r: Arguments<'a, V>)
        requires
            a.wf(),
            a.slots() <= old(self)@.len(),
        ensures
            r@ == a.bound(old(self)@),
            final(self)@ == a.remaining(old(self)@),
    {
        let kwargs = if a.kwargs {
            Some(self.pop())
        } else {
            None
        };
        let args = if a.args {
            Some(self.pop())
        } else {
            None
        };
        let mut pos = self.pop_slice(a.pos_named);
        let named = pos.split_off(pos.len() - a.names.len());
        proof {
            let want = a.bound(old(self)@);
            assert(pos@ =~= want.pos);
            assert(named@ =~= want.named);
            assert(self@ =~= a.remaining(old(self)@));
        }
        Arguments { pos, named, names: a.names.as_slice(), args, kwargs }
    }

    /// Takes the operands of a call with positional arguments only off the
    /// stack.
    pub fn pop_args_pos<'a>(&mut self, a: &'a BcCallArgsPos) -> (r: Arguments<'a, V>)
        requires
            a.pos <= old(self)@.len(),
        ensures
            r@ == a.bound(old(self)@),
            final(self)@ == a.remaining(old(self)@),
    {
        let pos = self.pop_slice(a.pos);
        let names: &[(Symbol, String)] = &[];
        let r = Arguments { pos, named: Vec::new(), names, args: None, kwargs: None };
        proof {
            assert(r@.names =~= a.bound(old(self)@).names);
        }
        r
    }
}

} // verus!
