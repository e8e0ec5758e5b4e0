//! The argument layout of a call site.

use vstd::prelude::*;
use crate::arguments::{Arguments, ArgumentsView};
use crate::stack::BcStackPtr;
use crate::text::{decimal, joined, push_decimal, push_token};
use crate::values::Symbol;

verus! {

/// A call site in full: positional and named arguments, `*args` and
/// `**kwargs`.  All of them are taken from the stack.
#[derive(Clone, Debug, PartialEq, Eq)]
pub struct BcCallArgsFull {
    /// Number of positional and named arguments together.
    pub pos_named: u32,
    /// The names of the named arguments, each with its text.
    pub names: Vec<(Symbol, String)>,
    /// Whether the call has a `*args` argument.
    pub args: bool,
    /// Whether the call has a `**kwargs` argument.
    pub kwargs: bool,
}

/// A call site with positional arguments only.
#[derive(Clone, Copy, Debug, PartialEq, Eq)]
pub struct BcCallArgsPos {
    /// Number of positional arguments.
    pub pos: u32,
}

impl BcCallArgsFull {
    /// The named arguments are among the slots counted by `pos_named`.
    pub open spec fn wf(&self) -> bool {
        self.names@.len() <= self.pos_named
    }

    /// Number of positional arguments.
    pub open spec fn spec_pos(&self) -> nat
        recommends
            self.wf(),
    {
        (self.pos_named - self.names@.len()) as nat
    }

    /// Number of stack slots that the call takes.
    pub open spec fn slots(&self) -> nat {
        self.pos_named as nat + (if self.args {
            1nat
        } else {
            0nat
        }) + (if self.kwargs {
            1nat
        } else {
            0nat
        })
    }

    /// The arguments that the call finds on top of `stack`.
    pub open spec fn bound<V>(&self, stack: Seq<V>) -> ArgumentsView<V>
        recommends
            self.wf(),
            self.slots() <= stack.len(),
    {
        let base = stack.len() - self.slots();
        ArgumentsView {
            pos: stack.subrange(base, base + self.spec_pos()),
            named: stack.subrange(base + self.spec_pos(), base + self.pos_named),
            names: self.names@,
            args: if self.args {
                Some(stack[base + self.pos_named])
            } else {
                None
            },
            kwargs: if self.kwargs {
                Some(stack[stack.len() - 1])
            } else {
                None
            },
        }
    }

    /// What the call leaves of `stack`.
    pub open spec fn remaining<V>(&self, stack: Seq<V>) -> Seq<V>
        recommends
            self.slots() <= stack.len(),
    {
        stack.take(stack.len() - self.slots())
    }

    /// The layout with these parts, unless there are more names than slots
    /// for positional and named arguments together.
    pub fn new(pos_named: u32, names: Vec<(Symbol, String)>, args: bool, kwargs: bool) -> (r:
        Option<BcCallArgsFull>)
        ensures
            r is Some <==> names@.len() <= pos_named,
            r matches Some(a) ==> a.wf() && a.pos_named == pos_named && a.names == names && a.args
                == args && a.kwargs == kwargs,
    {
        if names.len() <= pos_named as usize {
            Some(BcCallArgsFull { pos_named, names, args, kwargs })
        } else {
            None
        }
    }

    /// Number of positional arguments.
    pub fn pos(&self) -> (n: u32)
        requires
            self.wf(),
        ensures
            n == self.pos_named - self.names@.len(),
            n == self.spec_pos(),
    {
        self.pos_named - (self.names.len() as u32)
    }

    /// The tokens of the summary: the number of positional arguments unless
    /// it is zero, each name in order, `*` for `*args`, `**` for `**kwargs`.
    pub open spec fn tokens(&self) -> Seq<Seq<char>>
        recommends
            self.wf(),
    {
        (if self.spec_pos() != 0 {
            seq![decimal(self.spec_pos())]
        } else {
            seq![]
        }) + Seq::new(self.names@.len(), |i: int| self.names@[i].1@) + (if self.args {
            seq![seq!['*']]
        } else {
            seq![]
        }) + (if self.kwargs {
            seq![seq!['*', '*']]
        } else {
            seq![]
        })
    }

    /// A one-line summary of the layout: its tokens with one space between
    /// each two, and nothing before the first or behind the last.
    pub fn describe(&self) -> (s: String)
        requires
            self.wf(),
        ensures
            s@ == joined(self.tokens()),
    {
        let mut out = String::new();
        let mut first = true;
        let ghost mut done: Seq<Seq<char>> = seq![];
        // Number of positional arguments.
        let pos = self.pos();
        if pos != 0 {
            let mut number = String::new();
            push_decimal(&mut number, pos);
            push_token(&mut out, &mut first, number.as_str(), Ghost(done));
            proof {
                assert(number@ =~= decimal(pos as nat));
                done = done.push(number@);
            }
        }
        let ghost head = done;
        // Named arguments.
        let mut i: usize = 0;
        while i < self.names.len()
            invariant
                i <= self.names@.len(),
                out@ == joined(done),
                first == (done.len() == 0),
                done == head + Seq::new(i as nat, |k: int| self.names@[k].1@),
            decreases self.names@.len() - i,
        {
            push_token(&mut out, &mut first, self.names[i].1.as_str(), Ghost(done));
            proof {
                let before = Seq::new(i as nat, |k: int| self.names@[k].1@);
                let after = Seq::new((i + 1) as nat, |k: int| self.names@[k].1@);
                assert(after =~= before.push(self.names@[i as int].1@));
                assert(done.push(self.names@[i as int].1@) =~= head + after);
                done = done.push(self.names@[i as int].1@);
            }
            i += 1;
        }
        // Star argument?
        if self.args {
            proof {
                reveal_strlit("*");
            }
            push_token(&mut out, &mut first, "*", Ghost(done));
            proof {
                assert("*"@ =~= seq!['*']);
                done = done.push("*"@);
            }
        }
        // Star-star argument?
        if self.kwargs {
            proof {
                reveal_strlit("**");
            }
            push_token(&mut out, &mut first, "**", Ghost(done));
            proof {
                assert("**"@ =~= seq!['*', '*']);
                done = done.push("**"@);
            }
        }
        assert(done =~= self.tokens());
        out
    }

    /// Takes the operands of the call off `stack`: exactly `slots()` of
    /// them.
    pub fn pop_from_stack<'a, V>(&'a self, stack: &mut BcStackPtr<V>) -> (r: Arguments<'a, V>)
        requires
            self.wf(),
            self.slots() <= old(stack)@.len(),
        ensures
            r@ == self.bound(old(stack)@),
            final(stack)@ == self.remaining(old(stack)@),
    {
        stack.pop_args(self)
    }
}

impl BcCallArgsPos {
    /// The arguments that the call finds on top of `stack`.
    pub open spec fn bound<V>(&self, stack: Seq<V>) -> ArgumentsView<V>
        recommends
            self.pos <= stack.len(),
    {
        ArgumentsView {
            pos: stack.skip(stack.len() - self.pos),
            named: seq![],
            names: seq![],
            args: None,
            kwargs: None,
        }
    }

    /// What the call leaves of `stack`.
    pub open spec fn remaining<V>(&self, stack: Seq<V>) -> Seq<V>
        recommends
            self.pos <= stack.len(),
    {
        stack.take(stack.len() - self.pos)
    }

    /// Takes the operands of the call off `stack`: exactly `pos` of them.
    pub fn pop_from_stack<'a, V>(&'a self, stack: &mut BcStackPtr<V>) -> (r: Arguments<'a, V>)
        requires
            self.pos <= old(stack)@.len(),
        ensures
            r@ == self.bound(old(stack)@),
            final(stack)@ == self.remaining(old(stack)@),
    {
        stack.pop_args_pos(self)
    }
}

/// The argument layout of a call site, in one of its two forms.  The
/// positional form is the short way for a call without named arguments,
/// `*args` and `**kwargs`.
#[derive(Clone, Debug, PartialEq, Eq)]
pub enum BcCallArgs {
    /// The general form.
    Full(BcCallArgsFull),
    /// Positional arguments only.
    Pos(BcCallArgsPos),
}

impl BcCallArgs {
    /// The layout is well formed.
    pub open spec fn wf(&self) -> bool {
        match self {
            BcCallArgs::Full(a) => a.wf(),
            BcCallArgs::Pos(_) => true,
        }
    }

    /// Number of stack slots that the call takes.
    pub open spec fn slots(&self) -> nat {
        match self {
            BcCallArgs::Full(a) => a.slots(),
            BcCallArgs::Pos(a) => a.pos as nat,
        }
    }

    /// The arguments that the call finds on top of `stack`.
    pub open spec fn bound<V>(&self, stack: Seq<V>) -> ArgumentsView<V>
        recommends
            self.wf(),
            self.slots() <= stack.len(),
    {
        match self {
            BcCallArgs::Full(a) => a.bound(stack),
            BcCallArgs::Pos(a) => a.bound(stack),
        }
    }

    /// What the call leaves of `stack`.
    pub open spec fn remaining<V>(&self, stack: Seq<V>) -> Seq<V>
        recommends
            self.slots() <= stack.len(),
    {
        stack.take(stack.len() - self.slots())
    }

    /// The form that a call site with these parts gets: the positional form
    /// where it has no named argument, no `*args` and no `**kwargs`, the
    /// general form otherwise.
    pub open spec fn chosen(
        pos_named: u32,
        names: Vec<(Symbol, String)>,
        args: bool,
        kwargs: bool,
    ) -> BcCallArgs {
        if names@.len() == 0 && !args && !kwargs {
            BcCallArgs::Pos(BcCallArgsPos { pos: pos_named })
        } else {
            BcCallArgs::Full(BcCallArgsFull { pos_named, names, args, kwargs })
        }
    }

    /// The layout of a call site with these parts, in the form chosen for it,
    /// unless there are more names than slots for positional and named
    /// arguments together.
    pub fn new(pos_named: u32, names: Vec<(Symbol, String)>, args: bool, kwargs: bool) -> (r:
        Option<BcCallArgs>)
        ensures
            r == if names@.len() <= pos_named {
                Some(Self::chosen(pos_named, names, args, kwargs))
            } else {
                None
            },
            r matches Some(a) ==> a.wf(),
    {
        if names.len() > pos_named as usize {
            None
        } else if names.len() == 0 && !args && !kwargs {
            Some(BcCallArgs::Pos(BcCallArgsPos { pos: pos_named }))
        } else {
            Some(BcCallArgs::Full(BcCallArgsFull { pos_named, names, args, kwargs }))
        }
    }

    /// Takes the operands of the call off `stack`: exactly `slots()` of
    /// them.
    pub fn pop_from_stack<'a, V>(&'a self, stack: &mut BcStackPtr<V>) -> (r: Arguments<'a, V>)
        requires
            self.wf(),
            self.slots() <= old(stack)@.len(),
        ensures
            r@ == self.bound(old(stack)@),
            final(stack)@ == self.remaining(old(stack)@),
    {
        match self {
            BcCallArgs::Full(a) => a.pop_from_stack(stack),
            BcCallArgs::Pos(a) => a.pop_from_stack(stack),
        }
    }
}

/// A call takes its slots and no others: what it leaves of the stack,
/// followed by the slots of the arguments it found, is the stack as it was.
/// Every named argument has its value, and the positional arguments are as
/// many as the layout says.
pub proof fn lemma_bound_takes_exactly_its_slots<V>(a: BcCallArgs, stack: Seq<V>)
    requires
        a.wf(),
        a.slots() <= stack.len(),
    ensures
        a.remaining(stack) + a.bound(stack).slots() == stack,
        a.bound(stack).slots().len() == a.slots(),
        a.remaining(stack).len() + a.slots() == stack.len(),
        a.bound(stack).wf(),
        a matches BcCallArgs::Full(f) ==> a.bound(stack).pos.len() == f.spec_pos(),
        a matches BcCallArgs::Pos(p) ==> a.bound(stack).pos.len() == p.pos,
{
    assert(a.remaining(stack) + a.bound(stack).slots() =~= stack);
}

/// For a call without named arguments, `*args` and `**kwargs`, the two forms
/// of the layout agree: they find the same arguments and leave the same
/// stack.
pub proof fn lemma_pos_agrees_with_full<V>(full: BcCallArgsFull, pos: BcCallArgsPos, stack: Seq<V>)
    requires
        full.names@.len() == 0,
        !full.args,
        !full.kwargs,
        pos.pos == full.pos_named,
        pos.pos <= stack.len(),
    ensures
        full.wf(),
        full.bound(stack) == pos.bound(stack),
        full.remaining(stack) == pos.remaining(stack),
{
    assert(full.bound(stack).pos =~= pos.bound(stack).pos);
    assert(full.bound(stack).named =~= pos.bound(stack).named);
    assert(full.bound(stack).names =~= pos.bound(stack).names);
}


/// The choice of the form cannot be observed: the chosen layout takes as many
/// slots, finds the same arguments and leaves the same stack as the general
/// form with the same parts.
pub proof fn lemma_chosen_binds_as_full<V>(
    pos_named: u32,
    names: Vec<(Symbol, String)>,
    args: bool,
    kwargs: bool,
    stack: Seq<V>,
)
    requires
        names@.len() <= pos_named,
        pos_named + (if args {
            1nat
        } else {
            0nat
        }) + (if kwargs {
            1nat
        } else {
            0nat
        }) <= stack.len(),
    ensures
        ({
            let full = BcCallArgsFull { pos_named, names, args, kwargs };
            let chosen = BcCallArgs::chosen(pos_named, names, args, kwargs);
            &&& chosen.wf()
            &&& chosen.slots() == full.slots()
            &&& chosen.bound(stack) == full.bound(stack)
            &&& chosen.remaining(stack) == full.remaining(stack)
        }),
{
    let full = BcCallArgsFull { pos_named, names, args, kwargs };
    if names@.len() == 0 && !args && !kwargs {
        lemma_pos_agrees_with_full(full, BcCallArgsPos { pos: pos_named }, stack);
    }
}


} // verus!
