//! Source locations and nodes that carry one.

use vstd::prelude::*;

verus! {

/// A range of positions in one source file.
#[derive(Clone, Copy, Debug, PartialEq, Eq, Structural)]
pub struct FrozenFileSpan {
    /// Position of the first byte.
    pub begin: u32,
    /// Position just after the last byte.
    pub end: u32,
}

impl FrozenFileSpan {
    /// The smallest range that covers both `self` and `other`.
    pub open spec fn spec_merge(self, other: FrozenFileSpan) -> FrozenFileSpan {
        FrozenFileSpan {
            begin: if self.begin <= other.begin { self.begin } else { other.begin },
            end: if self.end >= other.end { self.end } else { other.end },
        }
    }

    /// The smallest range that covers both `self` and `other`.
    pub fn merge(&self, other: &FrozenFileSpan) -> (m: FrozenFileSpan)
        ensures
            m == self.spec_merge(*other),
    {
        FrozenFileSpan {
            begin: if self.begin <= other.begin { self.begin } else { other.begin },
            end: if self.end >= other.end { self.end } else { other.end },
        }
    }
}

/// A node of the compiled program together with the place it came from.
#[derive(Debug, PartialEq, Eq)]
pub struct IrSpanned<T> {
    /// Where the node stands in the source.
    pub span: FrozenFileSpan,
    /// The node itself.
    pub node: T,
}

} // verus!
