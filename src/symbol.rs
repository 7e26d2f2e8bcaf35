use vstd::prelude::*;

use crate::error::InternalSolverError;

verus! {

/// The role a symbol plays in the tableau.
#[derive(Debug, Copy, Clone, PartialEq, Eq, Structural, PartialOrd, Ord, Hash)]
pub enum SymbolKind {
    /// The sentinel that stands for "no symbol".
    Invalid,
    /// The solver's surrogate for a user-visible variable.
    External,
    /// Absorbs the space of an inequality.
    Slack,
    /// Measures the violation of a non-required constraint.
    Error,
    /// Marks a required equality.
    Dummy,
}

impl SymbolKind {
    /// The position of the kind in the order in which pivot ties are broken.
    pub open spec fn rank(self) -> int {
        match self {
            SymbolKind::Invalid => 0,
            SymbolKind::External => 1,
            SymbolKind::Slack => 2,
            SymbolKind::Error => 3,
            SymbolKind::Dummy => 4,
        }
    }

    fn rank_of(&self) -> (r: u8)
        ensures
            r as int == self.rank(),
    {
        match *self {
            SymbolKind::Invalid => 0,
            SymbolKind::External => 1,
            SymbolKind::Slack => 2,
            SymbolKind::Error => 3,
            SymbolKind::Dummy => 4,
        }
    }
}

/// An identifier of the tableau, tagged with its kind.
#[derive(Debug, Copy, Clone, PartialEq, Eq, Structural, PartialOrd, Ord, Hash)]
pub struct Symbol(pub usize, pub SymbolKind);

impl Symbol {
    pub open spec fn id_spec(&self) -> usize {
        self.0
    }

    pub open spec fn kind_spec(&self) -> SymbolKind {
        self.1
    }

    /// The symbol with the given id and kind.
    pub fn new(id: usize, kind: SymbolKind) -> (r: Symbol)
        ensures
            r.id_spec() == id,
            r.kind_spec() == kind,
    {
        Symbol(id, kind)
    }

    /// The sentinel symbol: id 0, kind `Invalid`.
    pub fn invalid() -> (r: Symbol)
        ensures
            r.id_spec() == 0,
            r.kind_spec() == SymbolKind::Invalid,
    {
        Symbol(0, SymbolKind::Invalid)
    }

    /// The kind of this symbol.
    pub fn kind(&self) -> (r: SymbolKind)
        ensures
            r == self.kind_spec(),
    {
        self.1
    }

    /// The id of this symbol.
    pub fn id(&self) -> (r: usize)
        ensures
            r == self.id_spec(),
    {
        self.0
    }

    /// Whether `self` comes strictly before `other` when symbols are ordered by kind, then by
    /// id.
    pub open spec fn spec_precedes(self, other: Symbol) -> bool {
        self.1.rank() < other.1.rank() || (self.1.rank() == other.1.rank() && self.0 < other.0)
    }

    /// Whether `self` comes strictly before `other` when symbols are ordered by kind, then by
    /// id; pivot choices break ties by this order.
    pub fn precedes(&self, other: &Symbol) -> (r: bool)
        ensures
            r == self.spec_precedes(*other),
    {
        let a = self.1.rank_of();
        let b = other.1.rank_of();
        a < b || (a == b && self.0 < other.0)
    }
}

/// Hands out the ids of new symbols. Ids start at 1: id 0 belongs to the invalid sentinel.
pub struct SymbolAllocator {
    tick: usize,
}

impl SymbolAllocator {
    /// The id that the next symbol will get.
    pub closed spec fn next_id(&self) -> usize {
        self.tick
    }

    /// No id handed out so far is 0.
    pub open spec fn wf(&self) -> bool {
        self.next_id() >= 1
    }

    /// An allocator whose first id is 1.
    pub fn new() -> (r: SymbolAllocator)
        ensures
            r.wf(),
            r.next_id() == 1,
    {
        SymbolAllocator { tick: 1 }
    }

    /// How many ids are left.
    pub fn remaining(&self) -> (r: usize)
        ensures
            r == usize::MAX - self.next_id(),
    {
        usize::MAX - self.tick
    }

    /// A new symbol of the given kind, with the next id; fails once the ids are used up.
    pub fn next(&mut self, kind: SymbolKind) -> (r: Result<Symbol, InternalSolverError>)
        requires
            old(self).wf(),
        ensures
            final(self).wf(),
            old(self).next_id() < usize::MAX ==> r == Ok::<Symbol, InternalSolverError>(
                Symbol(old(self).next_id(), kind),
            ) && final(self).next_id() == old(self).next_id() + 1,
            old(self).next_id() == usize::MAX ==> r is Err && *final(self) == *old(self),
    {
        if self.tick == usize::MAX {
            return Err(InternalSolverError("symbol ids are used up"));
        }
        let s = Symbol(self.tick, kind);
        self.tick = self.tick + 1;
        Ok(s)
    }
}

} // verus!
