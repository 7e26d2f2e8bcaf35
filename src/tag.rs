use vstd::prelude::*;

use crate::error::InternalSolverError;
use crate::relations::RelationalOperator;
use crate::symbol::{Symbol, SymbolAllocator, SymbolKind};

verus! {

/// The two marker symbols that tie a constraint to the tableau.
///
/// For an inequality `marker` is its slack and `other` its error symbol (invalid when the
/// constraint is required); for an equality they are its two error symbols, or a dummy and the
/// invalid symbol when it is required.
#[derive(Debug, Copy, Clone, PartialEq, Eq, Structural)]
pub struct Tag {
    pub marker: Symbol,
    pub other: Symbol,
}

/// The kinds of the marker and the other symbol of a constraint with this operator.
pub open spec fn tag_kinds(op: RelationalOperator, required: bool) -> (SymbolKind, SymbolKind) {
    match op {
        RelationalOperator::Equal => if required {
            (SymbolKind::Dummy, SymbolKind::Invalid)
        } else {
            (SymbolKind::Error, SymbolKind::Error)
        },
        _ => (SymbolKind::Slack, if required {
            SymbolKind::Invalid
        } else {
            SymbolKind::Error
        }),
    }
}

/// How many new symbols the markers of such a constraint take.
pub open spec fn tag_symbol_count(op: RelationalOperator, required: bool) -> int {
    if tag_kinds(op, required).1 == SymbolKind::Invalid {
        1
    } else {
        2
    }
}

/// Whether a symbol of this kind may be the subject of a new row on the strength of a negative
/// coefficient.
pub open spec fn is_pivotable_kind(k: SymbolKind) -> bool {
    k == SymbolKind::Slack || k == SymbolKind::Error
}

/// The index of the first `External` symbol of `s` at or after `i`, or `s.len()` if none.
pub open spec fn first_external_from(s: Seq<Symbol>, i: int) -> int
    decreases s.len() - i,
{
    if i >= s.len() {
        s.len() as int
    } else if s[i].kind_spec() == SymbolKind::External {
        i
    } else {
        first_external_from(s, i + 1)
    }
}

/// The subject that a new row is solved for: its first `External` symbol; else its marker or
/// other symbol, if that is a slack or error symbol with a negative coefficient; else the
/// invalid symbol.
pub open spec fn spec_subject(
    cells: Seq<Symbol>,
    tag: Tag,
    marker_negative: bool,
    other_negative: bool,
) -> Symbol {
    let i = first_external_from(cells, 0);
    if i < cells.len() {
        cells[i]
    } else if is_pivotable_kind(tag.marker.kind_spec()) && marker_negative {
        tag.marker
    } else if is_pivotable_kind(tag.other.kind_spec()) && other_negative {
        tag.other
    } else {
        Symbol(0, SymbolKind::Invalid)
    }
}

impl Tag {
    /// Allocates the marker symbols of a new constraint with operator `op`: a slack, and an
    /// error symbol unless `required`, for an inequality; two error symbols, or a dummy when
    /// `required`, for an equality. Fails, allocating nothing, when the ids are used up.
    pub fn allocate(symbols: &mut SymbolAllocator, op: RelationalOperator, required: bool) -> (r:
        Result<Tag, InternalSolverError>)
        requires
            old(symbols).wf(),
        ensures
            final(symbols).wf(),
            r is Ok <==> old(symbols).next_id() + tag_symbol_count(op, required) <= usize::MAX,
            r is Err ==> *final(symbols) == *old(symbols),
            r matches Ok(t) ==> {
                let n = old(symbols).next_id();
                let (mk, ok) = tag_kinds(op, required);
                &&& t.marker == Symbol(n, mk)
                &&& ok == SymbolKind::Invalid ==> t.other == Symbol(0, SymbolKind::Invalid)
                &&& ok != SymbolKind::Invalid ==> t.other == Symbol((n + 1) as usize, ok)
                &&& final(symbols).next_id() == n + tag_symbol_count(op, required)
            },
    {
        let count: usize = if required {
            1
        } else {
            2
        };
        if symbols.remaining() < count {
            return Err(InternalSolverError("symbol ids are used up"));
        }
        match op {
            RelationalOperator::Equal => {
                if required {
                    let marker = symbols.next(SymbolKind::Dummy)?;
                    Ok(Tag { marker, other: Symbol::invalid() })
                } else {
                    let marker = symbols.next(SymbolKind::Error)?;
                    let other = symbols.next(SymbolKind::Error)?;
                    Ok(Tag { marker, other })
                }
            },
            _ => {
                let marker = symbols.next(SymbolKind::Slack)?;
                if required {
                    Ok(Tag { marker, other: Symbol::invalid() })
                } else {
                    let other = symbols.next(SymbolKind::Error)?;
                    Ok(Tag { marker, other })
                }
            },
        }
    }

    /// Chooses the symbol that a new row with the symbols `cells` is solved for (see
    /// `spec_subject`). `marker_negative` and `other_negative` say whether the row's coefficient
    /// of the marker and of the other symbol is negative.
    pub fn choose_subject(
        &self,
        cells: &Vec<Symbol>,
        marker_negative: bool,
        other_negative: bool,
    ) -> (r: Symbol)
        ensures
            r == spec_subject(cells@, *self, marker_negative, other_negative),
    {
        let mut i: usize = 0;
        while i < cells.len()
            invariant
                i <= cells@.len(),
                first_external_from(cells@, 0) == first_external_from(cells@, i as int),
            decreases cells@.len() - i,
        {
            if cells[i].kind() == SymbolKind::External {
                return cells[i];
            }
            i = i + 1;
        }
        let mk = self.marker.kind();
        let ok = self.other.kind();
        if (mk == SymbolKind::Slack || mk == SymbolKind::Error) && marker_negative {
            self.marker
        } else if (ok == SymbolKind::Slack || ok == SymbolKind::Error) && other_negative {
            self.other
        } else {
            Symbol::invalid()
        }
    }
}

/// Whether every symbol of `cells` is a dummy.
pub fn all_dummies(cells: &Vec<Symbol>) -> (r: bool)
    ensures
        r == forall|i: int| 0 <= i < cells@.len() ==> #[trigger] cells@[i].kind_spec()
            == SymbolKind::Dummy,
{
    let mut i: usize = 0;
    while i < cells.len()
        invariant
            i <= cells@.len(),
            forall|j: int| 0 <= j < i ==> #[trigger] cells@[j].kind_spec() == SymbolKind::Dummy,
        decreases cells@.len() - i,
    {
        if cells[i].kind() != SymbolKind::Dummy {
            return false;
        }
        i = i + 1;
    }
    true
}

} // verus!
