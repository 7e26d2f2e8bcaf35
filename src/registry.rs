use vstd::prelude::*;

use crate::error::{
    AddConstraintError, AddEditVariableError, InternalSolverError, RemoveConstraintError,
    RemoveEditVariableError, SuggestValueError,
};
use crate::relations::RelationalOperator;
use crate::symbol::{Symbol, SymbolAllocator, SymbolKind};
use crate::table::Table;
use crate::tag::{tag_kinds, tag_symbol_count, Tag};
use crate::variable::Variable;

verus! {

/// Each variable's symbol is an `External` symbol with an id in `1..next`, and no two
/// variables share one.
pub open spec fn external_symbols_fresh(vars: Map<usize, Symbol>, next: usize) -> bool {
    &&& forall|k: usize| #[trigger]
        vars.contains_key(k) ==> vars[k].kind_spec() == SymbolKind::External && 1 <= vars[k].id_spec()
            < next
    &&& forall|a: usize, b: usize|
        #[trigger] vars.contains_key(a) && #[trigger] vars.contains_key(b) && a != b ==> vars[a]
            != vars[b]
}

/// The identities that a solver keeps track of besides its tableau.
///
/// - the symbol allocator;
/// - the external symbol of each variable the solver has seen, by variable id;
/// - the marker symbols of each live constraint, by constraint key (a constraint's identity,
///   shared by all its clones);
/// - the key of the edit constraint of each edit variable, by variable id.
pub struct Registry {
    symbols: SymbolAllocator,
    vars: Table<Symbol>,
    constraints: Table<Tag>,
    edits: Table<usize>,
}

impl Registry {
    /// The id that the next symbol will get.
    pub closed spec fn next_id(&self) -> usize {
        self.symbols.next_id()
    }

    /// The external symbol of each variable, by variable id.
    pub closed spec fn vars(&self) -> Map<usize, Symbol> {
        self.vars.view()
    }

    /// The tag of each live constraint, by constraint key.
    pub closed spec fn constraints(&self) -> Map<usize, Tag> {
        self.constraints.view()
    }

    /// The key of the edit constraint of each edit variable, by variable id.
    pub closed spec fn edits(&self) -> Map<usize, usize> {
        self.edits.view()
    }

    /// The variable ids in the order in which the solver first saw them.
    pub closed spec fn var_order(&self) -> Seq<usize> {
        self.vars.key_order()
    }

    pub closed spec fn wf(&self) -> bool {
        &&& self.symbols.wf()
        &&& self.vars.wf()
        &&& self.constraints.wf()
        &&& self.edits.wf()
        &&& external_symbols_fresh(self.vars.view(), self.symbols.next_id())
    }

    /// In every state of a registry, each variable's symbol is fresh and its own: an
    /// `External` symbol with an id below the next id, shared with no other variable. Symbols
    /// allocated later, for markers or for an artificial variable, can therefore never equal a
    /// variable's symbol.
    pub proof fn lemma_symbols_fresh(&self)
        requires
            self.wf(),
        ensures
            external_symbols_fresh(self.vars(), self.next_id()),
    {
    }

    /// A registry that knows no variable, constraint or edit variable.
    pub fn new() -> (r: Registry)
        ensures
            r.wf(),
            r.next_id() == 1,
            r.vars() == Map::<usize, Symbol>::empty(),
            external_symbols_fresh(r.vars(), r.next_id()),
            r.constraints() == Map::<usize, Tag>::empty(),
            r.edits() == Map::<usize, usize>::empty(),
    {
        Registry {
            symbols: SymbolAllocator::new(),
            vars: Table::new(),
            constraints: Table::new(),
            edits: Table::new(),
        }
    }

    /// The external symbol of `v`: the one it already has, or a new one, which `v` keeps from
    /// then on.
    pub fn external_symbol(&mut self, v: Variable) -> (r: Result<Symbol, InternalSolverError>)
        requires
            old(self).wf(),
        ensures
            final(self).wf(),
            final(self).constraints() == old(self).constraints(),
            final(self).edits() == old(self).edits(),
            external_symbols_fresh(final(self).vars(), final(self).next_id()),
            old(self).vars().contains_key(v@) ==> r == Ok::<Symbol, InternalSolverError>(
                old(self).vars()[v@],
            ) && *final(self) == *old(self),
            !old(self).vars().contains_key(v@) && old(self).next_id() < usize::MAX ==> {
                let s = Symbol(old(self).next_id(), SymbolKind::External);
                &&& r == Ok::<Symbol, InternalSolverError>(s)
                &&& final(self).vars() == old(self).vars().insert(v@, s)
                &&& final(self).var_order() == old(self).var_order().push(v@)
                &&& final(self).next_id() == old(self).next_id() + 1
            },
            !old(self).vars().contains_key(v@) && old(self).next_id() == usize::MAX ==> r is Err
                && *final(self) == *old(self),
    {
        match self.vars.get(v.id()) {
            Some(s) => Ok(s),
            None => {
                let ghost old_vars = self.vars.view();
                let s = self.symbols.next(SymbolKind::External)?;
                self.vars.insert(v.id(), s);
                proof {
                    let vars = self.vars.view();
                    assert(vars == old_vars.insert(v@, s));
                    assert forall|k: usize| #[trigger] vars.contains_key(k) implies vars[k].kind_spec()
                        == SymbolKind::External && 1 <= vars[k].id_spec() < self.symbols.next_id() by {
                        if k != v@ {
                            assert(old_vars.contains_key(k));
                        }
                    }
                    assert forall|a: usize, b: usize|
                        #[trigger] vars.contains_key(a) && #[trigger] vars.contains_key(b) && a
                            != b implies vars[a] != vars[b] by {
                        if a != v@ && b != v@ {
                            assert(old_vars.contains_key(a) && old_vars.contains_key(b));
                        } else if a == v@ {
                            assert(old_vars.contains_key(b));
                        } else {
                            assert(old_vars.contains_key(a));
                        }
                    }
                }
                Ok(s)
            },
        }
    }

    /// A new symbol of the given kind that belongs to no variable or constraint, such as the
    /// artificial variable that restores feasibility while a constraint is added.
    pub fn new_symbol(&mut self, kind: SymbolKind) -> (r: Result<Symbol, InternalSolverError>)
        requires
            old(self).wf(),
        ensures
            final(self).wf(),
            final(self).vars() == old(self).vars(),
            final(self).var_order() == old(self).var_order(),
            final(self).constraints() == old(self).constraints(),
            final(self).edits() == old(self).edits(),
            old(self).next_id() < usize::MAX ==> r == Ok::<Symbol, InternalSolverError>(
                Symbol(old(self).next_id(), kind),
            ) && final(self).next_id() == old(self).next_id() + 1,
            old(self).next_id() == usize::MAX ==> r is Err && *final(self) == *old(self),
    {
        self.symbols.next(kind)
    }

    /// The external symbol of `v`, if the solver has seen `v`.
    pub fn symbol_of(&self, v: Variable) -> (r: Option<Symbol>)
        requires
            self.wf(),
        ensures
            r == (if self.vars().contains_key(v@) {
                Some(self.vars()[v@])
            } else {
                None::<Symbol>
            }),
    {
        self.vars.get(v.id())
    }

    /// How many variables the solver has seen.
    pub fn variable_count(&self) -> (r: usize)
        requires
            self.wf(),
        ensures
            r == self.var_order().len(),
    {
        self.vars.len()
    }

    /// The `i`-th variable the solver saw, with its external symbol.
    pub fn variable_at(&self, i: usize) -> (r: (Variable, Symbol))
        requires
            self.wf(),
            i < self.var_order().len(),
        ensures
            r.0@ == self.var_order()[i as int],
            self.vars().contains_key(r.0@),
            r.1 == self.vars()[r.0@],
    {
        let (id, s) = self.vars.entry_at(i);
        (Variable::from_id(id), s)
    }

    /// Whether the constraint with this key is live.
    pub fn has_constraint(&self, key: usize) -> (r: bool)
        requires
            self.wf(),
        ensures
            r == self.constraints().contains_key(key),
    {
        self.constraints.contains(key)
    }

    /// The tag of the constraint with this key, if it is live.
    pub fn constraint_tag(&self, key: usize) -> (r: Option<Tag>)
        requires
            self.wf(),
        ensures
            r == (if self.constraints().contains_key(key) {
                Some(self.constraints()[key])
            } else {
                None::<Tag>
            }),
    {
        self.constraints.get(key)
    }

    /// The first step of adding a constraint: fails with `DuplicateConstraint` when its key is
    /// live; else allocates its marker symbols (see `Tag::allocate`). The constraint becomes
    /// live only by `commit_constraint`, once the tableau has taken its row.
    pub fn new_constraint_tag(
        &mut self,
        key: usize,
        op: RelationalOperator,
        required: bool,
    ) -> (r: Result<Tag, AddConstraintError>)
        requires
            old(self).wf(),
        ensures
            final(self).wf(),
            final(self).vars() == old(self).vars(),
            final(self).var_order() == old(self).var_order(),
            final(self).constraints() == old(self).constraints(),
            final(self).edits() == old(self).edits(),
            old(self).constraints().contains_key(key) ==> r matches Err(
                AddConstraintError::DuplicateConstraint,
            ),
            !old(self).constraints().contains_key(key) ==> (r is Ok <==> old(self).next_id()
                + tag_symbol_count(op, required) <= usize::MAX),
            r is Err ==> *final(self) == *old(self),
            r matches Ok(t) ==> {
                let n = old(self).next_id();
                let (mk, ok) = tag_kinds(op, required);
                &&& t.marker == Symbol(n, mk)
                &&& ok == SymbolKind::Invalid ==> t.other == Symbol(0, SymbolKind::Invalid)
                &&& ok != SymbolKind::Invalid ==> t.other == Symbol((n + 1) as usize, ok)
                &&& final(self).next_id() == n + tag_symbol_count(op, required)
            },
    {
        if self.constraints.contains(key) {
            return Err(AddConstraintError::DuplicateConstraint);
        }
        match Tag::allocate(&mut self.symbols, op, required) {
            Ok(t) => Ok(t),
            Err(e) => Err(AddConstraintError::from(e)),
        }
    }

    /// Makes the constraint with this key live, with its tag.
    pub fn commit_constraint(&mut self, key: usize, tag: Tag)
        requires
            old(self).wf(),
            !old(self).constraints().contains_key(key),
        ensures
            final(self).wf(),
            final(self).constraints() == old(self).constraints().insert(key, tag),
            final(self).vars() == old(self).vars(),
            final(self).var_order() == old(self).var_order(),
            final(self).edits() == old(self).edits(),
            final(self).next_id() == old(self).next_id(),
    {
        self.constraints.insert(key, tag);
    }

    /// Removes the constraint with this key and returns its tag; fails with
    /// `UnknownConstraint`, changing nothing, when it is not live.
    pub fn remove_constraint(&mut self, key: usize) -> (r: Result<Tag, RemoveConstraintError>)
        requires
            old(self).wf(),
        ensures
            final(self).wf(),
            final(self).constraints() == old(self).constraints().remove(key),
            final(self).vars() == old(self).vars(),
            final(self).var_order() == old(self).var_order(),
            final(self).edits() == old(self).edits(),
            final(self).next_id() == old(self).next_id(),
            old(self).constraints().contains_key(key) ==> r == Ok::<Tag, RemoveConstraintError>(
                old(self).constraints()[key],
            ),
            !old(self).constraints().contains_key(key) ==> r matches Err(
                RemoveConstraintError::UnknownConstraint,
            ),
    {
        match self.constraints.remove(key) {
            Some(t) => Ok(t),
            None => Err(RemoveConstraintError::UnknownConstraint),
        }
    }

    /// Whether `v` is an edit variable.
    pub fn has_edit_variable(&self, v: Variable) -> (r: bool)
        requires
            self.wf(),
        ensures
            r == self.edits().contains_key(v@),
    {
        self.edits.contains(v.id())
    }

    /// The checks before `v` becomes an edit variable: `DuplicateEditVariable` when it is one
    /// already; else `BadRequiredStrength` when the strength asked for is required.
    pub fn check_new_edit(&self, v: Variable, required: bool) -> (r: Result<
        (),
        AddEditVariableError,
    >)
        requires
            self.wf(),
        ensures
            self.edits().contains_key(v@) ==> r matches Err(
                AddEditVariableError::DuplicateEditVariable,
            ),
            !self.edits().contains_key(v@) && required ==> r matches Err(
                AddEditVariableError::BadRequiredStrength,
            ),
            !self.edits().contains_key(v@) && !required ==> r is Ok,
    {
        if self.edits.contains(v.id()) {
            Err(AddEditVariableError::DuplicateEditVariable)
        } else if required {
            Err(AddEditVariableError::BadRequiredStrength)
        } else {
            Ok(())
        }
    }

    /// Makes `v` an edit variable whose edit constraint has the key `key`.
    pub fn commit_edit(&mut self, v: Variable, key: usize)
        requires
            old(self).wf(),
            !old(self).edits().contains_key(v@),
        ensures
            final(self).wf(),
            final(self).edits() == old(self).edits().insert(v@, key),
            final(self).vars() == old(self).vars(),
            final(self).var_order() == old(self).var_order(),
            final(self).constraints() == old(self).constraints(),
            final(self).next_id() == old(self).next_id(),
    {
        self.edits.insert(v.id(), key);
    }

    /// The key of the edit constraint of `v`, for a suggested value; fails with
    /// `UnknownEditVariable` when `v` is not an edit variable.
    pub fn edit_for_suggestion(&self, v: Variable) -> (r: Result<usize, SuggestValueError>)
        requires
            self.wf(),
        ensures
            self.edits().contains_key(v@) ==> r == Ok::<usize, SuggestValueError>(
                self.edits()[v@],
            ),
            !self.edits().contains_key(v@) ==> r matches Err(
                SuggestValueError::UnknownEditVariable,
            ),
    {
        match self.edits.get(v.id()) {
            Some(key) => Ok(key),
            None => Err(SuggestValueError::UnknownEditVariable),
        }
    }

    /// Ends `v`'s being an edit variable and returns the key of its edit constraint; fails
    /// with `UnknownEditVariable`, changing nothing, when `v` is not an edit variable.
    pub fn remove_edit(&mut self, v: Variable) -> (r: Result<usize, RemoveEditVariableError>)
        requires
            old(self).wf(),
        ensures
            final(self).wf(),
            final(self).edits() == old(self).edits().remove(v@),
            final(self).vars() == old(self).vars(),
            final(self).var_order() == old(self).var_order(),
            final(self).constraints() == old(self).constraints(),
            final(self).next_id() == old(self).next_id(),
            old(self).edits().contains_key(v@) ==> r == Ok::<usize, RemoveEditVariableError>(
                old(self).edits()[v@],
            ),
            !old(self).edits().contains_key(v@) ==> r matches Err(
                RemoveEditVariableError::UnknownEditVariable,
            ),
    {
        match self.edits.remove(v.id()) {
            Some(key) => Ok(key),
            None => Err(RemoveEditVariableError::UnknownEditVariable),
        }
    }
}

/// A constraint is known by its key, which all its clones share: once it has been added, adding
/// it again (through any clone) finds the key live and fails with `DuplicateConstraint`, while
/// removing it (through any clone) finds it, gives back its tag and leaves the table as it was
/// before the addition.
pub proof fn lemma_constraint_identity(constraints: Map<usize, Tag>, key: usize, tag: Tag)
    requires
        !constraints.contains_key(key),
    ensures
        constraints.insert(key, tag).contains_key(key),
        constraints.insert(key, tag)[key] == tag,
        constraints.insert(key, tag).remove(key) == constraints,
{
    assert(constraints.insert(key, tag).remove(key) =~= constraints);
}

} // verus!
