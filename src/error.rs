use vstd::prelude::*;

verus! {

/// The solver reached a state that its algorithm rules out, such as an unbounded objective or
/// a pivot with no candidate. The text names the step that failed.
#[derive(Debug, Copy, Clone, PartialEq, Eq)]
pub struct InternalSolverError(pub &'static str);

/// The possible error conditions that `add_constraint` can fail with.
#[derive(Debug, Copy, Clone)]
pub enum AddConstraintError {
    /// The constraint specified has already been added to the solver.
    DuplicateConstraint,
    /// The constraint is required, but it is unsatisfiable in conjunction with the existing
    /// constraints.
    UnsatisfiableConstraint,
    /// The solver entered an invalid state.
    InternalSolverError(InternalSolverError),
}

/// The possible error conditions that `remove_constraint` can fail with.
#[derive(Debug, Copy, Clone)]
pub enum RemoveConstraintError {
    /// The constraint specified was not already in the solver, so cannot be removed.
    UnknownConstraint,
    /// The solver entered an invalid state.
    InternalSolverError(InternalSolverError),
}

/// The possible error conditions that `add_edit_variable` can fail with.
#[derive(Debug, Copy, Clone)]
pub enum AddEditVariableError {
    /// The specified variable is already marked as an edit variable in the solver.
    DuplicateEditVariable,
    /// The specified strength was `REQUIRED`, which edit variables may not have.
    BadRequiredStrength,
}

/// The possible error conditions that `remove_edit_variable` can fail with.
#[derive(Debug, Copy, Clone)]
pub enum RemoveEditVariableError {
    /// The specified variable was not an edit variable in the solver, so cannot be removed.
    UnknownEditVariable,
    /// The solver entered an invalid state.
    InternalSolverError(InternalSolverError),
}

/// The possible error conditions that `suggest_value` can fail with.
#[derive(Debug, Copy, Clone)]
pub enum SuggestValueError {
    /// The specified variable was not an edit variable in the solver, so cannot have its value
    /// suggested.
    UnknownEditVariable,
    /// The solver entered an invalid state.
    InternalSolverError(InternalSolverError),
}

impl From<InternalSolverError> for AddConstraintError {
    fn from(e: InternalSolverError) -> (r: AddConstraintError) {
        AddConstraintError::InternalSolverError(e)
    }
}

impl vstd::std_specs::convert::FromSpecImpl<InternalSolverError> for AddConstraintError {
    open spec fn obeys_from_spec() -> bool {
        true
    }

    open spec fn from_spec(e: InternalSolverError) -> AddConstraintError {
        AddConstraintError::InternalSolverError(e)
    }
}

impl From<InternalSolverError> for RemoveConstraintError {
    fn from(e: InternalSolverError) -> (r: RemoveConstraintError) {
        RemoveConstraintError::InternalSolverError(e)
    }
}

impl vstd::std_specs::convert::FromSpecImpl<InternalSolverError> for RemoveConstraintError {
    open spec fn obeys_from_spec() -> bool {
        true
    }

    open spec fn from_spec(e: InternalSolverError) -> RemoveConstraintError {
        RemoveConstraintError::InternalSolverError(e)
    }
}

impl From<InternalSolverError> for RemoveEditVariableError {
    fn from(e: InternalSolverError) -> (r: RemoveEditVariableError) {
        RemoveEditVariableError::InternalSolverError(e)
    }
}

impl vstd::std_specs::convert::FromSpecImpl<InternalSolverError> for RemoveEditVariableError {
    open spec fn obeys_from_spec() -> bool {
        true
    }

    open spec fn from_spec(e: InternalSolverError) -> RemoveEditVariableError {
        RemoveEditVariableError::InternalSolverError(e)
    }
}

impl From<InternalSolverError> for SuggestValueError {
    fn from(e: InternalSolverError) -> (r: SuggestValueError) {
        SuggestValueError::InternalSolverError(e)
    }
}

impl vstd::std_specs::convert::FromSpecImpl<InternalSolverError> for SuggestValueError {
    open spec fn obeys_from_spec() -> bool {
        true
    }

    open spec fn from_spec(e: InternalSolverError) -> SuggestValueError {
        SuggestValueError::InternalSolverError(e)
    }
}

} // verus!
