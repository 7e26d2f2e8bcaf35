use vstd::prelude::*;

verus! {

/// Identifies a variable for the constraint solver.
///
/// Two variables are the same variable exactly when their ids are equal; copying a variable
/// gives the same variable.
#[derive(Copy, Clone, Hash, PartialEq, Eq, Structural, PartialOrd, Ord, Debug)]
pub struct Variable(pub usize);

impl View for Variable {
    type V = usize;

    open spec fn view(&self) -> usize {
        self.0
    }
}

impl Variable {
    /// The variable with the given id.
    pub fn from_id(id: usize) -> (r: Variable)
        ensures
            r@ == id,
    {
        Variable(id)
    }

    /// The id of this variable.
    pub fn id(&self) -> (r: usize)
        ensures
            r == self@,
    {
        self.0
    }
}

} // verus!
