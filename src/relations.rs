use vstd::prelude::*;

verus! {

/// The relation that a constraint imposes between its expression and zero.
#[derive(Debug, Copy, Clone, PartialEq, Eq, Structural, Hash, PartialOrd, Ord)]
pub enum RelationalOperator {
    /// `<=`
    LessOrEqual,
    /// `==`
    Equal,
    /// `>=`
    GreaterOrEqual,
}

impl RelationalOperator {
    /// The usual notation of the operator.
    pub open spec fn spec_text(self) -> Seq<char> {
        match self {
            RelationalOperator::LessOrEqual => seq!['<', '='],
            RelationalOperator::Equal => seq!['=', '='],
            RelationalOperator::GreaterOrEqual => seq!['>', '='],
        }
    }

    /// The operator written as `<=`, `==` or `>=`.
    pub fn to_string(&self) -> (r: String)
        ensures
            r@ == self.spec_text(),
    {
        match *self {
            RelationalOperator::LessOrEqual => {
                proof {
                    reveal_strlit("<=");
                }
                "<=".to_owned()
            },
            RelationalOperator::Equal => {
                proof {
                    reveal_strlit("==");
                }
                "==".to_owned()
            },
            RelationalOperator::GreaterOrEqual => {
                proof {
                    reveal_strlit(">=");
                }
                ">=".to_owned()
            },
        }
    }
}

} // verus!
