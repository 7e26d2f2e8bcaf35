//! Bookkeeping core of an incremental linear constraint solver in the style of Cassowary.
//!
//! The numeric tableau works on real coefficients; this crate holds the parts of the solver
//! that decide over identities: variables, symbols and their allocation, the relational
//! operators, the tables that map constraints and edit variables to their marker symbols,
//! the change log that publishes new variable values, and the error kinds.
mod changes;
mod error;
mod registry;
mod relations;
mod symbol;
mod table;
mod tag;
mod variable;

pub use changes::{
    agrees_with, distinct_variables, lemma_drain_idempotent, lemma_publish_agreeing,
    lemma_publish_records, lemma_zero_values_report_nothing, publish_spec, published_value,
    ChangeLog,
};
pub use error::{
    AddConstraintError, AddEditVariableError, InternalSolverError, RemoveConstraintError,
    RemoveEditVariableError, SuggestValueError,
};
pub use registry::{external_symbols_fresh, lemma_constraint_identity, Registry};
pub use relations::RelationalOperator;
pub use symbol::{Symbol, SymbolAllocator, SymbolKind};
pub use table::Table;
pub use tag::{
    all_dummies, first_external_from, is_pivotable_kind, spec_subject, tag_kinds,
    tag_symbol_count, Tag,
};
pub use variable::Variable;
