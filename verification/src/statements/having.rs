use vstd::prelude::*;

verus! {

/// A condition of a `HAVING` clause: written as a condition of a `WHERE` clause.
pub type Having = crate::statements::where_clause::Where;

} // verus!
