use vstd::prelude::*;
use crate::json::Json;
use crate::statements::insert::Insert;

pub mod insert_statement;
pub use insert_statement::InsertStatement;

verus! {

/// Builds an `INSERT` statement.
#[derive(Debug)]
pub struct InsertManager {
    pub ast: InsertStatement,
}

impl Default for InsertManager {
    fn default() -> (r: Self)
        ensures
            r.ast.insert is None,
    {
        Self { ast: InsertStatement::default() }
    }
}

impl InsertManager {
    /// The statement being built.
    pub fn ctx_mut(&mut self) -> (r: &mut InsertStatement)
        ensures
            *r == old(self).ast,
            *final(self) == (InsertManager { ast: *final(r) }),
    {
        &mut self.ast
    }

    /// Inserts the row `condition`, in place of any earlier row.
    pub fn insert(&mut self, condition: Json) -> (r: &mut Self)
        ensures
            *r == (InsertManager { ast: InsertStatement { insert: Some(Insert { value: condition }) } }),
            *final(self) == *final(r),
    {
        self.ctx_mut().insert(condition);
        self
    }
}

} // verus!
