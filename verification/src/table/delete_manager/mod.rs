use vstd::prelude::*;
use crate::json::Json;
use crate::statements::where_clause::{Where, Ops};
use crate::statements::order::Order;
use crate::statements::limit::Limit;
use crate::statements::offset::Offset;

pub mod delete_statement;
pub use delete_statement::DeleteStatement;

verus! {

/// Builds a `DELETE` statement.
#[derive(Debug)]
pub struct DeleteManager {
    pub ast: DeleteStatement,
}

impl Default for DeleteManager {
    fn default() -> (r: Self)
        ensures
            r.ast.wheres@.len() == 0,
            r.ast.orders@.len() == 0,
            r.ast.limit is None,
            r.ast.offset is None,
    {
        Self { ast: DeleteStatement::default() }
    }
}

impl DeleteManager {
    /// The statement being built.
    pub fn ctx_mut(&mut self) -> (r: &mut DeleteStatement)
        ensures
            *r == old(self).ast,
            *final(self) == (DeleteManager { ast: *final(r) }),
    {
        &mut self.ast
    }

    /// Adds the condition `condition`.
    pub fn where_(&mut self, condition: Json, ops: Ops) -> (r: &mut Self)
        ensures
            *r == (DeleteManager { ast: DeleteStatement { wheres: r.ast.wheres, ..old(self).ast } }),
            r.ast.wheres@ == old(self).ast.wheres@.push(Where { value: condition, ops }),
            *final(self) == *final(r),
    {
        self.ctx_mut().where_(condition, ops);
        self
    }

    /// Adds the ordering `condition`.
    pub fn order(&mut self, condition: Json) -> (r: &mut Self)
        ensures
            *r == (DeleteManager { ast: DeleteStatement { orders: r.ast.orders, ..old(self).ast } }),
            r.ast.orders@ == old(self).ast.orders@.push(Order { value: condition }),
            *final(self) == *final(r),
    {
        self.ast.order(condition);
        self
    }

    /// Limits the rows to `condition`.
    pub fn limit(&mut self, condition: usize) -> (r: &mut Self)
        ensures
            *r == (DeleteManager { ast: DeleteStatement { limit: Some(Limit { value: condition }), ..old(self).ast } }),
            *final(self) == *final(r),
    {
        self.ast.limit(condition);
        self
    }

    /// Skips the first `condition` rows.
    pub fn offset(&mut self, condition: usize) -> (r: &mut Self)
        ensures
            *r == (DeleteManager { ast: DeleteStatement { offset: Some(Offset { value: condition }), ..old(self).ast } }),
            *final(self) == *final(r),
    {
        self.ast.offset(condition);
        self
    }
}

} // verus!
