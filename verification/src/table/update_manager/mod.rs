use vstd::prelude::*;
use crate::json::{Json, JsonV};
use crate::methods::Model;
use crate::statements::update::Update;
use crate::statements::where_clause::{Where, Ops};
use crate::statements::order::Order;
use crate::statements::limit::Limit;
use crate::statements::offset::Offset;

pub mod update_statement;
pub use update_statement::{UpdateStatement, increment_sql};

verus! {

/// Builds an `UPDATE` statement.
#[derive(Debug)]
pub struct UpdateManager {
    pub ast: UpdateStatement,
}

impl Default for UpdateManager {
    fn default() -> (r: Self)
        ensures
            r.ast.update is None,
            r.ast.wheres@.len() == 0,
            r.ast.orders@.len() == 0,
            r.ast.limit is None,
            r.ast.offset is None,
    {
        Self { ast: UpdateStatement::default() }
    }
}

impl UpdateManager {
    /// The statement being built.
    pub fn ctx_mut(&mut self) -> (r: &mut UpdateStatement)
        ensures
            *r == old(self).ast,
            *final(self) == (UpdateManager { ast: *final(r) }),
    {
        &mut self.ast
    }

    /// Assigns `condition`, in place of any earlier assignments.
    pub fn update(&mut self, condition: Json) -> (r: &mut Self)
        ensures
            *r == (UpdateManager { ast: UpdateStatement { update: Some(Update { value: condition }), ..old(self).ast } }),
            *final(self) == *final(r),
    {
        self.ctx_mut().update(condition);
        self
    }

    /// Adds `by` to the column `column_name`, in place of any earlier assignments.
    pub fn increment(&mut self, model: &Model, column_name: &str, by: isize) -> (r: &mut Self)
        requires
            by != isize::MIN,
        ensures
            r.ast.update matches Some(u) && u.value@ == JsonV::Str(increment_sql(*model, column_name@, by as int)),
            *r == (UpdateManager { ast: UpdateStatement { update: r.ast.update, ..old(self).ast } }),
            *final(self) == *final(r),
    {
        self.ctx_mut().increment(model, column_name, by);
        self
    }

    /// Subtracts `by` from the column `column_name`, in place of any earlier assignments.
    pub fn decrement(&mut self, model: &Model, column_name: &str, by: isize) -> (r: &mut Self)
        requires
            by != isize::MIN,
        ensures
            r.ast.update matches Some(u) && u.value@ == JsonV::Str(increment_sql(*model, column_name@, -by)),
            *r == (UpdateManager { ast: UpdateStatement { update: r.ast.update, ..old(self).ast } }),
            *final(self) == *final(r),
    {
        self.ctx_mut().decrement(model, column_name, by);
        self
    }

    /// Adds the condition `condition`.
    pub fn where_(&mut self, condition: Json, ops: Ops) -> (r: &mut Self)
        ensures
            *r == (UpdateManager { ast: UpdateStatement { wheres: r.ast.wheres, ..old(self).ast } }),
            r.ast.wheres@ == old(self).ast.wheres@.push(Where { value: condition, ops }),
            *final(self) == *final(r),
    {
        self.ctx_mut().where_(condition, ops);
        self
    }

    /// Adds the ordering `condition`.
    pub fn order(&mut self, condition: Json) -> (r: &mut Self)
        ensures
            *r == (UpdateManager { ast: UpdateStatement { orders: r.ast.orders, ..old(self).ast } }),
            r.ast.orders@ == old(self).ast.orders@.push(Order { value: condition }),
            *final(self) == *final(r),
    {
        self.ast.order(condition);
        self
    }

    /// Limits the rows to `condition`.
    pub fn limit(&mut self, condition: usize) -> (r: &mut Self)
        ensures
            *r == (UpdateManager { ast: UpdateStatement { limit: Some(Limit { value: condition }), ..old(self).ast } }),
            *final(self) == *final(r),
    {
        self.ast.limit(condition);
        self
    }

    /// Skips the first `condition` rows.
    pub fn offset(&mut self, condition: usize) -> (r: &mut Self)
        ensures
            *r == (UpdateManager { ast: UpdateStatement { offset: Some(Offset { value: condition }), ..old(self).ast } }),
            *final(self) == *final(r),
    {
        self.ast.offset(condition);
        self
    }
}

} // verus!
