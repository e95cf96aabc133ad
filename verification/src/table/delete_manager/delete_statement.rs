use vstd::prelude::*;
use crate::error::ArelError;
use crate::json::Json;
use crate::collectors::Sql;
use crate::collectors::sql::opt_sql_result;
use crate::methods::Model;
use crate::statements::StatementAble;
use crate::statements::where_clause::{Where, Ops};
use crate::statements::order::Order;
use crate::statements::limit::Limit;
use crate::statements::offset::Offset;
use crate::statements::helpers::{inject_join, list_sql, opt_statement_sql, and};

verus! {

/// A `DELETE` statement: its conditions, ordering, limit and offset.
#[derive(Debug)]
pub struct DeleteStatement {
    pub wheres: Vec<Where>,
    pub orders: Vec<Order>,
    pub limit: Option<Limit>,
    pub offset: Option<Offset>,
}

impl Default for DeleteStatement {
    fn default() -> (r: Self)
        ensures
            r.wheres@.len() == 0,
            r.orders@.len() == 0,
            r.limit is None,
            r.offset is None,
    {
        Self { wheres: Vec::new(), orders: Vec::new(), limit: None, offset: None }
    }
}

impl DeleteStatement {
    /// Adds the condition `condition`.
    pub fn where_(&mut self, condition: Json, ops: Ops) -> (r: &mut Self)
        ensures
            *r == (DeleteStatement { wheres: r.wheres, ..*old(self) }),
            r.wheres@ == old(self).wheres@.push(Where { value: condition, ops }),
            *final(self) == *final(r),
    {
        self.wheres.push(Where::new(condition, ops));
        self
    }

    /// The conditions joined by `AND`, where there are any.
    pub fn get_where_sql(&self, model: &Model) -> (r: Result<Option<Sql>, ArelError>)
        ensures
            opt_sql_result(r) == list_sql(*model, self.wheres@, " AND "@),
    {
        if self.wheres.len() == 0 {
            Ok(None)
        } else {
            Ok(Some(and::to_sql(&self.wheres, model)?))
        }
    }

    /// Adds the ordering `condition`.
    pub fn order(&mut self, condition: Json) -> (r: &mut Self)
        ensures
            *r == (DeleteStatement { orders: r.orders, ..*old(self) }),
            r.orders@ == old(self).orders@.push(Order { value: condition }),
            *final(self) == *final(r),
    {
        self.orders.push(Order::new(condition));
        self
    }

    /// The orderings joined by commas, where there are any.
    pub fn get_order_sql(&self, model: &Model) -> (r: Result<Option<Sql>, ArelError>)
        ensures
            opt_sql_result(r) == list_sql(*model, self.orders@, ", "@),
    {
        if self.orders.len() == 0 {
            Ok(None)
        } else {
            Ok(Some(inject_join(&self.orders, model, ", ")?))
        }
    }

    /// Limits the rows to `condition`.
    pub fn limit(&mut self, condition: usize) -> (r: &mut Self)
        ensures
            *r == (DeleteStatement { limit: Some(Limit { value: condition }), ..*old(self) }),
            *final(self) == *final(r),
    {
        self.limit = Some(Limit::new(condition));
        self
    }

    /// The limit, where there is one.
    pub fn get_limit_sql(&self, model: &Model) -> (r: Result<Option<Sql>, ArelError>)
        ensures
            opt_sql_result(r) == opt_statement_sql(*model, self.limit),
    {
        match &self.limit {
            Some(limit) => Ok(Some(limit.to_sql(model)?)),
            None => Ok(None),
        }
    }

    /// Skips the first `condition` rows.
    pub fn offset(&mut self, condition: usize) -> (r: &mut Self)
        ensures
            *r == (DeleteStatement { offset: Some(Offset { value: condition }), ..*old(self) }),
            *final(self) == *final(r),
    {
        self.offset = Some(Offset::new(condition));
        self
    }

    /// The offset, where there is one.
    pub fn get_offset_sql(&self, model: &Model) -> (r: Result<Option<Sql>, ArelError>)
        ensures
            opt_sql_result(r) == opt_statement_sql(*model, self.offset),
    {
        match &self.offset {
            Some(offset) => Ok(Some(offset.to_sql(model)?)),
            None => Ok(None),
        }
    }
}

} // verus!
