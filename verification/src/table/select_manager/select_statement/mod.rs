use vstd::prelude::*;
use crate::error::ArelError;
use crate::json::Json;
use crate::collectors::Sql;
use crate::collectors::sql::{SqlV, opt_sql_result};
use crate::methods::Model;
use crate::statements::StatementAble;
use crate::statements::order::Order;
use crate::statements::limit::Limit;
use crate::statements::offset::Offset;
use crate::statements::lock::Lock;
use crate::statements::helpers::{inject_join, list_sql, opt_statement_sql};

pub mod select_core;
use select_core::{SelectCore, is_initial_core};

verus! {

/// A `SELECT` statement: its core and its ordering, limit, offset and lock.
#[derive(Debug)]
pub struct SelectStatement {
    pub core: SelectCore,
    pub orders: Vec<Order>,
    pub limit: Option<Limit>,
    pub offset: Option<Offset>,
    pub lock: Option<Lock>,
}

impl SelectStatement {
    /// All columns of the table, with nothing else.
    pub fn new() -> (r: Self)
        ensures
            is_initial_core(r.core),
            r.orders@.len() == 0,
            r.limit is None,
            r.offset is None,
            r.lock is None,
    {
        Self { core: SelectCore::new(), orders: Vec::new(), limit: None, offset: None, lock: None }
    }

    /// Adds the ordering `condition`.
    pub fn order(&mut self, condition: Json) -> (r: &mut Self)
        ensures
            *r == (SelectStatement { orders: r.orders, ..*old(self) }),
            r.orders@ == old(self).orders@.push(Order { value: condition }),
            *final(self) == *final(r),
    {
        self.orders.push(Order::new(condition));
        self
    }

    /// The orderings joined by commas, where there are any.
    pub fn get_order_sql(&self, model: &Model) -> (r: Result<Option<Sql>, ArelError>)
        ensures
            opt_sql_result(r) == list_sql(*model, self.orders@, ", "@),
    {
        if self.orders.len() == 0 {
            Ok(None)
        } else {
            Ok(Some(inject_join(&self.orders, model, ", ")?))
        }
    }

    /// Limits the rows to `condition`.
    pub fn limit(&mut self, condition: usize) -> (r: &mut Self)
        ensures
            *r == (SelectStatement { limit: Some(Limit { value: condition }), ..*old(self) }),
            *final(self) == *final(r),
    {
        self.limit = Some(Limit::new(condition));
        self
    }

    /// The limit, where there is one.
    pub fn get_limit_sql(&self, model: &Model) -> (r: Result<Option<Sql>, ArelError>)
        ensures
            opt_sql_result(r) == opt_statement_sql(*model, self.limit),
    {
        match &self.limit {
            Some(limit) => Ok(Some(limit.to_sql(model)?)),
            None => Ok(None),
        }
    }

    /// Skips the first `condition` rows.
    pub fn offset(&mut self, condition: usize) -> (r: &mut Self)
        ensures
            *r == (SelectStatement { offset: Some(Offset { value: condition }), ..*old(self) }),
            *final(self) == *final(r),
    {
        self.offset = Some(Offset::new(condition));
        self
    }

    /// The offset, where there is one.
    pub fn get_offset_sql(&self, model: &Model) -> (r: Result<Option<Sql>, ArelError>)
        ensures
            opt_sql_result(r) == opt_statement_sql(*model, self.offset),
    {
        match &self.offset {
            Some(offset) => Ok(Some(offset.to_sql(model)?)),
            None => Ok(None),
        }
    }

    /// Locks the selected rows as `condition` says.
    pub fn lock(&mut self, condition: Json) -> (r: &mut Self)
        ensures
            *r == (SelectStatement { lock: Some(Lock { value: condition }), ..*old(self) }),
            *final(self) == *final(r),
    {
        self.lock = Some(Lock::new(condition));
        self
    }

    /// The lock, where there is one.
    pub fn get_lock_sql(&self, model: &Model) -> (r: Result<Option<Sql>, ArelError>)
        ensures
            opt_sql_result(r) == opt_statement_sql(*model, self.lock),
    {
        match &self.lock {
            Some(lock) => Ok(Some(lock.to_sql(model)?)),
            None => Ok(None),
        }
    }
}

} // verus!
