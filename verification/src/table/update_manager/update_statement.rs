use vstd::prelude::*;
use crate::error::ArelError;
use crate::json::{Json, JsonV};
use crate::collectors::Sql;
use crate::collectors::sql::{SqlV, opt_sql_result};
use crate::methods::{Model, spec_table_column_name, table_column_name, quote_table_name, quoted_name};
use crate::text::{nat_decimal, push_u64_decimal};
use crate::statements::StatementAble;
use crate::statements::update::Update;
use crate::statements::where_clause::{Where, Ops};
use crate::statements::order::Order;
use crate::statements::limit::Limit;
use crate::statements::offset::Offset;
use crate::statements::helpers::{inject_join, list_sql, opt_statement_sql, and};

verus! {

/// An `UPDATE` statement: its assignments, conditions, ordering, limit and offset.
#[derive(Debug)]
pub struct UpdateStatement {
    pub update: Option<Update>,
    pub wheres: Vec<Where>,
    pub orders: Vec<Order>,
    pub limit: Option<Limit>,
    pub offset: Option<Offset>,
}

/// `UPDATE`, the quoted table, `SET` and the assignments, where there are any.
pub open spec fn update_statement_sql(m: Model, s: UpdateStatement) -> Result<Option<SqlV>, ArelError> {
    match opt_statement_sql(m, s.update) {
        Ok(Some(v)) => Ok(
            Some(
                SqlV {
                    value: "UPDATE "@ + quoted_name(m.dialect, m.table_name@) + " SET "@ + v.value,
                    prepare: v.prepare,
                },
            ),
        ),
        other => other,
    }
}

/// The assignment that adds `by` to the column `column`, a missing value counting as 0.
pub open spec fn increment_sql(m: Model, column: Seq<char>, by: int) -> Seq<char> {
    let c = spec_table_column_name(m.dialect, m.table_name@, column);
    c + " = COALESCE("@ + c + ", 0)"@ + if by >= 0 {
        " + "@ + nat_decimal(by as nat)
    } else {
        " - "@ + nat_decimal((-by) as nat)
    }
}

impl Default for UpdateStatement {
    fn default() -> (r: Self)
        ensures
            r.update is None,
            r.wheres@.len() == 0,
            r.orders@.len() == 0,
            r.limit is None,
            r.offset is None,
    {
        Self { update: None, wheres: Vec::new(), orders: Vec::new(), limit: None, offset: None }
    }
}

impl UpdateStatement {
    /// Assigns `condition`, in place of any earlier assignments.
    pub fn update(&mut self, condition: Json) -> (r: &mut Self)
        ensures
            *r == (UpdateStatement { update: Some(Update { value: condition }), ..*old(self) }),
            *final(self) == *final(r),
    {
        self.update = Some(Update::new(condition));
        self
    }

    /// Adds `by` to the column `column_name`, in place of any earlier assignments.
    pub fn increment(&mut self, model: &Model, column_name: &str, by: isize) -> (r: &mut Self)
        requires
            by != isize::MIN,
        ensures
            r.update matches Some(u) && u.value@ == JsonV::Str(increment_sql(*model, column_name@, by as int)),
            *r == (UpdateStatement { update: r.update, ..*old(self) }),
            *final(self) == *final(r),
    {
        let table_column_name = table_column_name(model, column_name);
        let mut raw_sql = String::new();
        raw_sql.append(table_column_name.as_str());
        raw_sql.append(" = COALESCE(");
        raw_sql.append(table_column_name.as_str());
        raw_sql.append(", 0)");
        if by >= 0 {
            raw_sql.append(" + ");
            push_u64_decimal(&mut raw_sql, by as u64);
        } else {
            raw_sql.append(" - ");
            let abs: isize = -by;
            push_u64_decimal(&mut raw_sql, abs as u64);
        }
        assert(raw_sql@ =~= increment_sql(*model, column_name@, by as int));
        self.update = Some(Update::new(Json::String(raw_sql)));
        self
    }

    /// Subtracts `by` from the column `column_name`, in place of any earlier assignments.
    pub fn decrement(&mut self, model: &Model, column_name: &str, by: isize) -> (r: &mut Self)
        requires
            by != isize::MIN,
        ensures
            r.update matches Some(u) && u.value@ == JsonV::Str(increment_sql(*model, column_name@, -by)),
            *r == (UpdateStatement { update: r.update, ..*old(self) }),
            *final(self) == *final(r),
    {
        self.increment(model, column_name, -by)
    }

    /// `UPDATE`, the table, `SET` and the assignments, where there are any.
    pub fn get_update_sql(&self, model: &Model) -> (r: Result<Option<Sql>, ArelError>)
        ensures
            opt_sql_result(r) == update_statement_sql(*model, *self),
    {
        match &self.update {
            Some(update) => {
                let sql = update.to_sql(model)?;
                let mut prefix = String::new();
                prefix.append("UPDATE ");
                prefix.append(quote_table_name(model.table_name.as_str(), model.dialect).as_str());
                prefix.append(" SET ");
                let r = sql.prefixed_with(prefix.as_str());
                assert(r@.value =~= "UPDATE "@ + quoted_name(model.dialect, model.table_name@) + " SET "@ + sql@.value);
                Ok(Some(r))
            },
            None => Ok(None),
        }
    }

    /// Adds the condition `condition`.
    pub fn where_(&mut self, condition: Json, ops: Ops) -> (r: &mut Self)
        ensures
            *r == (UpdateStatement { wheres: r.wheres, ..*old(self) }),
            r.wheres@ == old(self).wheres@.push(Where { value: condition, ops }),
            *final(self) == *final(r),
    {
        self.wheres.push(Where::new(condition, ops));
        self
    }

    /// The conditions joined by `AND`, where there are any.
    pub fn get_where_sql(&self, model: &Model) -> (r: Result<Option<Sql>, ArelError>)
        ensures
            opt_sql_result(r) == list_sql(*model, self.wheres@, " AND "@),
    {
        if self.wheres.len() == 0 {
            Ok(None)
        } else {
            Ok(Some(and::to_sql(&self.wheres, model)?))
        }
    }

    /// Adds the ordering `condition`.
    pub fn order(&mut self, condition: Json) -> (r: &mut Self)
        ensures
            *r == (UpdateStatement { orders: r.orders, ..*old(self) }),
            r.orders@ == old(self).orders@.push(Order { value: condition }),
            *final(self) == *final(r),
    {
        self.orders.push(Order::new(condition));
        self
    }

    /// The orderings joined by commas, where there are any.
    pub fn get_order_sql(&self, model: &Model) -> (r: Result<Option<Sql>, ArelError>)
        ensures
            opt_sql_result(r) == list_sql(*model, self.orders@, ", "@),
    {
        if self.orders.len() == 0 {
            Ok(None)
        } else {
            Ok(Some(inject_join(&self.orders, model, ", ")?))
        }
    }

    /// Limits the rows to `condition`.
    pub fn limit(&mut self, condition: usize) -> (r: &mut Self)
        ensures
            *r == (UpdateStatement { limit: Some(Limit { value: condition }), ..*old(self) }),
            *final(self) == *final(r),
    {
        self.limit = Some(Limit::new(condition));
        self
    }

    /// The limit, where there is one.
    pub fn get_limit_sql(&self, model: &Model) -> (r: Result<Option<Sql>, ArelError>)
        ensures
            opt_sql_result(r) == opt_statement_sql(*model, self.limit),
    {
        match &self.limit {
            Some(limit) => Ok(Some(limit.to_sql(model)?)),
            None => Ok(None),
        }
    }

    /// Skips the first `condition` rows.
    pub fn offset(&mut self, condition: usize) -> (r: &mut Self)
        ensures
            *r == (UpdateStatement { offset: Some(Offset { value: condition }), ..*old(self) }),
            *final(self) == *final(r),
    {
        self.offset = Some(Offset::new(condition));
        self
    }

    /// The offset, where there is one.
    pub fn get_offset_sql(&self, model: &Model) -> (r: Result<Option<Sql>, ArelError>)
        ensures
            opt_sql_result(r) == opt_statement_sql(*model, self.offset),
    {
        match &self.offset {
            Some(offset) => Ok(Some(offset.to_sql(model)?)),
            None => Ok(None),
        }
    }
}

} // verus!
