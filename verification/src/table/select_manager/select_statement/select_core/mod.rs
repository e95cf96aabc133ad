use vstd::prelude::*;
use crate::error::ArelError;
use crate::json::{Json, JsonV};
use crate::collectors::Sql;
use crate::collectors::sql::{SqlV, opt_sql_result, prefixed, present};
use crate::methods::Model;
use crate::statements::{StatementAble, sql_result};
use crate::statements::select::{Select, Op, select_sql};
use crate::statements::where_clause::{Where, Ops};
use crate::statements::group::Group;
use crate::statements::having::Having;
use crate::statements::helpers::{inject_join, list_sql, and};

pub mod join_source;
pub use join_source::JoinSource;

verus! {

/// The core of a `SELECT`: its projection, join, conditions, grouping and group
/// conditions.
#[derive(Debug)]
pub struct SelectCore {
    pub join_source: Option<JoinSource>,
    pub select: Select,
    pub wheres: Vec<Where>,
    pub groups: Vec<Group>,
    pub havings: Vec<Having>,
}

/// `SELECT` and the projection of `c`, its columns described by `value`.
pub open spec fn core_select_sql(m: Model, c: SelectCore, value: JsonV) -> Result<SqlV, ArelError> {
    prefixed("SELECT "@, select_sql(m, value, c.select.distinct, c.select.op))
}

/// The join of `c`, where it has one.
pub open spec fn core_joins_sql(m: Model, c: SelectCore) -> Result<Option<SqlV>, ArelError> {
    match c.join_source {
        None => Ok(None),
        Some(js) => present(js.join.spec_to_sql(m)),
    }
}

/// The conditions of `c` joined by `AND`, where it has any.
pub open spec fn core_where_sql(m: Model, c: SelectCore) -> Result<Option<SqlV>, ArelError> {
    list_sql(m, c.wheres@, " AND "@)
}

/// The groupings of `c` joined by commas, where it has any.
pub open spec fn core_group_sql(m: Model, c: SelectCore) -> Result<Option<SqlV>, ArelError> {
    list_sql(m, c.groups@, ", "@)
}

/// The group conditions of `c` joined by `AND`, where it has any.
pub open spec fn core_having_sql(m: Model, c: SelectCore) -> Result<Option<SqlV>, ArelError> {
    list_sql(m, c.havings@, " AND "@)
}

/// `c` projects all columns, without aggregate, join, conditions or grouping.
pub open spec fn is_initial_core(c: SelectCore) -> bool {
    &&& c.join_source is None
    &&& c.select.value@ == JsonV::Array(seq![JsonV::Str(seq!['*'])])
    &&& !c.select.distinct
    &&& c.select.op is None
    &&& c.wheres@.len() == 0
    &&& c.groups@.len() == 0
    &&& c.havings@.len() == 0
}

impl SelectCore {
    /// All columns of the table, without join, conditions or grouping.
    pub fn new() -> (r: Self)
        ensures
            is_initial_core(r),
    {
        Self {
            join_source: None,
            select: Select::default(),
            wheres: Vec::new(),
            groups: Vec::new(),
            havings: Vec::new(),
        }
    }

    /// Projects `condition`.
    pub fn select(&mut self, condition: Json) -> (r: &mut Self)
        ensures
            *r == (SelectCore { select: Select { value: condition, ..old(self).select }, ..*old(self) }),
            *final(self) == *final(r),
    {
        self.select.value = condition;
        self
    }

    /// Counts the projection.
    pub fn count(&mut self) -> (r: &mut Self)
        ensures
            *r == (SelectCore {
                select: Select { op: Some(Op::Count), ..old(self).select },
                ..*old(self)
            }),
            *final(self) == *final(r),
    {
        self.select.op = Some(Op::Count);
        self
    }

    /// Sums the column `column_name`.
    pub fn sum(&mut self, column_name: &str) -> (r: &mut Self)
        ensures
            r.select.op matches Some(Op::Sum(c)) && c@ == column_name@,
            *r == (SelectCore { select: Select { op: r.select.op, ..old(self).select }, ..*old(self) }),
            *final(self) == *final(r),
    {
        self.select.op = Some(Op::Sum(column_name.to_string()));
        self
    }

    /// Averages the column `column_name`.
    pub fn avg(&mut self, column_name: &str) -> (r: &mut Self)
        ensures
            r.select.op matches Some(Op::Avg(c)) && c@ == column_name@,
            *r == (SelectCore { select: Select { op: r.select.op, ..old(self).select }, ..*old(self) }),
            *final(self) == *final(r),
    {
        self.select.op = Some(Op::Avg(column_name.to_string()));
        self
    }

    /// The least value of the column `column_name`.
    pub fn min(&mut self, column_name: &str) -> (r: &mut Self)
        ensures
            r.select.op matches Some(Op::Min(c)) && c@ == column_name@,
            *r == (SelectCore { select: Select { op: r.select.op, ..old(self).select }, ..*old(self) }),
            *final(self) == *final(r),
    {
        self.select.op = Some(Op::Min(column_name.to_string()));
        self
    }

    /// The greatest value of the column `column_name`.
    pub fn max(&mut self, column_name: &str) -> (r: &mut Self)
        ensures
            r.select.op matches Some(Op::Max(c)) && c@ == column_name@,
            *r == (SelectCore { select: Select { op: r.select.op, ..old(self).select }, ..*old(self) }),
            *final(self) == *final(r),
    {
        self.select.op = Some(Op::Max(column_name.to_string()));
        self
    }

    /// Makes the projection distinct.
    pub fn distinct(&mut self) -> (r: &mut Self)
        ensures
            *r == (SelectCore { select: Select { distinct: true, ..old(self).select }, ..*old(self) }),
            *final(self) == *final(r),
    {
        self.select.distinct = true;
        self
    }

    /// `SELECT` and the projection.
    pub fn get_select_sql(&self, model: &Model) -> (r: Result<Sql, ArelError>)
        ensures
            sql_result(r) == core_select_sql(*model, *self, self.select.value@),
    {
        let sql = self.select.to_sql(model)?;
        Ok(sql.prefixed_with("SELECT "))
    }

    /// Joins `condition`, in place of any earlier join.
    pub fn joins(&mut self, condition: Json) -> (r: &mut Self)
        ensures
            *r == (SelectCore { join_source: Some(JoinSource { join: crate::statements::join::Join { value: condition } }), ..*old(self) }),
            *final(self) == *final(r),
    {
        self.join_source = Some(JoinSource::new(condition));
        self
    }

    /// The join, where there is one.
    pub fn get_joins_sql(&self, model: &Model) -> (r: Result<Option<Sql>, ArelError>)
        ensures
            opt_sql_result(r) == core_joins_sql(*model, *self),
    {
        match &self.join_source {
            Some(join_source) => Ok(Some(join_source.to_sql(model)?)),
            None => Ok(None),
        }
    }

    /// Adds the condition `condition`.
    pub fn where_(&mut self, condition: Json, ops: Ops) -> (r: &mut Self)
        ensures
            *r == (SelectCore { wheres: r.wheres, ..*old(self) }),
            r.wheres@ == old(self).wheres@.push(Where { value: condition, ops }),
            *final(self) == *final(r),
    {
        self.wheres.push(Where::new(condition, ops));
        self
    }

    /// The conditions joined by `AND`, where there are any.
    pub fn get_where_sql(&self, model: &Model) -> (r: Result<Option<Sql>, ArelError>)
        ensures
            opt_sql_result(r) == core_where_sql(*model, *self),
    {
        if self.wheres.len() == 0 {
            Ok(None)
        } else {
            Ok(Some(and::to_sql(&self.wheres, model)?))
        }
    }

    /// Adds the grouping `condition`.
    pub fn group(&mut self, condition: Json) -> (r: &mut Self)
        ensures
            *r == (SelectCore { groups: r.groups, ..*old(self) }),
            r.groups@ == old(self).groups@.push(Group { value: condition }),
            *final(self) == *final(r),
    {
        self.groups.push(Group::new(condition));
        self
    }

    /// The groupings joined by commas, where there are any.
    pub fn get_group_sql(&self, model: &Model) -> (r: Result<Option<Sql>, ArelError>)
        ensures
            opt_sql_result(r) == core_group_sql(*model, *self),
    {
        if self.groups.len() == 0 {
            Ok(None)
        } else {
            Ok(Some(inject_join(&self.groups, model, ", ")?))
        }
    }

    /// Adds the group condition `condition`.
    pub fn having(&mut self, condition: Json, ops: Ops) -> (r: &mut Self)
        ensures
            *r == (SelectCore { havings: r.havings, ..*old(self) }),
            r.havings@ == old(self).havings@.push(Where { value: condition, ops }),
            *final(self) == *final(r),
    {
        self.havings.push(Having::new(condition, ops));
        self
    }

    /// The group conditions joined by `AND`, where there are any.
    pub fn get_having_sql(&self, model: &Model) -> (r: Result<Option<Sql>, ArelError>)
        ensures
            opt_sql_result(r) == core_having_sql(*model, *self),
    {
        if self.havings.len() == 0 {
            Ok(None)
        } else {
            Ok(Some(and::to_sql(&self.havings, model)?))
        }
    }
}

} // verus!
