use vstd::prelude::*;
use crate::error::ArelError;
use crate::json::{Json, JsonV, lemma_array_view, jsons_view};
use crate::collectors::Sql;
use crate::collectors::sql::{SqlV, placeholders_fit, sql_render};
use crate::methods::{Model, Dialect, spec_table_column_name, table_column_name};
use crate::statements::{str_result, sql_result, rendered, renders};
use crate::statements::where_clause::{
    Where, Ops, JoinType, RangeBound, range_sql, help_range_to_sql,
};
use crate::statements::group::Group;
use crate::statements::order::Order;
use crate::statements::limit::Limit;
use crate::statements::offset::Offset;
use crate::statements::update::Update;
use crate::statements::insert::Insert;
use crate::visitors::to_sql::{
    accept_select_manager, accept_insert_manager, accept_update_manager, accept_delete_manager,
    select_manager_sql, insert_manager_sql, update_manager_sql, delete_manager_sql, core_sql,
};

pub mod select_manager;
pub mod insert_manager;
pub mod update_manager;
pub mod delete_manager;

pub use select_manager::SelectManager;
pub use select_manager::select_statement::SelectStatement;
pub use insert_manager::InsertManager;
pub use update_manager::UpdateManager;
pub use delete_manager::DeleteManager;

use select_manager::{
    with_select_value, with_op, with_distinct, with_join, where_pushed, group_pushed, having_pushed,
    order_pushed, with_limit, with_offset, with_lock,
};
use select_manager::select_statement::select_core::is_initial_core;
use update_manager::{UpdateStatement, increment_sql};
use delete_manager::DeleteStatement;

verus! {

/// Builds the statements of a model's table: a select, an insert, an update or a delete.
#[derive(Debug)]
pub struct Table {
    pub model: Model,
    pub select_manager: Option<SelectManager>,
    pub insert_manager: Option<InsertManager>,
    pub update_manager: Option<UpdateManager>,
    pub delete_manager: Option<DeleteManager>,
}

/// The select manager of `t`.
pub open spec fn select_of(t: Table) -> SelectManager {
    t.select_manager->Some_0
}

/// The update manager of `t`.
pub open spec fn update_of(t: Table) -> UpdateManager {
    t.update_manager->Some_0
}

/// The delete manager of `t`.
pub open spec fn delete_of(t: Table) -> DeleteManager {
    t.delete_manager->Some_0
}

/// `t` has a statement that takes conditions, orderings, limits and offsets.
pub open spec fn has_condition_target(t: Table) -> bool {
    t.select_manager is Some || t.update_manager is Some || t.delete_manager is Some
}

/// `b` is `a` with only its select manager changed, to `sm`.
pub open spec fn with_select(a: Table, sm: SelectManager) -> Table {
    Table { select_manager: Some(sm), ..a }
}

/// `b` is `a` with the condition `w` added to its select, else its update, else its delete.
pub open spec fn where_added(a: Table, b: Table, w: Where) -> bool {
    if a.select_manager is Some {
        &&& b == with_select(a, select_of(b))
        &&& where_pushed(select_of(a), select_of(b), w)
    } else if a.update_manager is Some {
        &&& b == (Table { update_manager: b.update_manager, ..a })
        &&& b.update_manager is Some
        &&& update_of(b).ast == (UpdateStatement { wheres: update_of(b).ast.wheres, ..update_of(a).ast })
        &&& update_of(b).ast.wheres@ == update_of(a).ast.wheres@.push(w)
    } else {
        &&& b == (Table { delete_manager: b.delete_manager, ..a })
        &&& b.delete_manager is Some
        &&& delete_of(b).ast == (DeleteStatement { wheres: delete_of(b).ast.wheres, ..delete_of(a).ast })
        &&& delete_of(b).ast.wheres@ == delete_of(a).ast.wheres@.push(w)
    }
}

/// `b` is `a` with the ordering `o` added to its select, else its update, else its delete.
pub open spec fn order_added(a: Table, b: Table, o: Order) -> bool {
    if a.select_manager is Some {
        &&& b == with_select(a, select_of(b))
        &&& order_pushed(select_of(a), select_of(b), o)
    } else if a.update_manager is Some {
        &&& b == (Table { update_manager: b.update_manager, ..a })
        &&& b.update_manager is Some
        &&& update_of(b).ast == (UpdateStatement { orders: update_of(b).ast.orders, ..update_of(a).ast })
        &&& update_of(b).ast.orders@ == update_of(a).ast.orders@.push(o)
    } else {
        &&& b == (Table { delete_manager: b.delete_manager, ..a })
        &&& b.delete_manager is Some
        &&& delete_of(b).ast == (DeleteStatement { orders: delete_of(b).ast.orders, ..delete_of(a).ast })
        &&& delete_of(b).ast.orders@ == delete_of(a).ast.orders@.push(o)
    }
}

/// `a` with the limit of its select, else its update, else its delete, replaced by `n`.
pub open spec fn with_table_limit(a: Table, n: usize) -> Table {
    if a.select_manager is Some {
        with_select(a, with_limit(select_of(a), n))
    } else if a.update_manager is Some {
        Table {
            update_manager: Some(
                UpdateManager { ast: UpdateStatement { limit: Some(Limit { value: n }), ..update_of(a).ast } },
            ),
            ..a
        }
    } else {
        Table {
            delete_manager: Some(
                DeleteManager { ast: DeleteStatement { limit: Some(Limit { value: n }), ..delete_of(a).ast } },
            ),
            ..a
        }
    }
}

/// `a` with the offset of its select, else its update, else its delete, replaced by `n`.
pub open spec fn with_table_offset(a: Table, n: usize) -> Table {
    if a.select_manager is Some {
        with_select(a, with_offset(select_of(a), n))
    } else if a.update_manager is Some {
        Table {
            update_manager: Some(
                UpdateManager { ast: UpdateStatement { offset: Some(Offset { value: n }), ..update_of(a).ast } },
            ),
            ..a
        }
    } else {
        Table {
            delete_manager: Some(
                DeleteManager { ast: DeleteStatement { offset: Some(Offset { value: n }), ..delete_of(a).ast } },
            ),
            ..a
        }
    }
}

/// The ops of a range condition.
pub open spec fn range_ops() -> Ops {
    Ops { join_type: JoinType::And, is_not: false, is_between: true }
}

/// `b` is `a` with the range condition written `raw` added (see `where_added`).
pub open spec fn range_where_added(a: Table, b: Table, raw: Seq<char>) -> bool {
    exists|w: Where|
        #![trigger where_added(a, b, w)]
        where_added(a, b, w) && w.ops == range_ops() && w.value@ == JsonV::Str(raw)
}

/// `b` is `a` with the range group condition written `raw` added to its select.
pub open spec fn range_having_added(a: Table, b: Table, raw: Seq<char>) -> bool {
    exists|w: Where|
        #![trigger having_pushed(select_of(a), select_of(b), w)]
        b == with_select(a, select_of(b)) && having_pushed(select_of(a), select_of(b), w) && w.ops
            == range_ops() && w.value@ == JsonV::Str(raw)
}

/// The projection of the primary key alone.
pub open spec fn pk_projection(m: Model) -> JsonV {
    JsonV::Array(seq![JsonV::Str(m.primary_key@)])
}

/// The SQL of the table's statement: its insert, else its update, else its delete (each
/// restricted to the rows of its select, which then projects the primary key), else its
/// select; a table without statement is refused.
pub open spec fn table_sql(t: Table) -> Result<SqlV, ArelError> {
    let m = t.model;
    if t.insert_manager is Some {
        insert_manager_sql(m, t.insert_manager->Some_0)
    } else if t.update_manager is Some {
        update_manager_sql(m, update_of(t), t.select_manager, pk_projection(m))
    } else if t.delete_manager is Some {
        delete_manager_sql(m, delete_of(t), t.select_manager, pk_projection(m))
    } else if t.select_manager is Some {
        select_manager_sql(m, select_of(t), select_of(t).ast.core.select.value@)
    } else {
        Err(ArelError::NoManager)
    }
}

/// What `to_sql` leaves of `a`: where an update or delete is restricted to the rows of a
/// select, the select projects the primary key; else `a` unchanged.
pub open spec fn projects_pk_after(a: Table, b: Table) -> bool {
    if a.insert_manager is None && (a.update_manager is Some || a.delete_manager is Some)
        && a.select_manager is Some {
        &&& b == with_select(a, with_select_value(select_of(a), select_of(b).ast.core.select.value))
        &&& select_of(b).ast.core.select.value@ == pk_projection(a.model)
    } else {
        b == a
    }
}

/// The SQL of a select does not read its projection's columns from the select itself
/// where they are given.
pub proof fn lemma_select_sql_ignores_value(m: Model, sm: SelectManager, value: Json, projection: JsonV)
    ensures
        select_manager_sql(m, with_select_value(sm, value), projection) == select_manager_sql(
            m,
            sm,
            projection,
        ),
{
    let sm2 = with_select_value(sm, value);
    assert(core_sql(m, sm2.ast.core, projection) == core_sql(m, sm.ast.core, projection));
}

impl Table {
    /// A table of `model` without statements.
    pub fn new(model: Model) -> (r: Self)
        ensures
            r == (Table {
                model,
                select_manager: None,
                insert_manager: None,
                update_manager: None,
                delete_manager: None,
            }),
    {
        Self {
            model,
            select_manager: None,
            insert_manager: None,
            update_manager: None,
            delete_manager: None,
        }
    }

    /// Adds the condition `condition` with `ops` to the select, else the update, else the
    /// delete.
    pub fn where_statement(&mut self, condition: Json, ops: Ops) -> (r: &mut Self)
        requires
            has_condition_target(*old(self)),
        ensures
            where_added(*old(self), *r, Where { value: condition, ops }),
            *final(self) == *final(r),
    {
        if let Some(select_manager) = &mut self.select_manager {
            select_manager.where_(condition, ops);
        } else if let Some(update_manager) = &mut self.update_manager {
            update_manager.where_(condition, ops);
        } else if let Some(delete_manager) = &mut self.delete_manager {
            delete_manager.where_(condition, ops);
        }
        self
    }

    /// Adds the condition `condition`, compared for equality (or membership).
    pub fn where_(&mut self, condition: Json) -> (r: &mut Self)
        requires
            has_condition_target(*old(self)),
        ensures
            where_added(
                *old(self),
                *r,
                Where { value: condition, ops: Ops { join_type: JoinType::And, is_not: false, is_between: false } },
            ),
            *final(self) == *final(r),
    {
        self.where_statement(condition, Ops::new(JoinType::And, false, false))
    }

    /// Adds the condition `condition`; the same as `where_`.
    pub fn where_prepare(&mut self, condition: Json) -> (r: &mut Self)
        requires
            has_condition_target(*old(self)),
        ensures
            where_added(
                *old(self),
                *r,
                Where { value: condition, ops: Ops { join_type: JoinType::And, is_not: false, is_between: false } },
            ),
            *final(self) == *final(r),
    {
        self.where_statement(condition, Ops::new(JoinType::And, false, false))
    }

    /// Adds the negated condition `condition`.
    pub fn where_not(&mut self, condition: Json) -> (r: &mut Self)
        requires
            has_condition_target(*old(self)),
        ensures
            where_added(
                *old(self),
                *r,
                Where { value: condition, ops: Ops { join_type: JoinType::And, is_not: true, is_between: false } },
            ),
            *final(self) == *final(r),
    {
        self.where_statement(condition, Ops::new(JoinType::And, true, false))
    }

    /// Adds the condition that columns lie between the bounds in `condition`.
    pub fn where_between(&mut self, condition: Json) -> (r: &mut Self)
        requires
            has_condition_target(*old(self)),
        ensures
            where_added(
                *old(self),
                *r,
                Where { value: condition, ops: Ops { join_type: JoinType::And, is_not: false, is_between: true } },
            ),
            *final(self) == *final(r),
    {
        self.where_statement(condition, Ops::new(JoinType::And, false, true))
    }

    /// Adds the condition that columns lie outside the bounds in `condition`.
    pub fn where_not_between(&mut self, condition: Json) -> (r: &mut Self)
        requires
            has_condition_target(*old(self)),
        ensures
            where_added(
                *old(self),
                *r,
                Where { value: condition, ops: Ops { join_type: JoinType::And, is_not: true, is_between: true } },
            ),
            *final(self) == *final(r),
    {
        self.where_statement(condition, Ops::new(JoinType::And, true, true))
    }

    /// Adds the conditions of `condition`, joined by `OR`.
    pub fn where_or(&mut self, condition: Json) -> (r: &mut Self)
        requires
            has_condition_target(*old(self)),
        ensures
            where_added(
                *old(self),
                *r,
                Where { value: condition, ops: Ops { join_type: JoinType::Or, is_not: false, is_between: false } },
            ),
            *final(self) == *final(r),
    {
        self.where_statement(condition, Ops::new(JoinType::Or, false, false))
    }

    /// Adds the negated conditions of `condition`, joined by `OR`.
    pub fn where_or_not(&mut self, condition: Json) -> (r: &mut Self)
        requires
            has_condition_target(*old(self)),
        ensures
            where_added(
                *old(self),
                *r,
                Where { value: condition, ops: Ops { join_type: JoinType::Or, is_not: true, is_between: false } },
            ),
            *final(self) == *final(r),
    {
        self.where_statement(condition, Ops::new(JoinType::Or, true, false))
    }

    /// Adds the range conditions of `condition`, joined by `OR`.
    pub fn where_or_between(&mut self, condition: Json) -> (r: &mut Self)
        requires
            has_condition_target(*old(self)),
        ensures
            where_added(
                *old(self),
                *r,
                Where { value: condition, ops: Ops { join_type: JoinType::Or, is_not: false, is_between: true } },
            ),
            *final(self) == *final(r),
    {
        self.where_statement(condition, Ops::new(JoinType::Or, false, true))
    }

    /// Adds the negated range conditions of `condition`, joined by `OR`.
    pub fn where_or_not_between(&mut self, condition: Json) -> (r: &mut Self)
        requires
            has_condition_target(*old(self)),
        ensures
            where_added(
                *old(self),
                *r,
                Where { value: condition, ops: Ops { join_type: JoinType::Or, is_not: true, is_between: true } },
            ),
            *final(self) == *final(r),
    {
        self.where_statement(condition, Ops::new(JoinType::Or, true, true))
    }

    /// Adds the condition that the column `column_name` lies in the range from `start`
    /// to `end` (see `range_sql`).
    pub fn where_range(&mut self, column_name: &str, start: &RangeBound, end: &RangeBound) -> (r:
        &mut Self)
        requires
            has_condition_target(*old(self)),
            range_sql(spec_table_column_name(old(self).model.dialect, old(self).model.table_name@, column_name@), start@, end@) is Ok,
        ensures
            range_where_added(
                *old(self),
                *r,
                range_sql(spec_table_column_name(old(self).model.dialect, old(self).model.table_name@, column_name@), start@, end@)->Ok_0,
            ),
            *final(self) == *final(r),
    {
        let table_column_name = table_column_name(&self.model, column_name);
        let raw_sql = match help_range_to_sql(table_column_name.as_str(), start, end) {
            Ok(raw_sql) => raw_sql,
            Err(_) => {
                assert(false);
                String::new()
            },
        };
        let value = Json::String(raw_sql);
        let ghost w = Where { value, ops: range_ops() };
        let r = self.where_statement(value, Ops::new(JoinType::And, false, true));
        assert(where_added(*old(self), *r, w));
        r
    }

    /// Adds the group condition `condition` with `ops` to the select.
    pub fn having_statement(&mut self, condition: Json, ops: Ops) -> (r: &mut Self)
        requires
            old(self).select_manager is Some,
        ensures
            *r == with_select(*old(self), select_of(*r)),
            having_pushed(select_of(*old(self)), select_of(*r), Where { value: condition, ops }),
            *final(self) == *final(r),
    {
        if let Some(select_manager) = &mut self.select_manager {
            select_manager.having(condition, ops);
        }
        self
    }

    /// Adds the group condition `condition`.
    pub fn having(&mut self, condition: Json) -> (r: &mut Self)
        requires
            old(self).select_manager is Some,
        ensures
            *r == with_select(*old(self), select_of(*r)),
            having_pushed(
                select_of(*old(self)),
                select_of(*r),
                Where { value: condition, ops: Ops { join_type: JoinType::And, is_not: false, is_between: false } },
            ),
            *final(self) == *final(r),
    {
        self.having_statement(condition, Ops::new(JoinType::And, false, false))
    }

    /// Adds the negated group condition `condition`.
    pub fn having_not(&mut self, condition: Json) -> (r: &mut Self)
        requires
            old(self).select_manager is Some,
        ensures
            *r == with_select(*old(self), select_of(*r)),
            having_pushed(
                select_of(*old(self)),
                select_of(*r),
                Where { value: condition, ops: Ops { join_type: JoinType::And, is_not: true, is_between: false } },
            ),
            *final(self) == *final(r),
    {
        self.having_statement(condition, Ops::new(JoinType::And, true, false))
    }

    /// Adds the group condition that columns lie between the bounds in `condition`.
    pub fn having_between(&mut self, condition: Json) -> (r: &mut Self)
        requires
            old(self).select_manager is Some,
        ensures
            *r == with_select(*old(self), select_of(*r)),
            having_pushed(
                select_of(*old(self)),
                select_of(*r),
                Where { value: condition, ops: Ops { join_type: JoinType::And, is_not: false, is_between: true } },
            ),
            *final(self) == *final(r),
    {
        self.having_statement(condition, Ops::new(JoinType::And, false, true))
    }

    /// Adds the group condition that columns lie outside the bounds in `condition`.
    pub fn having_not_between(&mut self, condition: Json) -> (r: &mut Self)
        requires
            old(self).select_manager is Some,
        ensures
            *r == with_select(*old(self), select_of(*r)),
            having_pushed(
                select_of(*old(self)),
                select_of(*r),
                Where { value: condition, ops: Ops { join_type: JoinType::And, is_not: true, is_between: true } },
            ),
            *final(self) == *final(r),
    {
        self.having_statement(condition, Ops::new(JoinType::And, true, true))
    }

    /// Adds the group conditions of `condition`, joined by `OR`.
    pub fn having_or(&mut self, condition: Json) -> (r: &mut Self)
        requires
            old(self).select_manager is Some,
        ensures
            *r == with_select(*old(self), select_of(*r)),
            having_pushed(
                select_of(*old(self)),
                select_of(*r),
                Where { value: condition, ops: Ops { join_type: JoinType::Or, is_not: false, is_between: false } },
            ),
            *final(self) == *final(r),
    {
        self.having_statement(condition, Ops::new(JoinType::Or, false, false))
    }

    /// Adds the negated group conditions of `condition`, joined by `OR`.
    pub fn having_or_not(&mut self, condition: Json) -> (r: &mut Self)
        requires
            old(self).select_manager is Some,
        ensures
            *r == with_select(*old(self), select_of(*r)),
            having_pushed(
                select_of(*old(self)),
                select_of(*r),
                Where { value: condition, ops: Ops { join_type: JoinType::Or, is_not: true, is_between: false } },
            ),
            *final(self) == *final(r),
    {
        self.having_statement(condition, Ops::new(JoinType::Or, true, false))
    }

    /// Adds the group conditions of `condition`, joined by `OR` (compared, not ranged).
    pub fn having_or_between(&mut self, condition: Json) -> (r: &mut Self)
        requires
            old(self).select_manager is Some,
        ensures
            *r == with_select(*old(self), select_of(*r)),
            having_pushed(
                select_of(*old(self)),
                select_of(*r),
                Where { value: condition, ops: Ops { join_type: JoinType::Or, is_not: false, is_between: false } },
            ),
            *final(self) == *final(r),
    {
        self.having_statement(condition, Ops::new(JoinType::Or, false, false))
    }

    /// Adds the negated range group conditions of `condition`, joined by `OR`.
    pub fn having_or_not_between(&mut self, condition: Json) -> (r: &mut Self)
        requires
            old(self).select_manager is Some,
        ensures
            *r == with_select(*old(self), select_of(*r)),
            having_pushed(
                select_of(*old(self)),
                select_of(*r),
                Where { value: condition, ops: Ops { join_type: JoinType::Or, is_not: true, is_between: true } },
            ),
            *final(self) == *final(r),
    {
        self.having_statement(condition, Ops::new(JoinType::Or, true, true))
    }

    /// Projects `condition`.
    pub fn select(&mut self, condition: Json) -> (r: &mut Self)
        requires
            old(self).select_manager is Some,
        ensures
            *r == with_select(*old(self), with_select_value(select_of(*old(self)), condition)),
            *final(self) == *final(r),
    {
        if let Some(select_manager) = &mut self.select_manager {
            select_manager.select(condition);
        }
        self
    }

    /// Counts the projection.
    pub fn count(&mut self) -> (r: &mut Self)
        requires
            old(self).select_manager is Some,
        ensures
            *r == with_select(*old(self), with_op(select_of(*old(self)), Some(crate::statements::select::Op::Count))),
            *final(self) == *final(r),
    {
        if let Some(select_manager) = &mut self.select_manager {
            select_manager.count();
        }
        self
    }

    /// Makes the projection distinct.
    pub fn distinct(&mut self) -> (r: &mut Self)
        requires
            old(self).select_manager is Some,
        ensures
            *r == with_select(*old(self), with_distinct(select_of(*old(self)))),
            *final(self) == *final(r),
    {
        if let Some(select_manager) = &mut self.select_manager {
            select_manager.distinct();
        }
        self
    }

    /// Joins `condition`, in place of any earlier join.
    pub fn joins(&mut self, condition: Json) -> (r: &mut Self)
        requires
            old(self).select_manager is Some,
        ensures
            *r == with_select(*old(self), with_join(select_of(*old(self)), condition)),
            *final(self) == *final(r),
    {
        if let Some(select_manager) = &mut self.select_manager {
            select_manager.joins(condition);
        }
        self
    }

    /// Sums the column `column_name`.
    pub fn sum(&mut self, column_name: &str) -> (r: &mut Self)
        requires
            old(self).select_manager is Some,
        ensures
            select_of(*r).ast.core.select.op matches Some(crate::statements::select::Op::Sum(c)) && c@ == column_name@,
            *r == with_select(*old(self), with_op(select_of(*old(self)), select_of(*r).ast.core.select.op)),
            *final(self) == *final(r),
    {
        if let Some(select_manager) = &mut self.select_manager {
            select_manager.sum(column_name);
        }
        self
    }

    /// Averages the column `column_name`.
    pub fn avg(&mut self, column_name: &str) -> (r: &mut Self)
        requires
            old(self).select_manager is Some,
        ensures
            select_of(*r).ast.core.select.op matches Some(crate::statements::select::Op::Avg(c)) && c@ == column_name@,
            *r == with_select(*old(self), with_op(select_of(*old(self)), select_of(*r).ast.core.select.op)),
            *final(self) == *final(r),
    {
        if let Some(select_manager) = &mut self.select_manager {
            select_manager.avg(column_name);
        }
        self
    }

    /// The least value of the column `column_name`.
    pub fn min(&mut self, column_name: &str) -> (r: &mut Self)
        requires
            old(self).select_manager is Some,
        ensures
            select_of(*r).ast.core.select.op matches Some(crate::statements::select::Op::Min(c)) && c@ == column_name@,
            *r == with_select(*old(self), with_op(select_of(*old(self)), select_of(*r).ast.core.select.op)),
            *final(self) == *final(r),
    {
        if let Some(select_manager) = &mut self.select_manager {
            select_manager.min(column_name);
        }
        self
    }

    /// The greatest value of the column `column_name`.
    pub fn max(&mut self, column_name: &str) -> (r: &mut Self)
        requires
            old(self).select_manager is Some,
        ensures
            select_of(*r).ast.core.select.op matches Some(crate::statements::select::Op::Max(c)) && c@ == column_name@,
            *r == with_select(*old(self), with_op(select_of(*old(self)), select_of(*r).ast.core.select.op)),
            *final(self) == *final(r),
    {
        if let Some(select_manager) = &mut self.select_manager {
            select_manager.max(column_name);
        }
        self
    }

    /// Adds the group condition that the column `column_name` lies in the range from
    /// `start` to `end` (see `range_sql`).
    pub fn having_range(&mut self, column_name: &str, start: &RangeBound, end: &RangeBound) -> (r:
        &mut Self)
        requires
            old(self).select_manager is Some,
            range_sql(spec_table_column_name(old(self).model.dialect, old(self).model.table_name@, column_name@), start@, end@) is Ok,
        ensures
            range_having_added(
                *old(self),
                *r,
                range_sql(spec_table_column_name(old(self).model.dialect, old(self).model.table_name@, column_name@), start@, end@)->Ok_0,
            ),
            *final(self) == *final(r),
    {
        let table_column_name = table_column_name(&self.model, column_name);
        let raw_sql = match help_range_to_sql(table_column_name.as_str(), start, end) {
            Ok(raw_sql) => raw_sql,
            Err(_) => {
                assert(false);
                String::new()
            },
        };
        let value = Json::String(raw_sql);
        let ghost w = Where { value, ops: range_ops() };
        let r = self.having_statement(value, Ops::new(JoinType::And, false, true));
        assert(having_pushed(select_of(*old(self)), select_of(*r), w));
        r
    }

    /// Starts a select of all columns, where there is none.
    pub fn with_select_manager(&mut self) -> (r: &mut Self)
        ensures
            old(self).select_manager is Some ==> *r == *old(self),
            old(self).select_manager is None ==> {
                &&& *r == with_select(*old(self), select_of(*r))
                &&& is_initial_core(select_of(*r).ast.core)
                &&& select_of(*r).ast.orders@.len() == 0
                &&& select_of(*r).ast.limit is None
                &&& select_of(*r).ast.offset is None
                &&& select_of(*r).ast.lock is None
            },
            *final(self) == *final(r),
    {
        if self.select_manager.is_none() {
            self.select_manager = Some(SelectManager::new());
        }
        self
    }

    /// Locks the selected rows (`FOR UPDATE`); SQLite has no such lock, and there this
    /// does nothing.
    pub fn lock(&mut self) -> (r: &mut Self)
        requires
            old(self).model.dialect != Dialect::Sqlite ==> old(self).select_manager is Some,
        ensures
            old(self).model.dialect == Dialect::Sqlite ==> *r == *old(self),
            old(self).model.dialect != Dialect::Sqlite ==> {
                &&& *r == with_select(*old(self), with_lock(select_of(*old(self)), select_of(*r).ast.lock->Some_0.value))
                &&& select_of(*r).ast.lock matches Some(l) && l.value@ == JsonV::Str("FOR UPDATE"@)
            },
            *final(self) == *final(r),
    {
        if self.model.dialect != Dialect::Sqlite {
            if let Some(select_manager) = &mut self.select_manager {
                select_manager.lock(Json::from_str("FOR UPDATE"));
            }
        }
        self
    }

    /// Adds the grouping `condition`.
    pub fn group(&mut self, condition: Json) -> (r: &mut Self)
        requires
            old(self).select_manager is Some,
        ensures
            *r == with_select(*old(self), select_of(*r)),
            group_pushed(select_of(*old(self)), select_of(*r), Group { value: condition }),
            *final(self) == *final(r),
    {
        if let Some(select_manager) = &mut self.select_manager {
            select_manager.group(condition);
        }
        self
    }

    /// Adds the ordering `condition` to the select, else the update, else the delete.
    pub fn order(&mut self, condition: Json) -> (r: &mut Self)
        requires
            has_condition_target(*old(self)),
        ensures
            order_added(*old(self), *r, Order { value: condition }),
            *final(self) == *final(r),
    {
        if let Some(select_manager) = &mut self.select_manager {
            select_manager.order(condition);
        } else if let Some(update_manager) = &mut self.update_manager {
            update_manager.order(condition);
        } else if let Some(delete_manager) = &mut self.delete_manager {
            delete_manager.order(condition);
        }
        self
    }

    /// Orders the rows of the select, else the update, else the delete, by the primary
    /// key, from the last.
    pub fn order_by_primary_key_desc(&mut self) -> (r: &mut Self)
        requires
            has_condition_target(*old(self)),
        ensures
            exists|o: Order|
                #![trigger order_added(*old(self), *r, o)]
                order_added(*old(self), *r, o) && o.value@ == JsonV::Object(
                    seq![(old(self).model.primary_key@, JsonV::Str("DESC"@))],
                ),
            *final(self) == *final(r),
    {
        let mut entries: Vec<(String, Json)> = Vec::new();
        entries.push((self.model.primary_key.clone(), Json::from_str("DESC")));
        proof {
            crate::json::lemma_object_view(entries);
            assert(crate::json::entries_view(entries@) =~= seq![
                (self.model.primary_key@, JsonV::Str("DESC"@)),
            ]);
        }
        let value = Json::Object(entries);
        let ghost o = Order { value };
        let r = self.order(value);
        assert(order_added(*old(self), *r, o));
        r
    }

    /// Limits the rows of the select, else the update, else the delete, to `condition`.
    pub fn limit(&mut self, condition: usize) -> (r: &mut Self)
        requires
            has_condition_target(*old(self)),
        ensures
            *r == with_table_limit(*old(self), condition),
            *final(self) == *final(r),
    {
        if let Some(select_manager) = &mut self.select_manager {
            select_manager.limit(condition);
        } else if let Some(update_manager) = &mut self.update_manager {
            update_manager.limit(condition);
        } else if let Some(delete_manager) = &mut self.delete_manager {
            delete_manager.limit(condition);
        }
        self
    }

    /// Skips the first `condition` rows of the select, else the update, else the delete.
    pub fn offset(&mut self, condition: usize) -> (r: &mut Self)
        requires
            has_condition_target(*old(self)),
        ensures
            *r == with_table_offset(*old(self), condition),
            *final(self) == *final(r),
    {
        if let Some(select_manager) = &mut self.select_manager {
            select_manager.offset(condition);
        } else if let Some(update_manager) = &mut self.update_manager {
            update_manager.offset(condition);
        } else if let Some(delete_manager) = &mut self.delete_manager {
            delete_manager.offset(condition);
        }
        self
    }

    /// The page `page` (counted from 1) of `page_size` rows: that many rows, after the
    /// rows of the pages before it.
    pub fn paginate(&mut self, page: usize, page_size: usize) -> (r: &mut Self)
        requires
            has_condition_target(*old(self)),
            page >= 1,
            (page - 1) * page_size <= usize::MAX,
        ensures
            *r == with_table_offset(with_table_limit(*old(self), page_size), ((page - 1) * page_size) as usize),
            *final(self) == *final(r),
    {
        let offset = (page - 1) * page_size;
        self.limit(page_size);
        self.offset(offset);
        self
    }

    /// Starts an update without assignments, where there is none.
    pub fn with_update_manager(&mut self) -> (r: &mut Self)
        ensures
            old(self).update_manager is Some ==> *r == *old(self),
            old(self).update_manager is None ==> {
                &&& *r == (Table { update_manager: r.update_manager, ..*old(self) })
                &&& r.update_manager matches Some(um) && um.ast.update is None && um.ast.wheres@.len() == 0
                    && um.ast.orders@.len() == 0 && um.ast.limit is None && um.ast.offset is None
            },
            *final(self) == *final(r),
    {
        if self.update_manager.is_none() {
            self.update_manager = Some(UpdateManager::default());
        }
        self
    }

    /// Assigns `condition` in the update, started where there is none.
    pub fn update_all(&mut self, condition: Json) -> (r: &mut Self)
        ensures
            *r == (Table { update_manager: r.update_manager, ..*old(self) }),
            r.update_manager is Some,
            update_of(*r).ast.update == Some(Update { value: condition }),
            old(self).update_manager is Some ==> update_of(*r).ast == (UpdateStatement {
                update: update_of(*r).ast.update,
                ..update_of(*old(self)).ast
            }),
            old(self).update_manager is None ==> update_of(*r).ast.wheres@.len() == 0
                && update_of(*r).ast.orders@.len() == 0 && update_of(*r).ast.limit is None
                && update_of(*r).ast.offset is None,
            *final(self) == *final(r),
    {
        self.with_update_manager();
        if let Some(update_manager) = &mut self.update_manager {
            update_manager.update(condition);
        }
        self
    }

    /// Adds `by` to the column `column_name` in the update, started where there is none.
    pub fn increment(&mut self, column_name: &str, by: isize) -> (r: &mut Self)
        requires
            by != isize::MIN,
        ensures
            *r == (Table { update_manager: r.update_manager, ..*old(self) }),
            r.update_manager is Some,
            update_of(*r).ast.update matches Some(u) && u.value@ == JsonV::Str(
                increment_sql(old(self).model, column_name@, by as int),
            ),
            old(self).update_manager is Some ==> update_of(*r).ast == (UpdateStatement {
                update: update_of(*r).ast.update,
                ..update_of(*old(self)).ast
            }),
            old(self).update_manager is None ==> update_of(*r).ast.wheres@.len() == 0
                && update_of(*r).ast.orders@.len() == 0 && update_of(*r).ast.limit is None
                && update_of(*r).ast.offset is None,
            *final(self) == *final(r),
    {
        self.with_update_manager();
        if let Some(update_manager) = &mut self.update_manager {
            update_manager.increment(&self.model, column_name, by);
        }
        self
    }

    /// Subtracts `by` from the column `column_name` in the update, started where there is
    /// none.
    pub fn decrement(&mut self, column_name: &str, by: isize) -> (r: &mut Self)
        requires
            by != isize::MIN,
        ensures
            *r == (Table { update_manager: r.update_manager, ..*old(self) }),
            r.update_manager is Some,
            update_of(*r).ast.update matches Some(u) && u.value@ == JsonV::Str(
                increment_sql(old(self).model, column_name@, -by),
            ),
            old(self).update_manager is Some ==> update_of(*r).ast == (UpdateStatement {
                update: update_of(*r).ast.update,
                ..update_of(*old(self)).ast
            }),
            old(self).update_manager is None ==> update_of(*r).ast.wheres@.len() == 0
                && update_of(*r).ast.orders@.len() == 0 && update_of(*r).ast.limit is None
                && update_of(*r).ast.offset is None,
            *final(self) == *final(r),
    {
        self.with_update_manager();
        if let Some(update_manager) = &mut self.update_manager {
            update_manager.decrement(&self.model, column_name, by);
        }
        self
    }

    /// Starts an insert without row, where there is none.
    pub fn with_insert_manager(&mut self) -> (r: &mut Self)
        ensures
            old(self).insert_manager is Some ==> *r == *old(self),
            old(self).insert_manager is None ==> {
                &&& *r == (Table { insert_manager: r.insert_manager, ..*old(self) })
                &&& r.insert_manager matches Some(im) && im.ast.insert is None
            },
            *final(self) == *final(r),
    {
        if self.insert_manager.is_none() {
            self.insert_manager = Some(InsertManager::default());
        }
        self
    }

    /// Inserts the row `condition`, in an insert started where there is none.
    pub fn create(&mut self, condition: Json) -> (r: &mut Self)
        ensures
            *r == (Table {
                insert_manager: Some(InsertManager { ast: insert_manager::InsertStatement { insert: Some(Insert { value: condition }) } }),
                ..*old(self)
            }),
            *final(self) == *final(r),
    {
        self.with_insert_manager();
        if let Some(insert_manager) = &mut self.insert_manager {
            insert_manager.insert(condition);
        }
        self
    }

    /// Starts a delete without conditions, where there is none.
    pub fn with_delete_manager(&mut self) -> (r: &mut Self)
        ensures
            old(self).delete_manager is Some ==> *r == *old(self),
            old(self).delete_manager is None ==> {
                &&& *r == (Table { delete_manager: r.delete_manager, ..*old(self) })
                &&& r.delete_manager matches Some(dm) && dm.ast.wheres@.len() == 0 && dm.ast.orders@.len() == 0
                    && dm.ast.limit is None && dm.ast.offset is None
            },
            *final(self) == *final(r),
    {
        if self.delete_manager.is_none() {
            self.delete_manager = Some(DeleteManager::default());
        }
        self
    }

    /// Starts a delete, where there is none, and adds the condition `condition` (to the
    /// select where there is one, else to the update, else to the delete).
    pub fn delete_all(&mut self, condition: Json) -> (r: &mut Self)
        ensures
            r.delete_manager is Some,
            exists|t: Table|
                #![trigger where_added(t, *r, Where { value: condition, ops: Ops::where_ops() })]
                t == (Table { delete_manager: t.delete_manager, ..*old(self) })
                && (old(self).delete_manager is Some ==> t == *old(self))
                && (old(self).delete_manager is None ==> (t.delete_manager matches Some(dm) && dm.ast.wheres@.len() == 0
                    && dm.ast.orders@.len() == 0 && dm.ast.limit is None && dm.ast.offset is None))
                && where_added(t, *r, Where { value: condition, ops: Ops::where_ops() }),
            *final(self) == *final(r),
    {
        self.with_delete_manager();
        let ghost t = *self;
        let r = self.where_(condition);
        assert(where_added(t, *r, Where { value: condition, ops: Ops::where_ops() }));
        r
    }

    /// The SQL of the table's statement (see `table_sql`); an update or delete restricted
    /// to the rows of a select first makes that select project the primary key.
    pub fn to_sql(&mut self) -> (r: Result<Sql, ArelError>)
        ensures
            projects_pk_after(*old(self), *final(self)),
            sql_result(r) == table_sql(*old(self)),
    {
        let mut collector = Sql::default();
        if self.insert_manager.is_none() && (self.update_manager.is_some() || self.delete_manager.is_some()) {
            if let Some(select_manager) = &mut self.select_manager {
                let mut columns: Vec<Json> = Vec::new();
                columns.push(Json::String(self.model.primary_key.clone()));
                proof {
                    lemma_array_view(columns);
                    assert(jsons_view(columns@) =~= seq![JsonV::Str(self.model.primary_key@)]);
                }
                let ghost before = *select_manager;
                select_manager.select(Json::Array(columns));
                proof {
                    lemma_select_sql_ignores_value(
                        self.model,
                        before,
                        select_manager.ast.core.select.value,
                        pk_projection(self.model),
                    );
                }
            }
        }
        let for_select_manager: Option<&SelectManager> = match &self.select_manager {
            Some(select_manager) => Some(select_manager),
            None => None,
        };
        if let Some(insert_manager) = &self.insert_manager {
            accept_insert_manager(insert_manager, &self.model, &mut collector)?;
        } else if let Some(update_manager) = &self.update_manager {
            accept_update_manager(update_manager, for_select_manager, &self.model, &mut collector)?;
        } else if let Some(delete_manager) = &self.delete_manager {
            accept_delete_manager(delete_manager, for_select_manager, &self.model, &mut collector)?;
        } else if let Some(select_manager) = &self.select_manager {
            accept_select_manager(select_manager, &self.model, &mut collector)?;
        } else {
            return Err(ArelError::NoManager);
        }
        proof {
            if table_sql(*old(self)) is Ok {
                crate::statements::lemma_append_empty(table_sql(*old(self))->Ok_0);
            }
        }
        Ok(collector)
    }

    /// The SQL of the table's statement, with its prepared values written in.
    pub fn to_sql_string(&mut self) -> (r: Result<String, ArelError>)
        requires
            renders(table_sql(*old(self))),
        ensures
            projects_pk_after(*old(self), *final(self)),
            str_result(r) == rendered(table_sql(*old(self))),
    {
        let sql = self.to_sql()?;
        sql.to_sql_string()
    }

    /// The SQL of the table's statement with its prepared values written in, where
    /// rendering does not run out of values (see `placeholders_fit`); none where it would.
    pub fn try_to_sql_string(&mut self) -> (r: Option<Result<String, ArelError>>)
        ensures
            projects_pk_after(*old(self), *final(self)),
            match table_sql(*old(self)) {
                Err(e) => r == Some(Err::<String, ArelError>(e)),
                Ok(s) => if placeholders_fit(s) {
                    r matches Some(x) && str_result(x) == sql_render(s)
                } else {
                    r is None
                },
            },
    {
        match self.to_sql() {
            Err(e) => Some(Err(e)),
            Ok(sql) => {
                if sql.fits_placeholders(false) {
                    Some(sql.to_sql_string())
                } else {
                    None
                }
            },
        }
    }

    /// The name of the model's table.
    pub fn table_name(&self) -> (r: String)
        ensures
            r@ == self.model.table_name@,
    {
        self.model.table_name.clone()
    }
}

/// A table of `m` without statements.
pub open spec fn empty_table(m: Model) -> Table {
    Table { model: m, select_manager: None, insert_manager: None, update_manager: None, delete_manager: None }
}

/// `sm` selects all columns of its table, without join, condition, grouping, ordering,
/// limit or offset, and without lock where `locked` is not set, else with `FOR UPDATE`.
pub open spec fn is_plain_select(sm: SelectManager, locked: bool) -> bool {
    &&& is_initial_core(sm.ast.core)
    &&& sm.ast.orders@.len() == 0
    &&& sm.ast.limit is None
    &&& sm.ast.offset is None
    &&& if locked {
        sm.ast.lock matches Some(l) && l.value@ == JsonV::Str("FOR UPDATE"@)
    } else {
        sm.ast.lock is None
    }
}

impl Model {
    /// A table of this model without statements.
    pub fn table(&self) -> (r: Table)
        ensures
            r == empty_table(*self),
    {
        Table::new(self.copy())
    }

    /// A select of all columns of this model's table.
    pub fn query(&self) -> (r: Table)
        ensures
            r == with_select(empty_table(*self), select_of(r)),
            is_plain_select(select_of(r), false),
    {
        let mut table = self.table();
        table.with_select_manager();
        table
    }

    /// A select of all columns of this model's table that locks the rows it reads
    /// (`FOR UPDATE`), except in SQLite, which has no such lock.
    pub fn lock(&self) -> (r: Table)
        ensures
            r == with_select(empty_table(*self), select_of(r)),
            is_plain_select(select_of(r), self.dialect != Dialect::Sqlite),
    {
        let mut table = self.query();
        table.lock();
        table
    }

    /// An insert of the row `condition` into this model's table.
    pub fn create(&self, condition: Json) -> (r: Table)
        ensures
            r == (Table {
                insert_manager: Some(
                    InsertManager { ast: insert_manager::InsertStatement { insert: Some(Insert { value: condition }) } },
                ),
                ..empty_table(*self)
            }),
    {
        let mut table = self.table();
        table.with_insert_manager().create(condition);
        table
    }

    /// An update of all rows of this model's table with the assignments `condition`.
    pub fn update_all(&self, condition: Json) -> (r: Table)
        ensures
            r == (Table { update_manager: r.update_manager, ..empty_table(*self) }),
            r.update_manager matches Some(um) && um.ast.update == Some(Update { value: condition })
                && um.ast.wheres@.len() == 0 && um.ast.orders@.len() == 0 && um.ast.limit is None
                && um.ast.offset is None,
    {
        let mut table = self.table();
        table.with_update_manager().update_all(condition);
        table
    }

    /// A delete of the rows of this model's table that meet the condition `condition`.
    pub fn delete_all(&self, condition: Json) -> (r: Table)
        ensures
            r == (Table { delete_manager: r.delete_manager, ..empty_table(*self) }),
            r.delete_manager matches Some(dm) && dm.ast.wheres@ == seq![Where { value: condition, ops: Ops::where_ops() }]
                && dm.ast.orders@.len() == 0 && dm.ast.limit is None && dm.ast.offset is None,
    {
        let mut table = self.table();
        table.with_delete_manager().where_(condition);
        table
    }
}

} // verus!
