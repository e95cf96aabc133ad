use vstd::prelude::*;
use crate::json::Json;
use crate::statements::select::{Select, Op};
use crate::statements::where_clause::{Where, Ops};
use crate::statements::group::Group;
use crate::statements::order::Order;
use crate::statements::limit::Limit;
use crate::statements::offset::Offset;
use crate::statements::lock::Lock;
use crate::statements::join::Join;

pub mod select_statement;
use select_statement::SelectStatement;
use select_statement::select_core::{SelectCore, JoinSource, is_initial_core};

verus! {

/// Builds a `SELECT` statement.
#[derive(Debug)]
pub struct SelectManager {
    pub ast: SelectStatement,
}

/// `b` is `a` with only the core changed, to `core`.
pub open spec fn with_core(a: SelectManager, core: SelectCore) -> SelectManager {
    SelectManager { ast: SelectStatement { core, ..a.ast } }
}

/// `a` with its projection's columns replaced by `value`.
pub open spec fn with_select_value(a: SelectManager, value: Json) -> SelectManager {
    with_core(a, SelectCore { select: Select { value, ..a.ast.core.select }, ..a.ast.core })
}

/// `a` with its aggregate replaced by `op`.
pub open spec fn with_op(a: SelectManager, op: Option<Op>) -> SelectManager {
    with_core(a, SelectCore { select: Select { op, ..a.ast.core.select }, ..a.ast.core })
}

/// `a` with a distinct projection.
pub open spec fn with_distinct(a: SelectManager) -> SelectManager {
    with_core(a, SelectCore { select: Select { distinct: true, ..a.ast.core.select }, ..a.ast.core })
}

/// `a` with its join replaced by `condition`.
pub open spec fn with_join(a: SelectManager, condition: Json) -> SelectManager {
    with_core(a, SelectCore { join_source: Some(JoinSource { join: Join { value: condition } }), ..a.ast.core })
}

/// `b` is `a` with the condition `w` added.
pub open spec fn where_pushed(a: SelectManager, b: SelectManager, w: Where) -> bool {
    &&& b == with_core(a, SelectCore { wheres: b.ast.core.wheres, ..a.ast.core })
    &&& b.ast.core.wheres@ == a.ast.core.wheres@.push(w)
}

/// `b` is `a` with the grouping `g` added.
pub open spec fn group_pushed(a: SelectManager, b: SelectManager, g: Group) -> bool {
    &&& b == with_core(a, SelectCore { groups: b.ast.core.groups, ..a.ast.core })
    &&& b.ast.core.groups@ == a.ast.core.groups@.push(g)
}

/// `b` is `a` with the group condition `h` added.
pub open spec fn having_pushed(a: SelectManager, b: SelectManager, h: Where) -> bool {
    &&& b == with_core(a, SelectCore { havings: b.ast.core.havings, ..a.ast.core })
    &&& b.ast.core.havings@ == a.ast.core.havings@.push(h)
}

/// `b` is `a` with the ordering `o` added.
pub open spec fn order_pushed(a: SelectManager, b: SelectManager, o: Order) -> bool {
    &&& b == (SelectManager { ast: SelectStatement { orders: b.ast.orders, ..a.ast } })
    &&& b.ast.orders@ == a.ast.orders@.push(o)
}

/// `a` with its limit replaced by `n`.
pub open spec fn with_limit(a: SelectManager, n: usize) -> SelectManager {
    SelectManager { ast: SelectStatement { limit: Some(Limit { value: n }), ..a.ast } }
}

/// `a` with its offset replaced by `n`.
pub open spec fn with_offset(a: SelectManager, n: usize) -> SelectManager {
    SelectManager { ast: SelectStatement { offset: Some(Offset { value: n }), ..a.ast } }
}

/// `a` with its lock replaced by `condition`.
pub open spec fn with_lock(a: SelectManager, condition: Json) -> SelectManager {
    SelectManager { ast: SelectStatement { lock: Some(Lock { value: condition }), ..a.ast } }
}

impl SelectManager {
    /// A select of all columns, with nothing else.
    pub fn new() -> (r: Self)
        ensures
            is_initial_core(r.ast.core),
            r.ast.orders@.len() == 0,
            r.ast.limit is None,
            r.ast.offset is None,
            r.ast.lock is None,
    {
        Self { ast: SelectStatement::new() }
    }

    /// Projects `condition`.
    pub fn select(&mut self, condition: Json) -> (r: &mut Self)
        ensures
            *r == with_select_value(*old(self), condition),
            *final(self) == *final(r),
    {
        self.ast.core.select(condition);
        self
    }

    /// Counts the projection.
    pub fn count(&mut self) -> (r: &mut Self)
        ensures
            *r == with_op(*old(self), Some(Op::Count)),
            *final(self) == *final(r),
    {
        self.ast.core.count();
        self
    }

    /// Sums the column `column_name`.
    pub fn sum(&mut self, column_name: &str) -> (r: &mut Self)
        ensures
            r.ast.core.select.op matches Some(Op::Sum(c)) && c@ == column_name@,
            *r == with_op(*old(self), r.ast.core.select.op),
            *final(self) == *final(r),
    {
        self.ast.core.sum(column_name);
        self
    }

    /// Averages the column `column_name`.
    pub fn avg(&mut self, column_name: &str) -> (r: &mut Self)
        ensures
            r.ast.core.select.op matches Some(Op::Avg(c)) && c@ == column_name@,
            *r == with_op(*old(self), r.ast.core.select.op),
            *final(self) == *final(r),
    {
        self.ast.core.avg(column_name);
        self
    }

    /// The least value of the column `column_name`.
    pub fn min(&mut self, column_name: &str) -> (r: &mut Self)
        ensures
            r.ast.core.select.op matches Some(Op::Min(c)) && c@ == column_name@,
            *r == with_op(*old(self), r.ast.core.select.op),
            *final(self) == *final(r),
    {
        self.ast.core.min(column_name);
        self
    }

    /// The greatest value of the column `column_name`.
    pub fn max(&mut self, column_name: &str) -> (r: &mut Self)
        ensures
            r.ast.core.select.op matches Some(Op::Max(c)) && c@ == column_name@,
            *r == with_op(*old(self), r.ast.core.select.op),
            *final(self) == *final(r),
    {
        self.ast.core.max(column_name);
        self
    }

    /// Makes the projection distinct.
    pub fn distinct(&mut self) -> (r: &mut Self)
        ensures
            *r == with_distinct(*old(self)),
            *final(self) == *final(r),
    {
        self.ast.core.distinct();
        self
    }

    /// Joins `condition`, in place of any earlier join.
    pub fn joins(&mut self, condition: Json) -> (r: &mut Self)
        ensures
            *r == with_join(*old(self), condition),
            *final(self) == *final(r),
    {
        self.ast.core.joins(condition);
        self
    }

    /// Adds the condition `condition`.
    pub fn where_(&mut self, condition: Json, ops: Ops) -> (r: &mut Self)
        ensures
            where_pushed(*old(self), *r, Where { value: condition, ops }),
            *final(self) == *final(r),
    {
        self.ast.core.where_(condition, ops);
        self
    }

    /// Adds the grouping `condition`.
    pub fn group(&mut self, condition: Json) -> (r: &mut Self)
        ensures
            group_pushed(*old(self), *r, Group { value: condition }),
            *final(self) == *final(r),
    {
        self.ast.core.group(condition);
        self
    }

    /// Adds the group condition `condition`.
    pub fn having(&mut self, condition: Json, ops: Ops) -> (r: &mut Self)
        ensures
            having_pushed(*old(self), *r, Where { value: condition, ops }),
            *final(self) == *final(r),
    {
        self.ast.core.having(condition, ops);
        self
    }

    /// Adds the ordering `condition`.
    pub fn order(&mut self, condition: Json) -> (r: &mut Self)
        ensures
            order_pushed(*old(self), *r, Order { value: condition }),
            *final(self) == *final(r),
    {
        self.ast.order(condition);
        self
    }

    /// Limits the rows to `condition`.
    pub fn limit(&mut self, condition: usize) -> (r: &mut Self)
        ensures
            *r == with_limit(*old(self), condition),
            *final(self) == *final(r),
    {
        self.ast.limit(condition);
        self
    }

    /// Skips the first `condition` rows.
    pub fn offset(&mut self, condition: usize) -> (r: &mut Self)
        ensures
            *r == with_offset(*old(self), condition),
            *final(self) == *final(r),
    {
        self.ast.offset(condition);
        self
    }

    /// Locks the selected rows as `condition` says.
    pub fn lock(&mut self, condition: Json) -> (r: &mut Self)
        ensures
            *r == with_lock(*old(self), condition),
            *final(self) == *final(r),
    {
        self.ast.lock(condition);
        self
    }
}

} // verus!
