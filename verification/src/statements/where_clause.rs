use vstd::prelude::*;
use crate::error::ArelError;
use crate::json::{Json, JsonV, jsons_view, lemma_array_view, entries_view, lemma_object_view};
use crate::results::{collect, lemma_collect_step, lemma_collect_err_prefix, lemma_collect_ok};
use crate::text::{join, single_quoted, parenthesized, join_strings};
use crate::collectors::Sql;
use crate::collectors::sql::{SqlV, sql_join};
use crate::methods::{Model, spec_table_column_name, table_column_name};
use crate::statements::{
    StatementAble, str_result, sql_result, sqls_view, sqls_result, default_sub_sqls,
    default_to_sub_sqls, to_sql_with_concat, core_value_sql, core_value_sql_string_from_json,
};

verus! {

broadcast use vstd::std_specs::vec::group_vec_axioms;

/// How the conditions of one statement are joined.
#[derive(Debug, Clone, Copy, PartialEq, Eq, Structural)]
pub enum JoinType {
    And,
    Or,
}

/// How a condition statement compares: its join, whether it negates, whether its
/// arrays are ranges.
#[derive(Debug, Clone, Copy, PartialEq, Eq, Structural)]
pub struct Ops {
    pub join_type: JoinType,
    pub is_not: bool,
    pub is_between: bool,
}

impl Ops {
    /// The ops of a plain condition: joined by `AND`, not negated, not a range.
    pub open spec fn where_ops() -> Ops {
        Ops { join_type: JoinType::And, is_not: false, is_between: false }
    }

    pub fn new(join_type: JoinType, is_not: bool, is_between: bool) -> (r: Self)
        ensures
            r == (Ops { join_type, is_not, is_between }),
    {
        Self { join_type, is_not, is_between }
    }
}

/// A condition of a `WHERE` (or `HAVING`) clause, described by JSON.
#[derive(Debug)]
pub struct Where {
    pub value: Json,
    pub ops: Ops,
}

/// `= ` or, negated, `!= `.
pub open spec fn eq_op(is_not: bool) -> Seq<char> {
    if is_not {
        "!= "@
    } else {
        "= "@
    }
}

/// `value` after the comparison that a condition writes when `with_modifier` is set.
pub open spec fn compared(value: Seq<char>, with_modifier: bool, is_not: bool) -> Seq<char> {
    if with_modifier {
        eq_op(is_not) + value
    } else {
        value
    }
}

/// The SQL of a condition's value. With `with_modifier` a scalar is compared (`=`, or
/// `!=` when negated), null is tested (`IS NULL`, `IS NOT NULL`) and an array is a set
/// (`IN (..)`, `NOT IN (..)`), or, for a range, a pair of bounds (`BETWEEN a AND b`);
/// without it a scalar is its literal and an array its comma separated elements. The
/// elements of an array are rendered without modifier, in order, the first error
/// stopping them; null without modifier, objects, and ranges that are not pairs with
/// modifier are refused.
pub open spec fn where_value_sql(j: JsonV, with_modifier: bool, is_not: bool, is_between: bool) -> Result<
    Seq<char>,
    ArelError,
>
    decreases j,
{
    match j {
        JsonV::Array(items) => match collect(where_items_sql(items, is_not, is_between)) {
            Err(e) => Err(e),
            Ok(vs) => if is_between {
                if items.len() == 2 && with_modifier {
                    Ok(
                        (if is_not {
                            "NOT BETWEEN "@
                        } else {
                            "BETWEEN "@
                        }) + vs[0] + " AND "@ + vs[1],
                    )
                } else {
                    Err(ArelError::BetweenArrayLength)
                }
            } else if with_modifier {
                Ok(
                    (if is_not {
                        "NOT IN ("@
                    } else {
                        "IN ("@
                    }) + join(vs, ", "@) + ")"@,
                )
            } else {
                Ok(join(vs, ", "@))
            },
        },
        JsonV::Str(s) => Ok(compared(single_quoted(s), with_modifier, is_not)),
        JsonV::Number(t) => Ok(compared(t, with_modifier, is_not)),
        JsonV::Bool(b) => Ok(
            compared(
                if b {
                    seq!['1']
                } else {
                    seq!['0']
                },
                with_modifier,
                is_not,
            ),
        ),
        JsonV::Null => if with_modifier {
            if is_not {
                Ok("IS NOT NULL"@)
            } else {
                Ok("IS NULL"@)
            }
        } else {
            Err(ArelError::StatementNotSupported)
        },
        JsonV::Object(_) => Err(ArelError::StatementNotSupported),
    }
}

/// The SQL of each element of an array value, without modifier.
pub open spec fn where_items_sql(items: Seq<JsonV>, is_not: bool, is_between: bool) -> Seq<
    Result<Seq<char>, ArelError>,
>
    decreases items,
{
    Seq::new(
        items.len(),
        |i: int|
            if 0 <= i < items.len() {
                where_value_sql(items[i], false, is_not, is_between)
            } else {
                Err(ArelError::StatementNotSupported)
            },
    )
}

/// The condition on each entry of an object: the column, a space, and the value with
/// modifier.
pub open spec fn where_entries_sql(m: Model, entries: Seq<(Seq<char>, JsonV)>, ops: Ops) -> Seq<
    Result<SqlV, ArelError>,
> {
    Seq::new(
        entries.len(),
        |i: int|
            match where_value_sql(entries[i].1, true, ops.is_not, ops.is_between) {
                Ok(v) => Ok(
                    SqlV {
                        value: spec_table_column_name(m.dialect, m.table_name@, entries[i].0) + " "@ + v,
                        prepare: None,
                    },
                ),
                Err(e) => Err(e),
            },
    )
}

/// The pieces of SQL of a condition: one per entry of an object; for a range, an array
/// `[column, start, end]` gives `column BETWEEN start AND end` (the column rendered as a
/// value, then qualified) and a string is raw SQL; a negated condition accepts nothing
/// else; otherwise the default pieces of the JSON.
pub open spec fn where_sub_sqls(m: Model, j: JsonV, ops: Ops) -> Result<Seq<SqlV>, ArelError> {
    match j {
        JsonV::Object(entries) => collect(where_entries_sql(m, entries, ops)),
        _ => if ops.is_between {
            match j {
                JsonV::Array(a) => if a.len() == 3 {
                    match where_value_sql(a[0], false, ops.is_not, ops.is_between) {
                        Err(e) => Err(e),
                        Ok(column) => match where_value_sql(a[1], false, ops.is_not, ops.is_between) {
                            Err(e) => Err(e),
                            Ok(start) => match where_value_sql(
                                a[2],
                                false,
                                ops.is_not,
                                ops.is_between,
                            ) {
                                Err(e) => Err(e),
                                Ok(end) => Ok(
                                    seq![
                                        SqlV {
                                            value: spec_table_column_name(m.dialect, m.table_name@, column)
                                                + (if ops.is_not {
                                                " NOT BETWEEN "@
                                            } else {
                                                " BETWEEN "@
                                            }) + start + " AND "@ + end,
                                            prepare: None,
                                        },
                                    ],
                                ),
                            },
                        },
                    }
                } else {
                    Err(ArelError::StatementNotSupported)
                },
                JsonV::Str(_) => default_sub_sqls(Some(j)),
                _ => Err(ArelError::StatementNotSupported),
            }
        } else if ops.is_not {
            Err(ArelError::StatementNotSupported)
        } else {
            default_sub_sqls(Some(j))
        },
    }
}

/// The SQL of a condition: its pieces joined by `AND`, or by `OR` and bracketed.
pub open spec fn where_sql(m: Model, j: JsonV, ops: Ops) -> Result<SqlV, ArelError> {
    match where_sub_sqls(m, j, ops) {
        Err(e) => Err(e),
        Ok(subs) => match ops.join_type {
            JoinType::And => Ok(sql_join(subs, " AND "@)),
            JoinType::Or => {
                let s = sql_join(subs, " OR "@);
                Ok(SqlV { value: parenthesized(s.value), prepare: s.prepare })
            },
        },
    }
}

/// Appends `eq_op(is_not)`, when `with_modifier`, then `value`.
fn push_compared(out: &mut String, value: &str, with_modifier: bool, is_not: bool)
    ensures
        final(out)@ == old(out)@ + compared(value@, with_modifier, is_not),
{
    if with_modifier {
        if is_not {
            out.append("!= ");
        } else {
            out.append("= ");
        }
    }
    out.append(value);
    assert(out@ =~= old(out)@ + compared(value@, with_modifier, is_not));
}

/// The SQL of a condition's value (see `where_value_sql`).
pub fn where_value_text(json_value: &Json, with_modifier: bool, is_not: bool, is_between: bool) -> (r:
    Result<String, ArelError>)
    ensures
        str_result(r) == where_value_sql(json_value@, with_modifier, is_not, is_between),
    decreases json_value,
{
    match json_value {
        Json::Array(items) => {
            proof {
                lemma_array_view(*items);
            }
            let ghost rs = where_items_sql(jsons_view(items@), is_not, is_between);
            let mut values: Vec<String> = Vec::new();
            let mut i: usize = 0;
            proof {
                assert(rs.take(0) =~= Seq::<Result<Seq<char>, ArelError>>::empty());
                assert(values@.map_values(|s: String| s@) =~= Seq::<Seq<char>>::empty());
            }
            while i < items.len()
                invariant
                    Json::Array(*items) == *json_value,
                    i <= items.len(),
                    rs == where_items_sql(jsons_view(items@), is_not, is_between),
                    collect(rs.take(i as int)) == Ok::<Seq<Seq<char>>, ArelError>(
                        values@.map_values(|s: String| s@),
                    ),
                decreases items.len() - i,
            {
                proof {
                    assert(decreases_to!(*json_value => json_value->Array_0));
                    lemma_collect_step(rs, i as int);
                }
                let v = where_value_text(&items[i], false, is_not, is_between);
                match v {
                    Ok(s) => {
                        let ghost before = values@;
                        let ghost sv = s@;
                        values.push(s);
                        proof {
                            assert(values@.map_values(|s: String| s@) =~= before.map_values(
                                |s: String| s@,
                            ).push(sv));
                        }
                    },
                    Err(e) => {
                        proof {
                            lemma_collect_err_prefix(rs, i + 1);
                            lemma_array_view(*items);
                        }
                        return Err(e);
                    },
                }
                i = i + 1;
            }
            proof {
                assert(rs.take(items.len() as int) =~= rs);
                lemma_array_view(*items);
                lemma_collect_ok(rs);
            }
            let ghost vs = values@.map_values(|s: String| s@);
            let mut out = String::new();
            if is_between {
                if items.len() == 2 && with_modifier {
                    if is_not {
                        out.append("NOT BETWEEN ");
                    } else {
                        out.append("BETWEEN ");
                    }
                    out.append(values[0].as_str());
                    out.append(" AND ");
                    out.append(values[1].as_str());
                    assert(out@ =~= (if is_not {
                        "NOT BETWEEN "@
                    } else {
                        "BETWEEN "@
                    }) + vs[0] + " AND "@ + vs[1]);
                    Ok(out)
                } else {
                    Err(ArelError::BetweenArrayLength)
                }
            } else {
                let joined = join_strings(&values, ", ");
                if with_modifier {
                    if is_not {
                        out.append("NOT IN (");
                    } else {
                        out.append("IN (");
                    }
                    out.append(joined.as_str());
                    out.append(")");
                    assert(out@ =~= (if is_not {
                        "NOT IN ("@
                    } else {
                        "IN ("@
                    }) + join(vs, ", "@) + ")"@);
                    Ok(out)
                } else {
                    Ok(joined)
                }
            }
        },
        Json::String(s) => {
            let mut quoted = String::new();
            quoted.push('\'');
            quoted.append(s.as_str());
            quoted.push('\'');
            assert(quoted@ =~= single_quoted(s@));
            let mut out = String::new();
            push_compared(&mut out, quoted.as_str(), with_modifier, is_not);
            assert(out@ =~= compared(single_quoted(s@), with_modifier, is_not));
            Ok(out)
        },
        Json::Number(n) => {
            let text = n.to_text();
            let mut out = String::new();
            push_compared(&mut out, text.as_str(), with_modifier, is_not);
            assert(out@ =~= compared(n.text(), with_modifier, is_not));
            Ok(out)
        },
        Json::Bool(b) => {
            let text = if *b {
                "1"
            } else {
                "0"
            };
            proof {
                reveal_strlit("1");
                reveal_strlit("0");
            }
            let mut out = String::new();
            push_compared(&mut out, text, with_modifier, is_not);
            assert(out@ =~= compared(
                if *b {
                    seq!['1']
                } else {
                    seq!['0']
                },
                with_modifier,
                is_not,
            ));
            Ok(out)
        },
        Json::Null => {
            if with_modifier {
                if is_not {
                    Ok("IS NOT NULL".to_string())
                } else {
                    Ok("IS NULL".to_string())
                }
            } else {
                Err(ArelError::StatementNotSupported)
            }
        },
        Json::Object(_) => Err(ArelError::StatementNotSupported),
    }
}

impl Where {
    pub fn new(value: Json, ops: Ops) -> (r: Self)
        ensures
            r == (Self { value, ops }),
    {
        Self { value, ops }
    }

    /// The JSON that describes the condition.
    pub fn json_value(&self) -> (r: Option<&Json>)
        ensures
            r == Some(&self.value),
    {
        Some(&self.value)
    }

    /// The SQL of a value of this condition (see `where_value_sql`).
    pub fn value_sql_from_json(&self, json_value: &Json, with_modifier: bool) -> (r: Result<
        Sql,
        ArelError,
    >)
        ensures
            sql_result(r) == match where_value_sql(
                json_value@,
                with_modifier,
                self.ops.is_not,
                self.ops.is_between,
            ) {
                Ok(v) => Ok(SqlV { value: v, prepare: None }),
                Err(e) => Err(e),
            },
    {
        match where_value_text(json_value, with_modifier, self.ops.is_not, self.ops.is_between) {
            Ok(text) => Ok(Sql::new(text)),
            Err(e) => Err(e),
        }
    }

    /// The pieces of SQL of the condition (see `where_sub_sqls`).
    pub fn to_sub_sqls(&self, model: &Model) -> (r: Result<Vec<Sql>, ArelError>)
        ensures
            sqls_result(r) == where_sub_sqls(*model, self.value@, self.ops),
    {
        let is_not = self.ops.is_not;
        let is_between = self.ops.is_between;
        match &self.value {
            Json::Object(entries) => {
                proof {
                    lemma_object_view(*entries);
                }
                let ghost rs = where_entries_sql(*model, entries_view(entries@), self.ops);
                let mut vec: Vec<Sql> = Vec::new();
                let mut i: usize = 0;
                proof {
                    assert(rs.take(0) =~= Seq::<Result<SqlV, ArelError>>::empty());
                    assert(sqls_view(vec@) =~= Seq::<SqlV>::empty());
                }
                while i < entries.len()
                    invariant
                        Json::Object(*entries) == self.value,
                        is_not == self.ops.is_not,
                        is_between == self.ops.is_between,
                        i <= entries.len(),
                        rs == where_entries_sql(*model, entries_view(entries@), self.ops),
                        collect(rs.take(i as int)) == Ok::<Seq<SqlV>, ArelError>(sqls_view(vec@)),
                    decreases entries.len() - i,
                {
                    proof {
                        lemma_collect_step(rs, i as int);
                    }
                    let column = table_column_name(model, entries[i].0.as_str());
                    match where_value_text(&entries[i].1, true, is_not, is_between) {
                        Ok(v) => {
                            let mut text = column;
                            text.append(" ");
                            text.append(v.as_str());
                            let sql = Sql::new(text);
                            let ghost before = vec@;
                            vec.push(sql);
                            proof {
                                assert(sqls_view(vec@) =~= sqls_view(before).push(sql@));
                            }
                        },
                        Err(e) => {
                            proof {
                                lemma_collect_err_prefix(rs, i + 1);
                                lemma_object_view(*entries);
                            }
                            return Err(e);
                        },
                    }
                    i = i + 1;
                }
                proof {
                    assert(rs.take(entries.len() as int) =~= rs);
                    lemma_object_view(*entries);
                }
                Ok(vec)
            },
            _ => {
                if is_between {
                    match &self.value {
                        Json::Array(a) => {
                            proof {
                                lemma_array_view(*a);
                            }
                            if a.len() == 3 {
                                let column = where_value_text(&a[0], false, is_not, is_between)?;
                                let start = where_value_text(&a[1], false, is_not, is_between)?;
                                let end = where_value_text(&a[2], false, is_not, is_between)?;
                                let mut text = table_column_name(model, column.as_str());
                                if is_not {
                                    text.append(" NOT BETWEEN ");
                                } else {
                                    text.append(" BETWEEN ");
                                }
                                text.append(start.as_str());
                                text.append(" AND ");
                                text.append(end.as_str());
                                let mut vec: Vec<Sql> = Vec::new();
                                vec.push(Sql::new(text));
                                assert(sqls_view(vec@) =~= where_sub_sqls(
                                    *model,
                                    self.value@,
                                    self.ops,
                                )->Ok_0);
                                Ok(vec)
                            } else {
                                Err(ArelError::StatementNotSupported)
                            }
                        },
                        Json::String(_) => default_to_sub_sqls(Some(&self.value)),
                        _ => Err(ArelError::StatementNotSupported),
                    }
                } else if is_not {
                    Err(ArelError::StatementNotSupported)
                } else {
                    default_to_sub_sqls(Some(&self.value))
                }
            },
        }
    }
}

impl StatementAble for Where {
    open spec fn spec_to_sql(&self, model: Model) -> Result<SqlV, ArelError> {
        where_sql(model, self.value@, self.ops)
    }

    fn to_sql(&self, model: &Model) -> (r: Result<Sql, ArelError>) {
        let subs = self.to_sub_sqls(model)?;
        match self.ops.join_type {
            JoinType::And => Ok(to_sql_with_concat(&subs, " AND ")),
            JoinType::Or => {
                let sql = to_sql_with_concat(&subs, " OR ");
                let mut value = String::new();
                value.push('(');
                value.append(sql.value.as_str());
                value.push(')');
                assert(value@ =~= parenthesized(sql.value@));
                Ok(Sql { value, prepare_value: sql.prepare_value })
            },
        }
    }
}

/// One end of a range of values.
#[derive(Debug)]
pub enum RangeBound {
    Unbounded,
    Included(Json),
    Excluded(Json),
}

/// The model of one end of a range.
pub enum RangeBoundV {
    Unbounded,
    Included(JsonV),
    Excluded(JsonV),
}

impl View for RangeBound {
    type V = RangeBoundV;

    open spec fn view(&self) -> RangeBoundV {
        match self {
            RangeBound::Unbounded => RangeBoundV::Unbounded,
            RangeBound::Included(j) => RangeBoundV::Included(j@),
            RangeBound::Excluded(j) => RangeBoundV::Excluded(j@),
        }
    }
}

/// `column op value`.
pub open spec fn bound_cond(column: Seq<char>, op: Seq<char>, value: Seq<char>) -> Seq<char> {
    column + op + value
}

/// The comparison of `column` with the lower end `start` of a range, or none.
pub open spec fn lower_op(start: RangeBoundV) -> Seq<char> {
    match start {
        RangeBoundV::Included(_) => " >= "@,
        _ => " > "@,
    }
}

/// The comparison of `column` with the upper end `end` of a range.
pub open spec fn upper_op(end: RangeBoundV) -> Seq<char> {
    match end {
        RangeBoundV::Included(_) => " <= "@,
        _ => " < "@,
    }
}

/// The value of a bounded end of a range.
pub open spec fn bound_value(b: RangeBoundV) -> JsonV {
    match b {
        RangeBoundV::Included(j) => j,
        RangeBoundV::Excluded(j) => j,
        RangeBoundV::Unbounded => JsonV::Null,
    }
}

/// The condition that `column` lies in the range from `start` to `end`: one comparison
/// for a range open at one end, `BETWEEN` for a range that includes both ends, else two
/// comparisons joined by `AND`; the ends' values are literals (the lower end's first);
/// a range open at both ends is refused.
pub open spec fn range_sql(column: Seq<char>, start: RangeBoundV, end: RangeBoundV) -> Result<
    Seq<char>,
    ArelError,
> {
    if start is Unbounded {
        if end is Unbounded {
            Err(ArelError::UnboundedRange)
        } else {
            match core_value_sql(bound_value(end)) {
                Err(e) => Err(e),
                Ok(ev) => Ok(bound_cond(column, upper_op(end), ev)),
            }
        }
    } else {
        match core_value_sql(bound_value(start)) {
            Err(e) => Err(e),
            Ok(sv) => if end is Unbounded {
                Ok(bound_cond(column, lower_op(start), sv))
            } else {
                match core_value_sql(bound_value(end)) {
                    Err(e) => Err(e),
                    Ok(ev) => if start is Included && end is Included {
                        Ok(column + " BETWEEN "@ + sv + " AND "@ + ev)
                    } else {
                        Ok(
                            bound_cond(column, lower_op(start), sv) + " AND "@ + bound_cond(
                                column,
                                upper_op(end),
                                ev,
                            ),
                        )
                    },
                }
            },
        }
    }
}

/// Appends `column`, the comparison `op` and `value` to `out`.
fn push_bound_cond(out: &mut String, column: &str, op: &str, value: &str)
    ensures
        final(out)@ == old(out)@ + bound_cond(column@, op@, value@),
{
    out.append(column);
    out.append(op);
    out.append(value);
    assert(out@ =~= old(out)@ + bound_cond(column@, op@, value@));
}

/// The comparison text of a lower end.
fn lower_op_text(start: &RangeBound) -> (r: &'static str)
    ensures
        r@ == lower_op(start@),
{
    match start {
        RangeBound::Included(_) => " >= ",
        _ => " > ",
    }
}

/// The comparison text of an upper end.
fn upper_op_text(end: &RangeBound) -> (r: &'static str)
    ensures
        r@ == upper_op(end@),
{
    match end {
        RangeBound::Included(_) => " <= ",
        _ => " < ",
    }
}

/// The condition that `table_column_name` lies in the range from `start` to `end`
/// (see `range_sql`).
pub fn help_range_to_sql(table_column_name: &str, start: &RangeBound, end: &RangeBound) -> (r:
    Result<String, ArelError>)
    ensures
        str_result(r) == range_sql(table_column_name@, start@, end@),
{
    let mut raw_sql = String::new();
    match start {
        RangeBound::Unbounded => {
            match end {
                RangeBound::Unbounded => {
                    return Err(ArelError::UnboundedRange);
                },
                RangeBound::Included(e) | RangeBound::Excluded(e) => {
                    let ev = core_value_sql_string_from_json(e)?;
                    push_bound_cond(&mut raw_sql, table_column_name, upper_op_text(end), ev.as_str());
                },
            }
        },
        RangeBound::Included(sj) | RangeBound::Excluded(sj) => {
            let sv = core_value_sql_string_from_json(sj)?;
            match end {
                RangeBound::Unbounded => {
                    push_bound_cond(
                        &mut raw_sql,
                        table_column_name,
                        lower_op_text(start),
                        sv.as_str(),
                    );
                },
                RangeBound::Included(ej) | RangeBound::Excluded(ej) => {
                    let ev = core_value_sql_string_from_json(ej)?;
                    match (start, end) {
                        (RangeBound::Included(_), RangeBound::Included(_)) => {
                            raw_sql.append(table_column_name);
                            raw_sql.append(" BETWEEN ");
                            raw_sql.append(sv.as_str());
                            raw_sql.append(" AND ");
                            raw_sql.append(ev.as_str());
                            assert(raw_sql@ =~= table_column_name@ + " BETWEEN "@ + sv@
                                + " AND "@ + ev@);
                        },
                        _ => {
                            push_bound_cond(
                                &mut raw_sql,
                                table_column_name,
                                lower_op_text(start),
                                sv.as_str(),
                            );
                            raw_sql.append(" AND ");
                            push_bound_cond(
                                &mut raw_sql,
                                table_column_name,
                                upper_op_text(end),
                                ev.as_str(),
                            );
                            assert(raw_sql@ =~= bound_cond(table_column_name@, lower_op(start@), sv@)
                                + " AND "@ + bound_cond(table_column_name@, upper_op(end@), ev@));
                        },
                    }
                },
            }
        },
    }
    assert(raw_sql@ =~= Seq::<char>::empty() + raw_sql@);
    Ok(raw_sql)
}

} // verus!
