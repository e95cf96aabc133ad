use vstd::prelude::*;
use crate::error::ArelError;
use crate::json::{Json, JsonV, jsons_view, lemma_array_view};
use crate::collectors::Sql;
use crate::collectors::sql::{SqlV, sql_join};
use crate::methods::{Model, spec_table_column_name};
use crate::results::lemma_collect_all_ok;
use crate::statements::{
    column_entries_sql, StatementAble, sql_result, sqls_view, sqls_result, columns_sub_sqls, columns_to_sub_sqls,
    to_sql_with_concat,
};

verus! {

/// An aggregate that a select applies to its columns.
#[derive(Debug)]
pub enum Op {
    Count,
    Sum(String),
    Avg(String),
    Min(String),
    Max(String),
}

/// The projection of a `SELECT`: the columns, described by JSON, whether they are
/// distinct, and an aggregate.
#[derive(Debug)]
pub struct Select {
    pub value: Json,
    pub distinct: bool,
    pub op: Option<Op>,
}

/// `s` preceded by `DISTINCT ` when `distinct` is set.
pub open spec fn distinct_sql(s: SqlV, distinct: bool) -> SqlV {
    if distinct {
        SqlV { value: "DISTINCT "@ + s.value, prepare: s.prepare }
    } else {
        s
    }
}

/// `s` as the argument of the SQL function `func`.
pub open spec fn wrapped(func: Seq<char>, s: SqlV) -> SqlV {
    SqlV { value: func + "("@ + s.value + ")"@, prepare: s.prepare }
}

/// The SQL function of an aggregate over one column, and that column.
pub open spec fn column_aggregate(op: Op) -> Option<(Seq<char>, Seq<char>)> {
    match op {
        Op::Count => None,
        Op::Sum(c) => Some(("SUM"@, c@)),
        Op::Avg(c) => Some(("AVG"@, c@)),
        Op::Min(c) => Some(("MIN"@, c@)),
        Op::Max(c) => Some(("MAX"@, c@)),
    }
}

/// The projection's columns joined by commas, after `DISTINCT` where set.
pub open spec fn select_base_sql(m: Model, value: JsonV, distinct: bool) -> Result<SqlV, ArelError> {
    match columns_sub_sqls(m, value) {
        Ok(subs) => Ok(distinct_sql(sql_join(subs, ", "@), distinct)),
        Err(e) => Err(e),
    }
}

/// The SQL of a projection: the columns (see `select_base_sql`), counted by `COUNT`; an
/// aggregate over one column replaces them by that column alone, `DISTINCT` kept, as
/// the argument of its function.
pub open spec fn select_sql(m: Model, value: JsonV, distinct: bool, op: Option<Op>) -> Result<
    SqlV,
    ArelError,
> {
    match select_base_sql(m, value, distinct) {
        Err(e) => Err(e),
        Ok(base) => match op {
            None => Ok(base),
            Some(Op::Count) => Ok(wrapped("COUNT"@, base)),
            Some(o) => {
                let (func, column) = column_aggregate(o)->Some_0;
                Ok(
                    wrapped(
                        func,
                        distinct_sql(
                            SqlV {
                                value: spec_table_column_name(m.dialect, m.table_name@, column),
                                prepare: None,
                            },
                            distinct,
                        ),
                    ),
                )
            },
        },
    }
}

/// `sql` as the argument of the SQL function `func`.
fn wrap_sql(func: &str, sql: Sql) -> (r: Sql)
    ensures
        r@ == wrapped(func@, sql@),
{
    let mut value = String::new();
    value.append(func);
    value.push('(');
    value.append(sql.value.as_str());
    value.push(')');
    assert(value@ =~= func@ + "("@ + sql.value@ + ")"@) by {
        reveal_strlit("(");
        reveal_strlit(")");
    }
    Sql { value, prepare_value: sql.prepare_value }
}

impl Select {
    pub fn new(value: Json, distinct: bool) -> (r: Self)
        ensures
            r == (Self { value, distinct, op: None }),
    {
        Self { value, distinct, op: None }
    }

    /// The JSON that describes the columns.
    pub fn json_value(&self) -> (r: Option<&Json>)
        ensures
            r == Some(&self.value),
    {
        Some(&self.value)
    }

    /// The pieces of SQL of the columns (see `columns_sub_sqls`).
    pub fn to_sub_sqls(&self, model: &Model) -> (r: Result<Vec<Sql>, ArelError>)
        ensures
            sqls_result(r) == columns_sub_sqls(*model, self.value@),
    {
        columns_to_sub_sqls(model, &self.value)
    }

    /// The columns joined by commas, after `DISTINCT` where set.
    fn base_sql(&self, model: &Model) -> (r: Result<Sql, ArelError>)
        ensures
            sql_result(r) == select_base_sql(*model, self.value@, self.distinct),
    {
        let subs = self.to_sub_sqls(model)?;
        let sql = to_sql_with_concat(&subs, ", ");
        if self.distinct {
            let mut value = String::new();
            value.append("DISTINCT ");
            value.append(sql.value.as_str());
            Ok(Sql { value, prepare_value: sql.prepare_value })
        } else {
            Ok(sql)
        }
    }

    /// The projection of the one column `column_name`, `DISTINCT` kept, as the argument
    /// of `func`.
    fn aggregate_sql(&self, model: &Model, func: &str, column_name: &String) -> (r: Result<
        Sql,
        ArelError,
    >)
        ensures
            sql_result(r) == Ok::<SqlV, ArelError>(
                wrapped(
                    func@,
                    distinct_sql(
                        SqlV {
                            value: spec_table_column_name(model.dialect, model.table_name@, column_name@),
                            prepare: None,
                        },
                        self.distinct,
                    ),
                ),
            ),
    {
        let mut columns: Vec<Json> = Vec::new();
        columns.push(Json::String(column_name.clone()));
        let select = Select::new(Json::Array(columns), self.distinct);
        proof {
            lemma_array_view(columns);
            let items = jsons_view(columns@);
            assert(items =~= seq![JsonV::Str(column_name@)]);
            let one = SqlV {
                value: spec_table_column_name(model.dialect, model.table_name@, column_name@),
                prepare: None,
            };
            lemma_collect_all_ok(column_entries_sql(*model, items), seq![one]);
            assert(sql_join(seq![SqlV {
                value: spec_table_column_name(model.dialect, model.table_name@, column_name@),
                prepare: None,
            }], ", "@) == SqlV {
                value: spec_table_column_name(model.dialect, model.table_name@, column_name@),
                prepare: None,
            });
        }
        let sub_sql = select.base_sql(model)?;
        Ok(wrap_sql(func, sub_sql))
    }
}

impl Default for Select {
    /// All columns, not distinct, without aggregate.
    fn default() -> (r: Self)
        ensures
            r.value@ == JsonV::Array(seq![JsonV::Str(seq!['*'])]),
            !r.distinct,
            r.op is None,
    {
        let mut v: Vec<Json> = Vec::new();
        v.push(Json::from_str("*"));
        proof {
            reveal_strlit("*");
            assert("*"@ =~= seq!['*']);
            lemma_array_view(v);
            assert(jsons_view(v@) =~= seq![JsonV::Str(seq!['*'])]);
        }
        Self { value: Json::Array(v), distinct: false, op: None }
    }
}

impl StatementAble for Select {
    open spec fn spec_to_sql(&self, model: Model) -> Result<SqlV, ArelError> {
        select_sql(model, self.value@, self.distinct, self.op)
    }

    fn to_sql(&self, model: &Model) -> (r: Result<Sql, ArelError>) {
        let sql = self.base_sql(model)?;
        match &self.op {
            None => Ok(sql),
            Some(Op::Count) => Ok(wrap_sql("COUNT", sql)),
            Some(Op::Sum(column_name)) => self.aggregate_sql(model, "SUM", column_name),
            Some(Op::Avg(column_name)) => self.aggregate_sql(model, "AVG", column_name),
            Some(Op::Min(column_name)) => self.aggregate_sql(model, "MIN", column_name),
            Some(Op::Max(column_name)) => self.aggregate_sql(model, "MAX", column_name),
        }
    }
}

} // verus!
