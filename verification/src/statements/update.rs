use vstd::prelude::*;
use crate::error::ArelError;
use crate::json::{Json, JsonV, entries_view, lemma_object_view};
use crate::results::{collect, lemma_collect_step, lemma_collect_err_prefix};
use crate::collectors::Sql;
use crate::collectors::sql::{SqlV, sql_join};
use crate::methods::{Model, Dialect, spec_table_column_name, table_column_name};
use crate::statements::{
    StatementAble, sql_result, sqls_view, sqls_result, default_sub_sqls, default_to_sub_sqls,
    to_sql_with_concat, value_sql, default_value_sql_string_from_json,
};

verus! {

broadcast use vstd::std_specs::vec::group_vec_axioms;

/// The assignments of an `UPDATE`, described by JSON: an object from columns to values,
/// or raw SQL.
#[derive(Debug)]
pub struct Update {
    pub value: Json,
}

/// The column `column` as an assignment names it: between double quotes for SQLite,
/// else as a statement names a column of the model's table.
pub open spec fn update_column(m: Model, column: Seq<char>) -> Seq<char> {
    if m.dialect == Dialect::Sqlite {
        seq!['"'] + column + seq!['"']
    } else {
        spec_table_column_name(m.dialect, m.table_name@, column)
    }
}

/// The assignment of each entry of an object: the column, ` = `, and the value.
pub open spec fn update_entries_sql(m: Model, entries: Seq<(Seq<char>, JsonV)>) -> Seq<
    Result<SqlV, ArelError>,
> {
    Seq::new(
        entries.len(),
        |i: int|
            match value_sql(entries[i].1, false) {
                Ok(v) => Ok(
                    SqlV { value: update_column(m, entries[i].0) + " = "@ + v, prepare: None },
                ),
                Err(e) => Err(e),
            },
    )
}

/// The pieces of the assignments: one per entry of an object, else the default pieces
/// of the JSON.
pub open spec fn update_sub_sqls(m: Model, j: JsonV) -> Result<Seq<SqlV>, ArelError> {
    match j {
        JsonV::Object(entries) => collect(update_entries_sql(m, entries)),
        _ => default_sub_sqls(Some(j)),
    }
}

impl Update {
    pub fn new(value: Json) -> (r: Self)
        ensures
            r == (Self { value }),
    {
        Self { value }
    }

    /// The JSON that describes the assignments.
    pub fn json_value(&self) -> (r: Option<&Json>)
        ensures
            r == Some(&self.value),
    {
        Some(&self.value)
    }

    /// The pieces of the assignments (see `update_sub_sqls`).
    pub fn to_sub_sqls(&self, model: &Model) -> (r: Result<Vec<Sql>, ArelError>)
        ensures
            sqls_result(r) == update_sub_sqls(*model, self.value@),
    {
        match &self.value {
            Json::Object(entries) => {
                proof {
                    lemma_object_view(*entries);
                }
                let ghost rs = update_entries_sql(*model, entries_view(entries@));
                let mut vec: Vec<Sql> = Vec::new();
                let mut i: usize = 0;
                proof {
                    assert(rs.take(0) =~= Seq::<Result<SqlV, ArelError>>::empty());
                    assert(sqls_view(vec@) =~= Seq::<SqlV>::empty());
                }
                while i < entries.len()
                    invariant
                        Json::Object(*entries) == self.value,
                        i <= entries.len(),
                        rs == update_entries_sql(*model, entries_view(entries@)),
                        collect(rs.take(i as int)) == Ok::<Seq<SqlV>, ArelError>(sqls_view(vec@)),
                    decreases entries.len() - i,
                {
                    proof {
                        lemma_collect_step(rs, i as int);
                    }
                    let mut text = String::new();
                    if model.dialect == Dialect::Sqlite {
                        text.push('"');
                        text.append(entries[i].0.as_str());
                        text.push('"');
                    } else {
                        text.append(table_column_name(model, entries[i].0.as_str()).as_str());
                    }
                    assert(text@ =~= update_column(*model, entries[i as int].0@));
                    match default_value_sql_string_from_json(&entries[i].1, false) {
                        Ok(v) => {
                            text.append(" = ");
                            text.append(v.as_str());
                            let sql = Sql::new(text);
                            let ghost before = vec@;
                            vec.push(sql);
                            proof {
                                assert(sqls_view(vec@) =~= sqls_view(before).push(sql@));
                            }
                        },
                        Err(e) => {
                            proof {
                                lemma_collect_err_prefix(rs, i + 1);
                                lemma_object_view(*entries);
                            }
                            return Err(e);
                        },
                    }
                    i = i + 1;
                }
                proof {
                    assert(rs.take(entries.len() as int) =~= rs);
                    lemma_object_view(*entries);
                }
                Ok(vec)
            },
            _ => default_to_sub_sqls(Some(&self.value)),
        }
    }
}

impl StatementAble for Update {
    /// The assignments joined by commas.
    open spec fn spec_to_sql(&self, model: Model) -> Result<SqlV, ArelError> {
        match update_sub_sqls(model, self.value@) {
            Ok(subs) => Ok(sql_join(subs, ", "@)),
            Err(e) => Err(e),
        }
    }

    fn to_sql(&self, model: &Model) -> (r: Result<Sql, ArelError>) {
        let subs = self.to_sub_sqls(model)?;
        Ok(to_sql_with_concat(&subs, ", "))
    }
}

} // verus!
