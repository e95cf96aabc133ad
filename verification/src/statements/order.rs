use vstd::prelude::*;
use crate::error::ArelError;
use crate::json::{Json, JsonV, jsons_view, lemma_array_view, entries_view, lemma_object_view};
use crate::results::{collect, lemma_collect_step, lemma_collect_err_prefix};
use crate::collectors::Sql;
use crate::collectors::sql::{SqlV, sql_join};
use crate::methods::{Model, spec_table_column_name, table_column_name};
use crate::statements::{
    StatementAble, str_result, sql_result, sqls_view, sqls_result, default_sub_sqls,
    default_to_sub_sqls, to_sql_with_concat, value_sql, default_value_sql_string_from_json,
};

verus! {

broadcast use vstd::std_specs::vec::group_vec_axioms;

/// The text `s` in upper case, as `str::to_uppercase` gives it.
pub uninterp spec fn str_uppercase(s: Seq<char>) -> Seq<char>;

/// Calls `str::to_uppercase`, which maps each character of `s` to its Unicode upper
/// case; its result is a function of `s` alone, named `str_uppercase`.
#[verifier::external_body]
fn to_uppercase(s: &str) -> (r: String)
    ensures
        r@ == str_uppercase(s@),
{
    s.to_uppercase()
}

/// The ordering by the column `column` of `model`'s table in the direction
/// `direction`, already in upper case: the column as a statement names it, a space, and
/// the direction.
pub fn ordering_text(model: &Model, column: &str, direction: &str) -> (r: String)
    ensures
        r@ == spec_table_column_name(model.dialect, model.table_name@, column@) + " "@ + direction@,
{
    let mut text = table_column_name(model, column);
    text.append(" ");
    text.append(direction);
    text
}

/// An `ORDER BY` clause, described by JSON: an object from columns to directions, an
/// array of raw orderings, or raw SQL.
#[derive(Debug)]
pub struct Order {
    pub value: Json,
}

/// The ordering by each entry of an object: the column, a space, and the direction
/// (written as it is) in upper case.
pub open spec fn order_entries_sql(m: Model, entries: Seq<(Seq<char>, JsonV)>) -> Seq<
    Result<SqlV, ArelError>,
> {
    Seq::new(
        entries.len(),
        |i: int|
            match value_sql(entries[i].1, true) {
                Ok(v) => Ok(
                    SqlV {
                        value: spec_table_column_name(m.dialect, m.table_name@, entries[i].0) + " "@
                            + str_uppercase(v),
                        prepare: None,
                    },
                ),
                Err(e) => Err(e),
            },
    )
}

/// Each element of an array of raw orderings, which must be strings.
pub open spec fn order_items_sql(items: Seq<JsonV>) -> Seq<Result<SqlV, ArelError>> {
    Seq::new(
        items.len(),
        |i: int|
            match items[i] {
                JsonV::Str(s) => Ok(SqlV { value: s, prepare: None }),
                _ => Err(ArelError::StatementNotSupported),
            },
    )
}

/// The pieces of an ordering: one per entry of an object, one per element of an array,
/// else the default pieces of the JSON.
pub open spec fn order_sub_sqls(m: Model, j: JsonV) -> Result<Seq<SqlV>, ArelError> {
    match j {
        JsonV::Object(entries) => collect(order_entries_sql(m, entries)),
        JsonV::Array(items) => collect(order_items_sql(items)),
        _ => default_sub_sqls(Some(j)),
    }
}

impl Order {
    pub fn new(value: Json) -> (r: Self)
        ensures
            r == (Self { value }),
    {
        Self { value }
    }

    /// The JSON that describes the ordering.
    pub fn json_value(&self) -> (r: Option<&Json>)
        ensures
            r == Some(&self.value),
    {
        Some(&self.value)
    }

    /// The SQL of a value of this ordering: strings as they are.
    pub fn value_sql_string_from_json(json_value: &Json) -> (r: Result<String, ArelError>)
        ensures
            str_result(r) == value_sql(json_value@, true),
    {
        default_value_sql_string_from_json(json_value, true)
    }

    /// The pieces of the ordering (see `order_sub_sqls`).
    pub fn to_sub_sqls(&self, model: &Model) -> (r: Result<Vec<Sql>, ArelError>)
        ensures
            sqls_result(r) == order_sub_sqls(*model, self.value@),
    {
        match &self.value {
            Json::Object(entries) => {
                proof {
                    lemma_object_view(*entries);
                }
                let ghost rs = order_entries_sql(*model, entries_view(entries@));
                let mut vec: Vec<Sql> = Vec::new();
                let mut i: usize = 0;
                proof {
                    assert(rs.take(0) =~= Seq::<Result<SqlV, ArelError>>::empty());
                    assert(sqls_view(vec@) =~= Seq::<SqlV>::empty());
                }
                while i < entries.len()
                    invariant
                        Json::Object(*entries) == self.value,
                        i <= entries.len(),
                        rs == order_entries_sql(*model, entries_view(entries@)),
                        collect(rs.take(i as int)) == Ok::<Seq<SqlV>, ArelError>(sqls_view(vec@)),
                    decreases entries.len() - i,
                {
                    proof {
                        lemma_collect_step(rs, i as int);
                    }
                    match Self::value_sql_string_from_json(&entries[i].1) {
                        Ok(v) => {
                            let upper = to_uppercase(v.as_str());
                            let sql = Sql::new(ordering_text(model, entries[i].0.as_str(), upper.as_str()));
                            let ghost before = vec@;
                            vec.push(sql);
                            proof {
                                assert(sqls_view(vec@) =~= sqls_view(before).push(sql@));
                            }
                        },
                        Err(e) => {
                            proof {
                                lemma_collect_err_prefix(rs, i + 1);
                                lemma_object_view(*entries);
                            }
                            return Err(e);
                        },
                    }
                    i = i + 1;
                }
                proof {
                    assert(rs.take(entries.len() as int) =~= rs);
                    lemma_object_view(*entries);
                }
                Ok(vec)
            },
            Json::Array(items) => {
                proof {
                    lemma_array_view(*items);
                }
                let ghost rs = order_items_sql(jsons_view(items@));
                let mut vec: Vec<Sql> = Vec::new();
                let mut i: usize = 0;
                proof {
                    assert(rs.take(0) =~= Seq::<Result<SqlV, ArelError>>::empty());
                    assert(sqls_view(vec@) =~= Seq::<SqlV>::empty());
                }
                while i < items.len()
                    invariant
                        Json::Array(*items) == self.value,
                        i <= items.len(),
                        rs == order_items_sql(jsons_view(items@)),
                        collect(rs.take(i as int)) == Ok::<Seq<SqlV>, ArelError>(sqls_view(vec@)),
                    decreases items.len() - i,
                {
                    proof {
                        lemma_collect_step(rs, i as int);
                    }
                    match &items[i] {
                        Json::String(s) => {
                            let sql = Sql::new(s.clone());
                            let ghost before = vec@;
                            vec.push(sql);
                            proof {
                                assert(sqls_view(vec@) =~= sqls_view(before).push(sql@));
                            }
                        },
                        _ => {
                            proof {
                                assert(!(jsons_view(items@)[i as int] is Str));
                                lemma_collect_err_prefix(rs, i + 1);
                                lemma_array_view(*items);
                            }
                            return Err(ArelError::StatementNotSupported);
                        },
                    }
                    i = i + 1;
                }
                proof {
                    assert(rs.take(items.len() as int) =~= rs);
                    lemma_array_view(*items);
                }
                Ok(vec)
            },
            _ => default_to_sub_sqls(Some(&self.value)),
        }
    }
}

impl StatementAble for Order {
    /// The orderings joined by commas.
    open spec fn spec_to_sql(&self, model: Model) -> Result<SqlV, ArelError> {
        match order_sub_sqls(model, self.value@) {
            Ok(subs) => Ok(sql_join(subs, ", "@)),
            Err(e) => Err(e),
        }
    }

    fn to_sql(&self, model: &Model) -> (r: Result<Sql, ArelError>) {
        let subs = self.to_sub_sqls(model)?;
        Ok(to_sql_with_concat(&subs, ", "))
    }
}

} // verus!
