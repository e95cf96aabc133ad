use vstd::prelude::*;
use crate::error::ArelError;
use crate::json::{Json, JsonV, jsons_view, lemma_array_view};
use crate::results::{collect, lemma_collect_step, lemma_collect_err_prefix};
use crate::methods::{spec_table_column_name, table_column_name};
use crate::text::{join, single_quoted, parenthesized, join_strings};
use crate::collectors::Sql;
use crate::collectors::sql::{SqlV, sql_empty, sql_append, sql_join, sql_render, placeholders_fit};
use crate::methods::Model;

pub mod where_clause;
pub mod having;
pub mod group;
pub mod select;
pub mod join;
pub mod lock;
pub mod offset;
pub mod limit;
pub mod order;
pub mod insert;
pub mod update;
pub mod helpers;

verus! {

broadcast use vstd::std_specs::vec::group_vec_axioms;

/// The model of a rendered piece of SQL text, or the error that stopped it.
pub open spec fn str_result(r: Result<String, ArelError>) -> Result<Seq<char>, ArelError> {
    match r {
        Ok(s) => Ok(s@),
        Err(e) => Err(e),
    }
}

/// The model of a built piece of SQL, or the error that stopped it.
pub open spec fn sql_result(r: Result<Sql, ArelError>) -> Result<SqlV, ArelError> {
    match r {
        Ok(s) => Ok(s@),
        Err(e) => Err(e),
    }
}

/// The models of pieces of SQL.
pub open spec fn sqls_view(v: Seq<Sql>) -> Seq<SqlV> {
    v.map_values(|s: Sql| s@)
}

/// The models of built pieces of SQL, or the error that stopped them.
pub open spec fn sqls_result(r: Result<Vec<Sql>, ArelError>) -> Result<Seq<SqlV>, ArelError> {
    match r {
        Ok(v) => Ok(sqls_view(v@)),
        Err(e) => Err(e),
    }
}

/// The text that a built statement renders to (see `sql_render`).
pub open spec fn rendered(r: Result<SqlV, ArelError>) -> Result<Seq<char>, ArelError> {
    match r {
        Ok(s) => sql_render(s),
        Err(e) => Err(e),
    }
}

/// Rendering a built statement does not run out of prepared values.
pub open spec fn renders(r: Result<SqlV, ArelError>) -> bool {
    r matches Ok(s) ==> placeholders_fit(s)
}

/// A statement that builds its SQL for a model.
pub trait StatementAble {
    /// The SQL that the statement builds for `model`.
    spec fn spec_to_sql(&self, model: Model) -> Result<SqlV, ArelError>;

    /// The SQL of the statement for `model`.
    fn to_sql(&self, model: &Model) -> (r: Result<Sql, ArelError>)
        ensures
            sql_result(r) == self.spec_to_sql(*model),
    ;

    /// The SQL of the statement for `model`, with its prepared values written in.
    fn to_sql_string(&self, model: &Model) -> (r: Result<String, ArelError>)
        requires
            renders(self.spec_to_sql(*model)),
        ensures
            str_result(r) == rendered(self.spec_to_sql(*model)),
    {
        match self.to_sql(model) {
            Ok(sql) => sql.to_sql_string(),
            Err(e) => Err(e),
        }
    }
}

/// The pieces of SQL that a statement's JSON gives by default: a string is raw SQL; an
/// array is raw SQL followed by the values of its placeholders; no JSON gives none.
pub open spec fn default_sub_sqls(j: Option<JsonV>) -> Result<Seq<SqlV>, ArelError> {
    match j {
        None => Ok(Seq::empty()),
        Some(JsonV::Str(s)) => Ok(seq![SqlV { value: s, prepare: None }]),
        Some(JsonV::Array(a)) => if a.len() >= 1 {
            match a[0] {
                JsonV::Str(raw) => Ok(seq![SqlV { value: raw, prepare: Some(a.skip(1)) }]),
                _ => Err(ArelError::FirstElementNotString),
            }
        } else {
            Err(ArelError::StatementNotSupported)
        },
        _ => Err(ArelError::StatementNotSupported),
    }
}

/// The pieces of SQL that a statement's JSON gives by default (see `default_sub_sqls`).
pub fn default_to_sub_sqls(json_value: Option<&Json>) -> (r: Result<Vec<Sql>, ArelError>)
    ensures
        sqls_result(r) == default_sub_sqls(
            match json_value {
                Some(j) => Some(j@),
                None => None,
            },
        ),
{
    let mut vec: Vec<Sql> = Vec::new();
    match json_value {
        None => {},
        Some(Json::String(s)) => {
            let mut sql = Sql::default();
            sql.push_str(s.as_str());
            vec.push(sql);
        },
        Some(Json::Array(items)) => {
            proof {
                lemma_array_view(*items);
            }
            if items.len() >= 1 {
                match &items[0] {
                    Json::String(raw_sql) => {
                        let mut rest: Vec<Json> = Vec::new();
                        let mut i: usize = 1;
                        while i < items.len()
                            invariant
                                1 <= i <= items.len(),
                                rest.len() == i - 1,
                                forall|k: int|
                                    0 <= k < rest.len() ==> (#[trigger] rest@[k])@ == items@[k + 1]@,
                            decreases items.len() - i,
                        {
                            rest.push(items[i].deep_clone());
                            i = i + 1;
                        }
                        let mut sql = Sql::default();
                        sql.push_str_with_prepare_value(raw_sql.as_str(), &rest);
                        assert(jsons_view(rest@) =~= jsons_view(items@).skip(1));
                        assert(sql@.value =~= raw_sql@);
                        vec.push(sql);
                    },
                    _ => {
                        return Err(ArelError::FirstElementNotString);
                    },
                }
            } else {
                return Err(ArelError::StatementNotSupported);
            }
        },
        Some(Json::Object(_)) => {
            return Err(ArelError::StatementNotSupported);
        },
        Some(_) => {
            return Err(ArelError::StatementNotSupported);
        },
    }
    assert(sqls_view(vec@) =~= default_sub_sqls(
        match json_value {
            Some(j) => Some(j@),
            None => None,
        },
    )->Ok_0);
    Ok(vec)
}

/// `sub_sqls` appended in order with `concat` between each two neighbours.
pub fn to_sql_with_concat(sub_sqls: &Vec<Sql>, concat: &str) -> (r: Sql)
    ensures
        r@ == sql_join(sqls_view(sub_sqls@), concat@),
{
    let mut collector = Sql::default();
    collector.push_from_sqls(sub_sqls, concat);
    proof {
        lemma_append_empty(sql_join(sqls_view(sub_sqls@), concat@));
    }
    collector
}

/// Appending to the empty piece of SQL gives the appended piece.
pub proof fn lemma_append_empty(x: SqlV)
    ensures
        sql_append(sql_empty(), x) == x,
{
    assert(Seq::<char>::empty() + x.value =~= x.value);
}

/// The piece of SQL of one element of a column list: a string names a column of the
/// model's table.
pub open spec fn column_entry_sql(m: Model, j: JsonV) -> Result<SqlV, ArelError> {
    match j {
        JsonV::Str(c) => Ok(SqlV { value: spec_table_column_name(m.dialect, m.table_name@, c), prepare: None }),
        _ => Err(ArelError::StatementNotSupported),
    }
}

/// The pieces of SQL of the elements of a column list.
pub open spec fn column_entries_sql(m: Model, items: Seq<JsonV>) -> Seq<Result<SqlV, ArelError>> {
    Seq::new(items.len(), |i: int| column_entry_sql(m, items[i]))
}

/// The pieces of SQL of a column list: an array of column names gives one per name, a
/// string is raw SQL.
pub open spec fn columns_sub_sqls(m: Model, j: JsonV) -> Result<Seq<SqlV>, ArelError> {
    match j {
        JsonV::Array(items) => collect(column_entries_sql(m, items)),
        JsonV::Str(_) => default_sub_sqls(Some(j)),
        _ => Err(ArelError::StatementNotSupported),
    }
}

/// The pieces of SQL of a column list (see `columns_sub_sqls`).
pub fn columns_to_sub_sqls(model: &Model, json_value: &Json) -> (r: Result<Vec<Sql>, ArelError>)
    ensures
        sqls_result(r) == columns_sub_sqls(*model, json_value@),
{
    match json_value {
        Json::Array(items) => {
            proof {
                lemma_array_view(*items);
            }
            let ghost rs = column_entries_sql(*model, jsons_view(items@));
            let mut vec: Vec<Sql> = Vec::new();
            let mut i: usize = 0;
            proof {
                assert(rs.take(0) =~= Seq::<Result<SqlV, ArelError>>::empty());
                assert(sqls_view(vec@) =~= Seq::<SqlV>::empty());
            }
            while i < items.len()
                invariant
                    Json::Array(*items) == *json_value,
                    i <= items.len(),
                    rs == column_entries_sql(*model, jsons_view(items@)),
                    collect(rs.take(i as int)) == Ok::<Seq<SqlV>, ArelError>(sqls_view(vec@)),
                decreases items.len() - i,
            {
                proof {
                    lemma_collect_step(rs, i as int);
                }
                match &items[i] {
                    Json::String(column_name) => {
                        let sql = Sql::new(table_column_name(model, column_name.as_str()));
                        let ghost before = vec@;
                        vec.push(sql);
                        proof {
                            assert(sqls_view(vec@) =~= sqls_view(before).push(sql@));
                        }
                    },
                    _ => {
                        proof {
                            assert(!(jsons_view(items@)[i as int] is Str));
                            assert(rs[i as int] == Err::<SqlV, ArelError>(ArelError::StatementNotSupported));
                            lemma_collect_err_prefix(rs, i + 1);
                            lemma_array_view(*items);
                        }
                        return Err(ArelError::StatementNotSupported);
                    },
                }
                i = i + 1;
            }
            proof {
                assert(rs.take(items.len() as int) =~= rs);
                lemma_array_view(*items);
            }
            Ok(vec)
        },
        Json::String(_) => default_to_sub_sqls(Some(json_value)),
        _ => Err(ArelError::StatementNotSupported),
    }
}

/// The SQL literal of a single JSON value: a string between single quotes, a number by
/// its decimal text, a boolean as `1` or `0`, null as `NULL`; arrays and objects have none.
pub open spec fn core_value_sql(j: JsonV) -> Result<Seq<char>, ArelError> {
    match j {
        JsonV::Str(s) => Ok(single_quoted(s)),
        JsonV::Number(t) => Ok(t),
        JsonV::Bool(b) => Ok(if b { seq!['1'] } else { seq!['0'] }),
        JsonV::Null => Ok("NULL"@),
        _ => Err(ArelError::ValueNotSupported),
    }
}

/// The SQL of a JSON value as a statement renders it: an array becomes the bracketed,
/// comma separated list of its elements' SQL; with `raw_strings` a string stands as it
/// is, else it is quoted; any other value is its literal.
pub open spec fn value_sql(j: JsonV, raw_strings: bool) -> Result<Seq<char>, ArelError>
    decreases j,
{
    match j {
        JsonV::Array(items) => match collect(items_sql(items, raw_strings)) {
            Ok(vs) => Ok(parenthesized(join(vs, ", "@))),
            Err(e) => Err(e),
        },
        JsonV::Str(s) => if raw_strings {
            Ok(s)
        } else {
            Ok(single_quoted(s))
        },
        _ => core_value_sql(j),
    }
}

/// The SQL of each of `items`, in order.
pub open spec fn items_sql(items: Seq<JsonV>, raw_strings: bool) -> Seq<Result<Seq<char>, ArelError>>
    decreases items,
{
    Seq::new(
        items.len(),
        |i: int|
            if 0 <= i < items.len() {
                value_sql(items[i], raw_strings)
            } else {
                Err(ArelError::ValueNotSupported)
            },
    )
}

/// The SQL literal of a single JSON value (see `core_value_sql`).
pub fn core_value_sql_string_from_json(json_value: &Json) -> (r: Result<String, ArelError>)
    ensures
        str_result(r) == core_value_sql(json_value@),
{
    match json_value {
        Json::String(s) => {
            let mut out = String::new();
            out.push('\'');
            out.append(s.as_str());
            out.push('\'');
            assert(out@ =~= single_quoted(s@));
            Ok(out)
        },
        Json::Number(n) => Ok(n.to_text()),
        Json::Bool(b) => {
            let mut out = String::new();
            out.push(if *b { '1' } else { '0' });
            Ok(out)
        },
        Json::Null => Ok("NULL".to_string()),
        Json::Array(v) => {
            proof {
                lemma_array_view(*v);
            }
            Err(ArelError::ValueNotSupported)
        },
        Json::Object(_) => Err(ArelError::ValueNotSupported),
    }
}

/// The SQL of a JSON value as a statement renders it (see `value_sql`); `raw_strings`
/// is set by the statements that write strings as they are.
pub fn default_value_sql_string_from_json(json_value: &Json, raw_strings: bool) -> (r: Result<
    String,
    ArelError,
>)
    ensures
        str_result(r) == value_sql(json_value@, raw_strings),
    decreases json_value,
{
    match json_value {
        Json::Array(items) => {
            proof {
                lemma_array_view(*items);
                            }
            let ghost rs = items_sql(jsons_view(items@), raw_strings);
            let mut values: Vec<String> = Vec::new();
            let mut i: usize = 0;
            proof {
                assert(rs.take(0) =~= Seq::<Result<Seq<char>, ArelError>>::empty());
                assert(values@.map_values(|s: String| s@) =~= Seq::<Seq<char>>::empty());
            }
            while i < items.len()
                invariant
                    Json::Array(*items) == *json_value,
                    i <= items.len(),
                    rs == items_sql(jsons_view(items@), raw_strings),
                    collect(rs.take(i as int)) == Ok::<Seq<Seq<char>>, ArelError>(
                        values@.map_values(|s: String| s@),
                    ),
                decreases items.len() - i,
            {
                proof {
                    assert(decreases_to!(*json_value => json_value->Array_0));
                    lemma_collect_step(rs, i as int);
                }
                let v = default_value_sql_string_from_json(&items[i], raw_strings);
                match v {
                    Ok(s) => {
                        let ghost before = values@;
                        let ghost sv = s@;
                        values.push(s);
                        proof {
                            assert(values@.map_values(|s: String| s@) =~= before.map_values(
                                |s: String| s@,
                            ).push(sv));
                        }
                    },
                    Err(e) => {
                        proof {
                            lemma_collect_err_prefix(rs, i + 1);
                            lemma_array_view(*items);
                                                    }
                        return Err(e);
                    },
                }
                i = i + 1;
            }
            proof {
                assert(rs.take(items.len() as int) =~= rs);
                lemma_array_view(*items);
                            }
            let joined = join_strings(&values, ", ");
            let mut out = String::new();
            out.push('(');
            out.append(joined.as_str());
            out.push(')');
            assert(out@ =~= parenthesized(joined@));
            Ok(out)
        },
        Json::String(s) => {
            if raw_strings {
                Ok(s.clone())
            } else {
                core_value_sql_string_from_json(json_value)
            }
        },
        _ => core_value_sql_string_from_json(json_value),
    }
}

} // verus!
