use vstd::prelude::*;
use crate::error::ArelError;
use crate::json::{Json, JsonV, entries_view, lemma_object_view};
use crate::results::{collect, lemma_collect_step, lemma_collect_err_prefix, lemma_collect_ok};
use crate::collectors::Sql;
use crate::collectors::sql::{SqlV, sql_join};
use crate::methods::{Model, Dialect, quote_table_name, quoted_name};
use crate::statements::{
    StatementAble, sql_result, sqls_view, sqls_result, to_sql_with_concat, value_sql,
    str_result, default_value_sql_string_from_json,
};
use crate::text::{join, backquoted, push_backquoted, join_strings};

verus! {

broadcast use vstd::std_specs::vec::group_vec_axioms;

/// The row of an `INSERT`, described by a JSON object from columns to values.
#[derive(Debug)]
pub struct Insert {
    pub value: Json,
}

/// The columns of an object's entries, between backticks.
pub open spec fn insert_keys(entries: Seq<(Seq<char>, JsonV)>) -> Seq<Seq<char>> {
    Seq::new(entries.len(), |i: int| backquoted(entries[i].0))
}

/// The SQL of the values of an object's entries.
pub open spec fn insert_values(entries: Seq<(Seq<char>, JsonV)>) -> Seq<Result<Seq<char>, ArelError>> {
    Seq::new(entries.len(), |i: int| value_sql(entries[i].1, false))
}

/// The target and row of an insert: the quoted table, then the bracketed columns and
/// `VALUES` with the bracketed values; a row without columns is `DEFAULT VALUES` for
/// SQLite, else `VALUES ()`.
pub open spec fn insert_text(m: Model, keys: Seq<Seq<char>>, values: Seq<Seq<char>>) -> Seq<char> {
    if keys.len() > 0 {
        quoted_name(m.dialect, m.table_name@) + " ("@ + join(keys, ", "@) + ") VALUES ("@ + join(values, ", "@)
            + ")"@
    } else if m.dialect == Dialect::Sqlite {
        quoted_name(m.dialect, m.table_name@) + " DEFAULT VALUES"@
    } else {
        quoted_name(m.dialect, m.table_name@) + " VALUES ()"@
    }
}

/// The pieces of an insert: one for an object (its values' errors first, in order);
/// any other JSON is refused.
pub open spec fn insert_sub_sqls(m: Model, j: JsonV) -> Result<Seq<SqlV>, ArelError> {
    match j {
        JsonV::Object(entries) => match collect(insert_values(entries)) {
            Err(e) => Err(e),
            Ok(vs) => Ok(seq![SqlV { value: insert_text(m, insert_keys(entries), vs), prepare: None }]),
        },
        _ => Err(ArelError::StatementNotSupported),
    }
}

impl Insert {
    pub fn new(value: Json) -> (r: Self)
        ensures
            r == (Self { value }),
    {
        Self { value }
    }

    /// The JSON that describes the row.
    pub fn json_value(&self) -> (r: Option<&Json>)
        ensures
            r == Some(&self.value),
    {
        Some(&self.value)
    }

    /// The pieces of the insert (see `insert_sub_sqls`).
    pub fn to_sub_sqls(&self, model: &Model) -> (r: Result<Vec<Sql>, ArelError>)
        ensures
            sqls_result(r) == insert_sub_sqls(*model, self.value@),
    {
        match &self.value {
            Json::Object(entries) => {
                proof {
                    lemma_object_view(*entries);
                }
                let ghost ev = entries_view(entries@);
                let ghost rs = insert_values(ev);
                let mut keys: Vec<String> = Vec::new();
                let mut values: Vec<String> = Vec::new();
                let mut i: usize = 0;
                proof {
                    assert(rs.take(0) =~= Seq::<Result<Seq<char>, ArelError>>::empty());
                    assert(values@.map_values(|s: String| s@) =~= Seq::<Seq<char>>::empty());
                    assert(keys@.map_values(|s: String| s@) =~= insert_keys(ev).take(0));
                }
                while i < entries.len()
                    invariant
                        Json::Object(*entries) == self.value,
                        i <= entries.len(),
                        ev == entries_view(entries@),
                        rs == insert_values(ev),
                        collect(rs.take(i as int)) == Ok::<Seq<Seq<char>>, ArelError>(
                            values@.map_values(|s: String| s@),
                        ),
                        keys@.map_values(|s: String| s@) == insert_keys(ev).take(i as int),
                    decreases entries.len() - i,
                {
                    proof {
                        lemma_collect_step(rs, i as int);
                    }
                    let mut key = String::new();
                    push_backquoted(&mut key, entries[i].0.as_str());
                    let ghost keys_before = keys@;
                    let ghost kv = key@;
                    keys.push(key);
                    proof {
                        assert(keys@.map_values(|s: String| s@) =~= keys_before.map_values(
                            |s: String| s@,
                        ).push(kv));
                        assert(insert_keys(ev).take(i + 1) =~= insert_keys(ev).take(i as int).push(
                            kv,
                        ));
                    }
                    match default_value_sql_string_from_json(&entries[i].1, false) {
                        Ok(v) => {
                            let ghost before = values@;
                            let ghost sv = v@;
                            values.push(v);
                            proof {
                                assert(values@.map_values(|s: String| s@) =~= before.map_values(
                                    |s: String| s@,
                                ).push(sv));
                            }
                        },
                        Err(e) => {
                            proof {
                                lemma_collect_err_prefix(rs, i + 1);
                                lemma_object_view(*entries);
                            }
                            return Err(e);
                        },
                    }
                    i = i + 1;
                }
                proof {
                    assert(rs.take(entries.len() as int) =~= rs);
                    assert(insert_keys(ev).take(entries.len() as int) =~= insert_keys(ev));
                    lemma_object_view(*entries);
                    lemma_collect_ok(rs);
                }
                let mut text = quote_table_name(model.table_name.as_str(), model.dialect);
                if keys.len() > 0 && values.len() > 0 {
                    text.append(" (");
                    text.append(join_strings(&keys, ", ").as_str());
                    text.append(") VALUES (");
                    text.append(join_strings(&values, ", ").as_str());
                    text.append(")");
                } else if model.dialect == Dialect::Sqlite {
                    text.append(" DEFAULT VALUES");
                } else {
                    text.append(" VALUES ()");
                }
                assert(text@ =~= insert_text(
                    *model,
                    insert_keys(ev),
                    values@.map_values(|s: String| s@),
                ));
                let mut vec: Vec<Sql> = Vec::new();
                vec.push(Sql::new(text));
                assert(sqls_view(vec@) =~= insert_sub_sqls(*model, self.value@)->Ok_0);
                Ok(vec)
            },
            _ => Err(ArelError::StatementNotSupported),
        }
    }
}

impl StatementAble for Insert {
    /// The single piece of the insert.
    open spec fn spec_to_sql(&self, model: Model) -> Result<SqlV, ArelError> {
        match insert_sub_sqls(model, self.value@) {
            Ok(subs) => Ok(sql_join(subs, Seq::empty())),
            Err(e) => Err(e),
        }
    }

    fn to_sql(&self, model: &Model) -> (r: Result<Sql, ArelError>) {
        let subs = self.to_sub_sqls(model)?;
        Ok(to_sql_with_concat(&subs, ""))
    }
}

} // verus!
