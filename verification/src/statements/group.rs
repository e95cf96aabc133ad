use vstd::prelude::*;
use crate::error::ArelError;
use crate::json::{Json, JsonV};
use crate::collectors::Sql;
use crate::collectors::sql::{SqlV, sql_join};
use crate::methods::Model;
use crate::statements::{
    StatementAble, sql_result, sqls_result, columns_sub_sqls, columns_to_sub_sqls,
    to_sql_with_concat,
};

verus! {

/// The columns of a `GROUP BY` clause, described by JSON: an array of column names or
/// raw SQL.
#[derive(Debug)]
pub struct Group {
    pub value: Json,
}

impl Group {
    pub fn new(value: Json) -> (r: Self)
        ensures
            r == (Self { value }),
    {
        Self { value }
    }

    /// The JSON that describes the columns.
    pub fn json_value(&self) -> (r: Option<&Json>)
        ensures
            r == Some(&self.value),
    {
        Some(&self.value)
    }

    /// The pieces of SQL of the columns (see `columns_sub_sqls`).
    pub fn to_sub_sqls(&self, model: &Model) -> (r: Result<Vec<Sql>, ArelError>)
        ensures
            sqls_result(r) == columns_sub_sqls(*model, self.value@),
    {
        columns_to_sub_sqls(model, &self.value)
    }
}

impl Default for Group {
    /// All columns.
    fn default() -> (r: Self)
        ensures
            r.value@ == JsonV::Array(seq![JsonV::Str(seq!['*'])]),
    {
        let mut v: Vec<Json> = Vec::new();
        v.push(Json::from_str("*"));
        proof {
            reveal_strlit("*");
            assert("*"@ =~= seq!['*']);
            crate::json::lemma_array_view(v);
            assert(crate::json::jsons_view(v@) =~= seq![JsonV::Str(seq!['*'])]);
        }
        Self { value: Json::Array(v) }
    }
}

impl StatementAble for Group {
    /// The columns joined by commas.
    open spec fn spec_to_sql(&self, model: Model) -> Result<SqlV, ArelError> {
        match columns_sub_sqls(model, self.value@) {
            Ok(subs) => Ok(sql_join(subs, ", "@)),
            Err(e) => Err(e),
        }
    }

    fn to_sql(&self, model: &Model) -> (r: Result<Sql, ArelError>) {
        let subs = self.to_sub_sqls(model)?;
        Ok(to_sql_with_concat(&subs, ", "))
    }
}

} // verus!
