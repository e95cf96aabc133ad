use vstd::prelude::*;
use crate::error::ArelError;
use crate::json::Json;
use crate::collectors::Sql;
use crate::collectors::sql::{SqlV, sql_join, sql_render_with, placeholders_fit_with};
use crate::methods::Model;
use crate::statements::{
    StatementAble, str_result, sql_result, default_sub_sqls, default_to_sub_sqls,
    to_sql_with_concat, value_sql, default_value_sql_string_from_json,
};

verus! {

/// A join clause, described by JSON: raw SQL, or raw SQL with the values of its
/// placeholders.
#[derive(Debug)]
pub struct Join {
    pub value: Json,
}

impl Join {
    pub fn new(value: Json) -> (r: Self)
        ensures
            r == (Self { value }),
    {
        Self { value }
    }

    /// The JSON that describes the join.
    pub fn json_value(&self) -> (r: Option<&Json>)
        ensures
            r == Some(&self.value),
    {
        Some(&self.value)
    }

    /// The SQL of a value of this join: a join writes strings as they are, since its
    /// values name tables and columns.
    pub fn json_value_sql(&self, json_value: &Json) -> (r: Result<String, ArelError>)
        ensures
            str_result(r) == value_sql(json_value@, true),
    {
        default_value_sql_string_from_json(json_value, true)
    }

    /// The SQL of the join with its prepared values written in as this join writes them
    /// (see `json_value_sql`).
    pub fn to_sql_string(&self, model: &Model) -> (r: Result<String, ArelError>)
        requires
            self.spec_to_sql(*model) matches Ok(s) ==> placeholders_fit_with(s, true),
        ensures
            str_result(r) == match self.spec_to_sql(*model) {
                Ok(s) => sql_render_with(s, true),
                Err(e) => Err(e),
            },
    {
        let sql = self.to_sql(model)?;
        sql.to_sql_string_with(true)
    }
}

impl StatementAble for Join {
    /// The pieces of the join separated by spaces.
    open spec fn spec_to_sql(&self, model: Model) -> Result<SqlV, ArelError> {
        match default_sub_sqls(Some(self.value@)) {
            Ok(subs) => Ok(sql_join(subs, " "@)),
            Err(e) => Err(e),
        }
    }

    fn to_sql(&self, model: &Model) -> (r: Result<Sql, ArelError>) {
        let subs = default_to_sub_sqls(Some(&self.value))?;
        Ok(to_sql_with_concat(&subs, " "))
    }
}

} // verus!
