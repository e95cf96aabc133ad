use vstd::prelude::*;
use crate::error::ArelError;
use crate::json::Json;
use crate::collectors::Sql;
use crate::collectors::sql::{SqlV, sql_join};
use crate::methods::Model;
use crate::statements::{
    StatementAble, str_result, sql_result, default_sub_sqls, default_to_sub_sqls,
    to_sql_with_concat, value_sql, default_value_sql_string_from_json,
};

verus! {

/// A locking clause, described by JSON (such as `"FOR UPDATE"`).
#[derive(Debug)]
pub struct Lock {
    pub value: Json,
}

impl Lock {
    pub fn new(value: Json) -> (r: Self)
        ensures
            r == (Self { value }),
    {
        Self { value }
    }

    /// The JSON that describes the lock.
    pub fn json_value(&self) -> (r: Option<&Json>)
        ensures
            r == Some(&self.value),
    {
        Some(&self.value)
    }

    /// The SQL of a value of this lock: strings as they are.
    pub fn value_sql_string_from_json(json_value: &Json) -> (r: Result<String, ArelError>)
        ensures
            str_result(r) == value_sql(json_value@, true),
    {
        default_value_sql_string_from_json(json_value, true)
    }
}

impl StatementAble for Lock {
    /// The pieces of the lock separated by spaces.
    open spec fn spec_to_sql(&self, model: Model) -> Result<SqlV, ArelError> {
        match default_sub_sqls(Some(self.value@)) {
            Ok(subs) => Ok(sql_join(subs, " "@)),
            Err(e) => Err(e),
        }
    }

    fn to_sql(&self, model: &Model) -> (r: Result<Sql, ArelError>) {
        let subs = default_to_sub_sqls(Some(&self.value))?;
        Ok(to_sql_with_concat(&subs, " "))
    }
}

} // verus!
