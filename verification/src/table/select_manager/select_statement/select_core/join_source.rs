use vstd::prelude::*;
use crate::error::ArelError;
use crate::json::Json;
use crate::collectors::Sql;
use crate::collectors::sql::placeholders_fit;
use crate::methods::Model;
use crate::statements::{StatementAble, str_result, sql_result, rendered, renders};
use crate::statements::join::Join;

verus! {

/// The join of a select's source.
#[derive(Debug)]
pub struct JoinSource {
    pub join: Join,
}

impl JoinSource {
    pub fn new(condition: Json) -> (r: Self)
        ensures
            r == (Self { join: Join { value: condition } }),
    {
        Self { join: Join::new(condition) }
    }

    /// The SQL of the join.
    pub fn to_sql(&self, model: &Model) -> (r: Result<Sql, ArelError>)
        ensures
            sql_result(r) == self.join.spec_to_sql(*model),
    {
        self.join.to_sql(model)
    }

    /// The SQL of the join, with its prepared values written in.
    pub fn to_sql_string(&self, model: &Model) -> (r: Result<String, ArelError>)
        requires
            renders(self.join.spec_to_sql(*model)),
        ensures
            str_result(r) == rendered(self.join.spec_to_sql(*model)),
    {
        let sql = self.to_sql(model)?;
        sql.to_sql_string()
    }
}

} // verus!
