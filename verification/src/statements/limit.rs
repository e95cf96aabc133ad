use vstd::prelude::*;
use crate::error::ArelError;
use crate::json::Json;
use crate::collectors::Sql;
use crate::collectors::sql::SqlV;
use crate::methods::Model;
use crate::statements::{StatementAble, sql_result};
use crate::text::{nat_decimal, push_u64_decimal};

verus! {

/// A `LIMIT` clause.
#[derive(Debug)]
pub struct Limit {
    pub value: usize,
}

impl Limit {
    pub fn new(value: usize) -> (r: Self)
        ensures
            r == (Self { value }),
    {
        Self { value }
    }

    /// The clause is described by a number, not by JSON.
    pub fn json_value(&self) -> (r: Option<&Json>)
        ensures
            r is None,
    {
        None
    }
}

impl StatementAble for Limit {
    /// `LIMIT` and the number.
    open spec fn spec_to_sql(&self, model: Model) -> Result<SqlV, ArelError> {
        Ok(SqlV { value: "LIMIT "@ + nat_decimal(self.value as nat), prepare: None })
    }

    fn to_sql(&self, model: &Model) -> (r: Result<Sql, ArelError>) {
        let mut sql = Sql::default();
        let mut text = String::new();
        text.append("LIMIT ");
        push_u64_decimal(&mut text, self.value as u64);
        sql.push_str(text.as_str());
        assert(sql@.value =~= "LIMIT "@ + nat_decimal(self.value as nat));
        Ok(sql)
    }
}

} // verus!
