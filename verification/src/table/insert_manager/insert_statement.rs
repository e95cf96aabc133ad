use vstd::prelude::*;
use crate::error::ArelError;
use crate::json::Json;
use crate::collectors::Sql;
use crate::collectors::sql::{SqlV, opt_sql_result, prefixed};
use crate::methods::Model;
use crate::statements::StatementAble;
use crate::statements::insert::Insert;
use crate::statements::helpers::opt_statement_sql;

verus! {

/// An `INSERT` statement.
#[derive(Debug)]
pub struct InsertStatement {
    pub insert: Option<Insert>,
}

/// `INSERT INTO` and the insert's target and row, where there is one.
pub open spec fn insert_statement_sql(m: Model, s: InsertStatement) -> Result<Option<SqlV>, ArelError> {
    match opt_statement_sql(m, s.insert) {
        Ok(Some(v)) => Ok(Some(SqlV { value: "INSERT INTO "@ + v.value, prepare: v.prepare })),
        other => other,
    }
}

impl Default for InsertStatement {
    fn default() -> (r: Self)
        ensures
            r.insert is None,
    {
        Self { insert: None }
    }
}

impl InsertStatement {
    /// Inserts the row `condition`, in place of any earlier row.
    pub fn insert(&mut self, condition: Json) -> (r: &mut Self)
        ensures
            *r == (InsertStatement { insert: Some(Insert { value: condition }) }),
            *final(self) == *final(r),
    {
        self.insert = Some(Insert::new(condition));
        self
    }

    /// `INSERT INTO` and the row, where there is one.
    pub fn get_insert_sql(&self, model: &Model) -> (r: Result<Option<Sql>, ArelError>)
        ensures
            opt_sql_result(r) == insert_statement_sql(*model, *self),
    {
        match &self.insert {
            Some(insert) => {
                let collector = insert.to_sql(model)?;
                Ok(Some(collector.prefixed_with("INSERT INTO ")))
            },
            None => Ok(None),
        }
    }
}

} // verus!
