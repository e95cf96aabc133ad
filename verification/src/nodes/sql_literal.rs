use vstd::prelude::*;
use crate::json::{Json, jsons_view};
use crate::collectors::sql::prepare_view;

verus! {

/// Raw SQL, with the values of its placeholders where it has some.
#[derive(Debug)]
pub struct SqlLiteral {
    pub raw_sql: String,
    pub prepare_value: Option<Vec<Json>>,
}

impl SqlLiteral {
    /// The raw SQL `raw_sql`, without values.
    pub fn new(raw_sql: String) -> (r: Self)
        ensures
            r == (Self { raw_sql, prepare_value: None }),
    {
        Self { raw_sql, prepare_value: None }
    }

    /// The raw SQL `raw_sql` with the values `prepare_value`.
    pub fn new_with_prepare(raw_sql: String, prepare_value: Vec<Json>) -> (r: Self)
        ensures
            r == (Self { raw_sql, prepare_value: Some(prepare_value) }),
    {
        let mut sql_literal = Self::new(raw_sql);
        sql_literal.prepare_value = Some(prepare_value);
        sql_literal
    }
}

} // verus!
