use vstd::prelude::*;
use crate::error::ArelError;
use crate::collectors::Sql;
use crate::methods::Model;
use crate::statements::{StatementAble, str_result, sql_result, rendered, renders};
use crate::statements::helpers::{inject_join, joined_sql};

verus! {

/// The conditions of `children` joined by `AND`.
pub fn to_sql<S: StatementAble>(children: &Vec<S>, model: &Model) -> (r: Result<Sql, ArelError>)
    ensures
        sql_result(r) == joined_sql(*model, children@, " AND "@),
{
    inject_join(children, model, " AND ")
}

/// The conditions of `children` joined by `AND`, with their prepared values written in.
pub fn to_sql_string<S: StatementAble>(children: &Vec<S>, model: &Model) -> (r: Result<
    String,
    ArelError,
>)
    requires
        renders(joined_sql(*model, children@, " AND "@)),
    ensures
        str_result(r) == rendered(joined_sql(*model, children@, " AND "@)),
{
    let sql = to_sql(children, model)?;
    sql.to_sql_string()
}

} // verus!
