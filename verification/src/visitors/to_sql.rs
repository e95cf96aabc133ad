use vstd::prelude::*;
use crate::error::ArelError;
use crate::json::JsonV;
use crate::collectors::Sql;
use crate::collectors::sql::{SqlV, sql_append, sql_push_str, sql_empty, clause, with_text};
use crate::methods::{Model, quote_table_name, quoted_name, spec_table_column_name, table_column_name};
use crate::text::{backquoted, push_backquoted};
use crate::table::insert_manager::InsertManager;
use crate::table::insert_manager::insert_statement::insert_statement_sql;
use crate::table::update_manager::UpdateManager;
use crate::table::update_manager::update_statement::update_statement_sql;
use crate::table::delete_manager::DeleteManager;
use crate::statements::helpers::{list_sql, opt_statement_sql};
use crate::table::select_manager::SelectManager;
use crate::table::select_manager::select_statement::select_core::{
    SelectCore, core_select_sql, core_joins_sql, core_where_sql, core_group_sql, core_having_sql,
};

verus! {

/// `new` is `old` followed by the built `built`, where it was built; else `r` is its error.
pub open spec fn appended(old: SqlV, built: Result<SqlV, ArelError>, r: Result<(), ArelError>, new: SqlV) -> bool {
    match built {
        Ok(s) => r is Ok && new == sql_append(old, s),
        Err(e) => r == Err::<(), ArelError>(e),
    }
}

/// The SQL of a select core, its projection described by `value`: `SELECT` and the
/// projection, `FROM` and the quoted table, then the join, `WHERE` and the conditions,
/// `GROUP BY` and the groupings, `HAVING` and the group conditions, each where present;
/// the first error stops it.
pub open spec fn core_sql(m: Model, c: SelectCore, value: JsonV) -> Result<SqlV, ArelError> {
    clause(
        clause(
            clause(
                clause(
                    with_text(
                        with_text(core_select_sql(m, c, value), " FROM "@),
                        quoted_name(m.dialect, m.table_name@),
                    ),
                    " "@,
                    core_joins_sql(m, c),
                ),
                " WHERE "@,
                core_where_sql(m, c),
            ),
            " GROUP BY "@,
            core_group_sql(m, c),
        ),
        " HAVING "@,
        core_having_sql(m, c),
    )
}

/// The SQL of a select, its projection described by `value`: its core, then `ORDER BY`
/// and the orderings, the limit, the offset and the lock, each where present.
pub open spec fn select_manager_sql(m: Model, sm: SelectManager, value: JsonV) -> Result<
    SqlV,
    ArelError,
> {
    clause(
        clause(
            clause(
                clause(core_sql(m, sm.ast.core, value), " ORDER BY "@, list_sql(m, sm.ast.orders@, ", "@)),
                " "@,
                opt_statement_sql(m, sm.ast.limit),
            ),
            " "@,
            opt_statement_sql(m, sm.ast.offset),
        ),
        " "@,
        opt_statement_sql(m, sm.ast.lock),
    )
}

/// Appends the SQL of `core` to `sql` (see `core_sql`).
fn visit_arel_select_core(core: &SelectCore, model: &Model, sql: &mut Sql) -> (r: Result<(), ArelError>)
    ensures
        appended(old(sql)@, core_sql(*model, *core, core.select.value@), r, final(sql)@),
{
    let mut out = core.get_select_sql(model)?;
    out.push_str(" FROM ");
    out.push_str(quote_table_name(model.table_name.as_str(), model.dialect).as_str());
    if let Some(sub_sql) = core.get_joins_sql(model)? {
        out.push_clause(" ", &sub_sql);
    }
    if let Some(sub_sql) = core.get_where_sql(model)? {
        out.push_clause(" WHERE ", &sub_sql);
    }
    if let Some(sub_sql) = core.get_group_sql(model)? {
        out.push_clause(" GROUP BY ", &sub_sql);
    }
    if let Some(sub_sql) = core.get_having_sql(model)? {
        out.push_clause(" HAVING ", &sub_sql);
    }
    sql.push_from_sql(&out);
    Ok(())
}

/// Appends the SQL of `select_manager` to `sql` (see `select_manager_sql`).
pub fn accept_select_manager(select_manager: &SelectManager, model: &Model, sql: &mut Sql) -> (r:
    Result<(), ArelError>)
    ensures
        appended(
            old(sql)@,
            select_manager_sql(*model, *select_manager, select_manager.ast.core.select.value@),
            r,
            final(sql)@,
        ),
{
    let ast = &select_manager.ast;
    let mut out = Sql::default();
    visit_arel_select_core(&ast.core, model, &mut out)?;
    proof {
        crate::statements::lemma_append_empty(core_sql(*model, ast.core, ast.core.select.value@)->Ok_0);
    }
    if let Some(sub_sql) = ast.get_order_sql(model)? {
        out.push_clause(" ORDER BY ", &sub_sql);
    }
    if let Some(sub_sql) = ast.get_limit_sql(model)? {
        out.push_clause(" ", &sub_sql);
    }
    if let Some(sub_sql) = ast.get_offset_sql(model)? {
        out.push_clause(" ", &sub_sql);
    }
    if let Some(sub_sql) = ast.get_lock_sql(model)? {
        out.push_clause(" ", &sub_sql);
    }
    sql.push_from_sql(&out);
    Ok(())
}

/// The select manager that an optional reference points to.
pub open spec fn deref_opt(sm: Option<&SelectManager>) -> Option<SelectManager> {
    match sm {
        Some(x) => Some(*x),
        None => None,
    }
}

/// The condition that the primary key lies among the rows of the select `sm`, its
/// projection described by `projection`: the qualified primary key, `IN`, and the
/// select's text (its prepared values left out) as a derived table whose primary key
/// is selected; none without a select.
pub open spec fn subquery_sql(m: Model, sm: Option<SelectManager>, projection: JsonV) -> Result<
    Option<Seq<char>>,
    ArelError,
> {
    match sm {
        None => Ok(None),
        Some(s) => match select_manager_sql(m, s, projection) {
            Err(e) => Err(e),
            Ok(q) => Ok(
                Some(
                    spec_table_column_name(m.dialect, m.table_name@, m.primary_key@) + " IN ("@ + "SELECT "@
                        + backquoted(m.primary_key@) + " FROM ("@ + q.value
                        + ") AS __arel_subquery_temp"@ + ")"@,
                ),
            ),
        },
    }
}

/// `acc` followed, where `sub` is present, by `AND` (after conditions) or `WHERE`
/// (without them) and `sub`; the first error stops it.
pub open spec fn with_subquery(
    acc: Result<SqlV, ArelError>,
    exists_where: bool,
    sub: Result<Option<Seq<char>>, ArelError>,
) -> Result<SqlV, ArelError> {
    match acc {
        Err(e) => Err(e),
        Ok(a) => match sub {
            Err(e) => Err(e),
            Ok(None) => Ok(a),
            Ok(Some(q)) => Ok(sql_push_str(a, (if exists_where { " AND "@ } else { " WHERE "@ }) + q)),
        },
    }
}

/// The SQL of an insert: its statement, where it has a row.
pub open spec fn insert_manager_sql(m: Model, im: InsertManager) -> Result<SqlV, ArelError> {
    clause(Ok(sql_empty()), Seq::empty(), insert_statement_sql(m, im.ast))
}

/// The SQL of an update: its assignments, then `WHERE` and the conditions, `ORDER BY`
/// and the orderings, the limit and the offset, each where present, then the condition
/// that the rows are among those of the select `sm` (see `subquery_sql`).
pub open spec fn update_manager_sql(m: Model, um: UpdateManager, sm: Option<SelectManager>, projection: JsonV) -> Result<
    SqlV,
    ArelError,
> {
    with_subquery(
        clause(
            clause(
                clause(
                    clause(
                        clause(Ok(sql_empty()), Seq::empty(), update_statement_sql(m, um.ast)),
                        " WHERE "@,
                        list_sql(m, um.ast.wheres@, " AND "@),
                    ),
                    " ORDER BY "@,
                    list_sql(m, um.ast.orders@, ", "@),
                ),
                " "@,
                opt_statement_sql(m, um.ast.limit),
            ),
            " "@,
            opt_statement_sql(m, um.ast.offset),
        ),
        um.ast.wheres@.len() > 0,
        subquery_sql(m, sm, projection),
    )
}

/// The SQL of a delete: `DELETE FROM` and the quoted table, then `WHERE` and the
/// conditions, `ORDER BY` and the orderings, the limit and the offset, each where
/// present, then the condition that the rows are among those of the select `sm`.
pub open spec fn delete_manager_sql(m: Model, dm: DeleteManager, sm: Option<SelectManager>, projection: JsonV) -> Result<
    SqlV,
    ArelError,
> {
    with_subquery(
        clause(
            clause(
                clause(
                    clause(
                        Ok(SqlV { value: "DELETE FROM "@ + quoted_name(m.dialect, m.table_name@), prepare: None }),
                        " WHERE "@,
                        list_sql(m, dm.ast.wheres@, " AND "@),
                    ),
                    " ORDER BY "@,
                    list_sql(m, dm.ast.orders@, ", "@),
                ),
                " "@,
                opt_statement_sql(m, dm.ast.limit),
            ),
            " "@,
            opt_statement_sql(m, dm.ast.offset),
        ),
        dm.ast.wheres@.len() > 0,
        subquery_sql(m, sm, projection),
    )
}

/// The condition that the primary key lies among the rows of `subquery_select_manager`,
/// where there is one (see `subquery_sql`).
fn accept_subquery_select_manager(subquery_select_manager: Option<&SelectManager>, model: &Model) -> (r:
    Result<Option<String>, ArelError>)
    ensures
        match subquery_sql(
            *model,
            deref_opt(subquery_select_manager),
            match subquery_select_manager {
                Some(x) => x.ast.core.select.value@,
                None => JsonV::Null,
            },
        ) {
            Ok(Some(q)) => r matches Ok(Some(s)) && s@ == q,
            Ok(None) => r matches Ok(None),
            Err(e) => r == Err::<Option<String>, ArelError>(e),
        },
{
    match subquery_select_manager {
        Some(sm) => {
            let mut select_collector = Sql::default();
            accept_select_manager(sm, model, &mut select_collector)?;
            proof {
                crate::statements::lemma_append_empty(
                    select_manager_sql(*model, *sm, sm.ast.core.select.value@)->Ok_0,
                );
            }
            let mut out = table_column_name(model, model.primary_key.as_str());
            out.append(" IN (");
            out.append("SELECT ");
            push_backquoted(&mut out, model.primary_key.as_str());
            out.append(" FROM (");
            out.append(select_collector.value.as_str());
            out.append(") AS __arel_subquery_temp");
            out.append(")");
            Ok(Some(out))
        },
        None => Ok(None),
    }
}

/// Appends `prefix` and the subquery condition, where there is one.
fn push_subquery(sql: &mut Sql, exists_where: bool, subquery: &String)
    ensures
        final(sql)@ == sql_push_str(old(sql)@, (if exists_where { " AND "@ } else { " WHERE "@ }) + subquery@),
{
    if exists_where {
        sql.push_str(" AND ");
    } else {
        sql.push_str(" WHERE ");
    }
    sql.push_str(subquery.as_str());
    assert(sql@.value =~= old(sql)@.value + ((if exists_where { " AND "@ } else { " WHERE "@ }) + subquery@));
}

/// Appends the SQL of `update_manager`, restricted to the rows of
/// `for_update_select_manager`, to `sql` (see `update_manager_sql`).
pub fn accept_update_manager(
    update_manager: &UpdateManager,
    for_update_select_manager: Option<&SelectManager>,
    model: &Model,
    sql: &mut Sql,
) -> (r: Result<(), ArelError>)
    ensures
        appended(
            old(sql)@,
            update_manager_sql(
                *model,
                *update_manager,
                deref_opt(for_update_select_manager),
                match for_update_select_manager {
                    Some(x) => x.ast.core.select.value@,
                    None => JsonV::Null,
                },
            ),
            r,
            final(sql)@,
        ),
{
    let ast = &update_manager.ast;
    let mut out = Sql::default();
    proof {
        reveal_strlit("");
        assert(""@ =~= Seq::<char>::empty());
    }
    if let Some(sub_sql) = ast.get_update_sql(model)? {
        out.push_clause("", &sub_sql);
    }
    let mut exists_where = false;
    if let Some(sub_sql) = ast.get_where_sql(model)? {
        out.push_clause(" WHERE ", &sub_sql);
        exists_where = true;
    }
    if let Some(sub_sql) = ast.get_order_sql(model)? {
        out.push_clause(" ORDER BY ", &sub_sql);
    }
    if let Some(sub_sql) = ast.get_limit_sql(model)? {
        out.push_clause(" ", &sub_sql);
    }
    if let Some(sub_sql) = ast.get_offset_sql(model)? {
        out.push_clause(" ", &sub_sql);
    }
    if let Some(subquery) = accept_subquery_select_manager(for_update_select_manager, model)? {
        push_subquery(&mut out, exists_where, &subquery);
    }
    sql.push_from_sql(&out);
    Ok(())
}

/// Appends the SQL of `insert_manager` to `sql` (see `insert_manager_sql`).
pub fn accept_insert_manager(insert_manager: &InsertManager, model: &Model, sql: &mut Sql) -> (r:
    Result<(), ArelError>)
    ensures
        appended(old(sql)@, insert_manager_sql(*model, *insert_manager), r, final(sql)@),
{
    let ast = &insert_manager.ast;
    let mut out = Sql::default();
    proof {
        reveal_strlit("");
        assert(""@ =~= Seq::<char>::empty());
    }
    if let Some(sub_sql) = ast.get_insert_sql(model)? {
        out.push_clause("", &sub_sql);
    }
    sql.push_from_sql(&out);
    Ok(())
}

/// Appends the SQL of `delete_manager`, restricted to the rows of
/// `for_delete_select_manager`, to `sql` (see `delete_manager_sql`).
pub fn accept_delete_manager(
    delete_manager: &DeleteManager,
    for_delete_select_manager: Option<&SelectManager>,
    model: &Model,
    sql: &mut Sql,
) -> (r: Result<(), ArelError>)
    ensures
        appended(
            old(sql)@,
            delete_manager_sql(
                *model,
                *delete_manager,
                deref_opt(for_delete_select_manager),
                match for_delete_select_manager {
                    Some(x) => x.ast.core.select.value@,
                    None => JsonV::Null,
                },
            ),
            r,
            final(sql)@,
        ),
{
    let ast = &delete_manager.ast;
    let mut out = Sql::default();
    out.push_str("DELETE FROM ");
    out.push_str(quote_table_name(model.table_name.as_str(), model.dialect).as_str());
    proof {
        assert(out@.value =~= "DELETE FROM "@ + quoted_name(model.dialect, model.table_name@));
    }
    let mut exists_where = false;
    if let Some(sub_sql) = ast.get_where_sql(model)? {
        out.push_clause(" WHERE ", &sub_sql);
        exists_where = true;
    }
    if let Some(sub_sql) = ast.get_order_sql(model)? {
        out.push_clause(" ORDER BY ", &sub_sql);
    }
    if let Some(sub_sql) = ast.get_limit_sql(model)? {
        out.push_clause(" ", &sub_sql);
    }
    if let Some(sub_sql) = ast.get_offset_sql(model)? {
        out.push_clause(" ", &sub_sql);
    }
    if let Some(subquery) = accept_subquery_select_manager(for_delete_select_manager, model)? {
        push_subquery(&mut out, exists_where, &subquery);
    }
    sql.push_from_sql(&out);
    Ok(())
}

} // verus!
