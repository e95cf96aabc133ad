//! What holds of the library across its functions: how rendered pieces of SQL compose,
//! and how the builder's calls combine.
use vstd::prelude::*;
use crate::error::ArelError;
use crate::json::{Json, JsonV, keys_sorted};
use crate::text::{count_q, join, text_less, lemma_count_q_concat};
use crate::results::{collect, lemma_collect_ok};
use crate::collectors::sql::{SqlV, sql_append, sql_push_str, sql_join, sql_render_with, substitute};
use crate::methods::{Model, Dialect, spec_table_column_name, quoted_name};
use crate::table::{
    Table, SelectManager, has_condition_target, with_table_limit, with_table_offset, with_select,
    empty_table, is_plain_select, table_sql, projects_pk_after, select_of,
    lemma_select_sql_ignores_value,
};
use crate::table::{UpdateManager, DeleteManager};
use crate::table::select_manager::{with_join, with_select_value};
use crate::statements::StatementAble;
use crate::statements::where_clause::{Where, Ops, where_sql, where_value_sql, where_items_sql};
use crate::statements::update::Update;
use crate::records::{Field, AttrState, entry_inserted, changed_entries, column_of, opt_view, save_condition};
use crate::associations::join_table_of;
use crate::methods::{inflector_plural, inflector_snake_case};
use crate::text::{lemma_text_less_total, backquoted};
use crate::statements::{core_value_sql, value_sql};
use crate::statements::select::{Op, select_sql};
use crate::statements::where_clause::{RangeBoundV, range_sql};
use crate::statements::order::{order_sub_sqls, str_uppercase};
use crate::statements::insert::insert_sub_sqls;

verus! {

/// `s` has as many `?` placeholders as prepared values, and none where it has no values.
pub open spec fn balanced(s: SqlV) -> bool {
    match s.prepare {
        None => count_q(s.value) == 0,
        Some(p) => count_q(s.value) == p.len(),
    }
}

/// The text of `a` followed by the text of `b`; the first error stops it.
pub open spec fn then_rendered(a: Result<Seq<char>, ArelError>, b: Result<Seq<char>, ArelError>) -> Result<
    Seq<char>,
    ArelError,
> {
    match a {
        Err(e) => Err(e),
        Ok(x) => match b {
            Err(e) => Err(e),
            Ok(y) => Ok(x + y),
        },
    }
}

/// Text without placeholders is left as it is, whatever the values.
proof fn lemma_substitute_plain(s: Seq<char>, p: Seq<JsonV>, raw_strings: bool)
    requires
        count_q(s) == 0,
    ensures
        substitute(s, p, raw_strings) == Ok::<Seq<char>, ArelError>(s),
    decreases s.len(),
{
    if s.len() > 0 {
        lemma_count_q_concat(s.drop_last(), seq![s.last()]);
        assert(s.drop_last() + seq![s.last()] =~= s);
        lemma_substitute_plain(s.drop_last(), p, raw_strings);
        assert(s.drop_last().push(s.last()) =~= s);
    } else {
        assert(s =~= Seq::<char>::empty());
    }
}

/// Values after those that the placeholders of `s` use do not change its substitution.
proof fn lemma_substitute_extra_values(s: Seq<char>, p: Seq<JsonV>, q: Seq<JsonV>, raw_strings: bool)
    requires
        count_q(s) <= p.len(),
    ensures
        substitute(s, p + q, raw_strings) == substitute(s, p, raw_strings),
    decreases s.len(),
{
    if s.len() > 0 {
        lemma_count_q_concat(s.drop_last(), seq![s.last()]);
        assert(s.drop_last() + seq![s.last()] =~= s);
        lemma_substitute_extra_values(s.drop_last(), p, q, raw_strings);
    }
}

/// Substituting into `s1 + s2` the values `p + q`, where `s1` uses exactly the values
/// `p`, is substituting `p` into `s1`, then `q` into `s2`.
proof fn lemma_substitute_concat(s1: Seq<char>, s2: Seq<char>, p: Seq<JsonV>, q: Seq<JsonV>, raw_strings: bool)
    requires
        count_q(s1) == p.len(),
        count_q(s2) <= q.len(),
    ensures
        substitute(s1 + s2, p + q, raw_strings) == then_rendered(
            substitute(s1, p, raw_strings),
            substitute(s2, q, raw_strings),
        ),
    decreases s2.len(),
{
    if s2.len() == 0 {
        assert(s1 + s2 =~= s1);
        lemma_substitute_extra_values(s1, p, q, raw_strings);
        if substitute(s1, p, raw_strings) is Ok {
            let x = substitute(s1, p, raw_strings)->Ok_0;
            assert(x + Seq::<char>::empty() =~= x);
        }
    } else {
        let s2p = s2.drop_last();
        lemma_count_q_concat(s2p, seq![s2.last()]);
        assert(s2p + seq![s2.last()] =~= s2);
        lemma_substitute_concat(s1, s2p, p, q, raw_strings);
        assert((s1 + s2).drop_last() =~= s1 + s2p);
        assert((s1 + s2).last() == s2.last());
        lemma_count_q_concat(s1, s2p);
        if substitute(s1, p, raw_strings) is Ok && substitute(s2p, q, raw_strings) is Ok {
            let x = substitute(s1, p, raw_strings)->Ok_0;
            let y = substitute(s2p, q, raw_strings)->Ok_0;
            if s2.last() == '?' {
                assert((p + q)[(p.len() + count_q(s2p)) as int] == q[count_q(s2p) as int]);
                match crate::statements::value_sql(q[count_q(s2p) as int], raw_strings) {
                    Ok(v) => {
                        assert(x + y + v =~= x + (y + v));
                    },
                    Err(_) => {},
                }
            } else {
                assert((x + y).push(s2.last()) =~= x + y.push(s2.last()));
            }
        }
    }
}

/// Rendering two balanced pieces of SQL one after the other (see `sql_append`) gives
/// the first's text followed by the second's: each placeholder takes its own piece's
/// value. The pieces together stay balanced.
pub proof fn law_render_append(a: SqlV, b: SqlV, raw_strings: bool)
    requires
        balanced(a),
        balanced(b),
    ensures
        balanced(sql_append(a, b)),
        sql_render_with(sql_append(a, b), raw_strings) == then_rendered(
            sql_render_with(a, raw_strings),
            sql_render_with(b, raw_strings),
        ),
{
    lemma_count_q_concat(a.value, b.value);
    let e = Seq::<JsonV>::empty();
    match (a.prepare, b.prepare) {
        (None, None) => {},
        (Some(p), None) => {
            lemma_substitute_concat(a.value, b.value, p, e, raw_strings);
            lemma_substitute_plain(b.value, e, raw_strings);
            assert(p + e =~= p);
        },
        (None, Some(q)) => {
            lemma_substitute_concat(a.value, b.value, e, q, raw_strings);
            lemma_substitute_plain(a.value, e, raw_strings);
            assert(e + q =~= q);
        },
        (Some(p), Some(q)) => {
            lemma_substitute_concat(a.value, b.value, p, q, raw_strings);
        },
    }
}

/// The rendered texts of `parts`, joined by `sep`; the first error among them stops it.
pub open spec fn rendered_parts(parts: Seq<SqlV>, sep: Seq<char>, raw_strings: bool) -> Result<
    Seq<char>,
    ArelError,
> {
    match collect(Seq::new(parts.len(), |i: int| sql_render_with(parts[i], raw_strings))) {
        Ok(texts) => Ok(join(texts, sep)),
        Err(e) => Err(e),
    }
}

/// Rendering balanced pieces of SQL joined by a separator without placeholders (see
/// `sql_join`) gives their rendered texts joined by that separator: each placeholder
/// takes its own piece's value. The joined pieces stay balanced.
pub proof fn law_render_join(parts: Seq<SqlV>, sep: Seq<char>, raw_strings: bool)
    requires
        forall|i: int| 0 <= i < parts.len() ==> balanced(#[trigger] parts[i]),
        count_q(sep) == 0,
    ensures
        balanced(sql_join(parts, sep)),
        sql_render_with(sql_join(parts, sep), raw_strings) == rendered_parts(parts, sep, raw_strings),
    decreases parts.len(),
{
    let rs = Seq::new(parts.len(), |i: int| sql_render_with(parts[i], raw_strings));
    if parts.len() == 0 {
        assert(count_q(Seq::<char>::empty()) == 0);
        assert(join(Seq::<Seq<char>>::empty(), sep) == Seq::<char>::empty());
    } else if parts.len() == 1 {
        assert(rs.drop_last() =~= Seq::<Result<Seq<char>, ArelError>>::empty());
        assert(collect(rs.drop_last()) == Ok::<Seq<Seq<char>>, ArelError>(Seq::empty()));
        if rs[0] is Ok {
            assert(Seq::<Seq<char>>::empty().push(rs[0]->Ok_0) =~= seq![rs[0]->Ok_0]);
        }
    } else {
        let init = parts.drop_last();
        assert forall|i: int| 0 <= i < init.len() implies balanced(#[trigger] init[i]) by {
            assert(init[i] == parts[i]);
        }
        law_render_join(init, sep, raw_strings);
        let j = sql_join(init, sep);
        let sep_piece = SqlV { value: sep, prepare: None };
        assert(sql_push_str(j, sep) == sql_append(j, sep_piece)) by {
            assert(sql_push_str(j, sep).value =~= sql_append(j, sep_piece).value);
        }
        law_render_append(j, sep_piece, raw_strings);
        assert(balanced(parts.last()));
        law_render_append(sql_push_str(j, sep), parts.last(), raw_strings);
        let rs_init = Seq::new(init.len(), |i: int| sql_render_with(init[i], raw_strings));
        assert(rs.drop_last() =~= rs_init);
        if collect(rs_init) is Ok {
            lemma_collect_ok(rs_init);
            let texts = collect(rs_init)->Ok_0;
            if rs.last() is Ok {
                let t = rs.last()->Ok_0;
                assert(texts.push(t).drop_last() =~= texts);
                assert(join(texts.push(t), sep) == join(texts, sep) + sep + t);
                assert(collect(rs) == Ok::<Seq<Seq<char>>, ArelError>(texts.push(t)));
            }
        }
        assert(sql_join(parts, sep) == sql_append(sql_push_str(j, sep), parts.last()));
    }
}

/// A column name, once qualified with its table, is qualified again as it is.
pub proof fn law_table_column_name_idempotent(dialect: Dialect, table: Seq<char>, column: Seq<char>)
    ensures
        spec_table_column_name(dialect, table, spec_table_column_name(dialect, table, column))
            == spec_table_column_name(dialect, table, column),
{
    let q = spec_table_column_name(dialect, table, column);
    if column == seq!['*'] {
        if dialect != Dialect::Sqlite {
            assert(q[q.len() - 2] == '.');
            assert(q.contains('.'));
            assert(q != seq!['*']);
        }
    } else if column.contains('.') {
    } else {
        assert(q[table.len() + 2int] == '.');
        assert(q.contains('.'));
        assert(q != seq!['*']);
    }
}

/// A later limit replaces an earlier one.
pub proof fn law_limit_replaces(t: Table, first: usize, second: usize)
    requires
        has_condition_target(t),
    ensures
        with_table_limit(with_table_limit(t, first), second) == with_table_limit(t, second),
{
}

/// A later offset replaces an earlier one.
pub proof fn law_offset_replaces(t: Table, first: usize, second: usize)
    requires
        has_condition_target(t),
    ensures
        with_table_offset(with_table_offset(t, first), second) == with_table_offset(t, second),
{
}

/// The limit and the offset may be set in either order.
pub proof fn law_limit_offset_commute(t: Table, limit: usize, offset: usize)
    requires
        has_condition_target(t),
    ensures
        with_table_offset(with_table_limit(t, limit), offset) == with_table_limit(
            with_table_offset(t, offset),
            limit,
        ),
{
}

/// A later join replaces an earlier one.
pub proof fn law_join_replaces(sm: SelectManager, first: Json, second: Json)
    ensures
        with_join(with_join(sm, first), second) == with_join(sm, second),
{
}

/// A later projection replaces an earlier one.
pub proof fn law_select_replaces(sm: SelectManager, first: Json, second: Json)
    ensures
        with_select_value(with_select_value(sm, first), second) == with_select_value(sm, second),
{
}

/// Building the SQL of a table again, after a first build, gives the same SQL: the
/// first build only makes the select that restricts an update or a delete project the
/// primary key, which its SQL does not read.
pub proof fn law_to_sql_repeatable(before: Table, after: Table)
    requires
        projects_pk_after(before, after),
    ensures
        table_sql(after) == table_sql(before),
{
    if before.insert_manager is None && (before.update_manager is Some || before.delete_manager is Some)
        && before.select_manager is Some {
        let m = before.model;
        let projection = crate::table::pk_projection(m);
        lemma_select_sql_ignores_value(m, select_of(before), select_of(after).ast.core.select.value, projection);
    }
}

/// The text of the plain select of a model's table: all its columns (see
/// `spec_table_column_name` for `*`), from the quoted table, then `FOR UPDATE` where it
/// locks.
pub open spec fn plain_select_text(m: Model, locked: bool) -> Seq<char> {
    "SELECT "@ + spec_table_column_name(m.dialect, m.table_name@, seq!['*']) + " FROM "@ + quoted_name(
        m.dialect,
        m.table_name@,
    ) + if locked {
        " "@ + "FOR UPDATE"@
    } else {
        Seq::empty()
    }
}

/// The projection of all columns is the `*` of the table.
proof fn lemma_star_projection(m: Model)
    ensures
        crate::statements::select::select_sql(m, JsonV::Array(seq![JsonV::Str(seq!['*'])]), false, None)
            == Ok::<SqlV, ArelError>(
            SqlV { value: spec_table_column_name(m.dialect, m.table_name@, seq!['*']), prepare: None },
        ),
{
    let star = SqlV { value: spec_table_column_name(m.dialect, m.table_name@, seq!['*']), prepare: None };
    let items = seq![JsonV::Str(seq!['*'])];
    let entries = crate::statements::column_entries_sql(m, items);
    assert(entries[0] == Ok::<SqlV, ArelError>(star));
    crate::results::lemma_collect_all_ok(entries, seq![star]);
    assert(sql_join(seq![star], ", "@) == star);
}

/// Whatever the model, a table with a plain select (such as `Model::query` and
/// `Model::lock` build) has as SQL the select of all columns of its table, without
/// prepared values.
pub proof fn law_plain_select_sql(m: Model, sm: SelectManager, locked: bool)
    requires
        is_plain_select(sm, locked),
    ensures
        table_sql(with_select(empty_table(m), sm)) == Ok::<SqlV, ArelError>(
            SqlV { value: plain_select_text(m, locked), prepare: None },
        ),
{
    let t = quoted_name(m.dialect, m.table_name@);
    let star = spec_table_column_name(m.dialect, m.table_name@, seq!['*']);
    let c = sm.ast.core;
    lemma_star_projection(m);
    let head = SqlV { value: "SELECT "@ + star + " FROM "@ + t, prepare: None };
    assert(crate::visitors::to_sql::core_sql(m, c, c.select.value@) == Ok::<SqlV, ArelError>(head)) by {
        assert(("SELECT "@ + star) + " FROM "@ + t =~= head.value);
    }
    if locked {
        let lock_piece = SqlV { value: "FOR UPDATE"@, prepare: None };
        assert(sql_join(seq![lock_piece], " "@) == lock_piece);
        assert(head.value + " "@ + lock_piece.value =~= plain_select_text(m, locked));
    } else {
        assert(head.value =~= plain_select_text(m, locked));
    }
}

/// Whatever the model and the condition, deleting the rows that meet the condition
/// (as `Model::delete_all` does) has as SQL `DELETE FROM`, the quoted table, `WHERE`
/// and the condition's SQL with its prepared values; a condition without SQL refuses
/// the statement with its error.
pub proof fn law_delete_all_sql(m: Model, dm: DeleteManager, condition: Json)
    requires
        dm.ast.wheres@ == seq![Where { value: condition, ops: Ops::where_ops() }],
        dm.ast.orders@.len() == 0,
        dm.ast.limit is None,
        dm.ast.offset is None,
    ensures
        table_sql(Table { delete_manager: Some(dm), ..empty_table(m) }) == match where_sql(
            m,
            condition@,
            Ops::where_ops(),
        ) {
            Ok(w) => Ok(
                SqlV { value: "DELETE FROM "@ + quoted_name(m.dialect, m.table_name@) + " WHERE "@ + w.value, prepare: w.prepare },
            ),
            Err(e) => Err(e),
        },
{
    let w = Where { value: condition, ops: Ops::where_ops() };
    let list = dm.ast.wheres@;
    let rs = crate::statements::helpers::statements_sql(m, list);
    assert(rs.drop_last() =~= Seq::<Result<SqlV, ArelError>>::empty());
    assert(rs.last() == w.spec_to_sql(m));
    assert(crate::results::collect(rs.drop_last()) == Ok::<Seq<SqlV>, ArelError>(Seq::empty()));
    if where_sql(m, condition@, Ops::where_ops()) is Ok {
        let ws = where_sql(m, condition@, Ops::where_ops())->Ok_0;
        assert(Seq::<SqlV>::empty().push(ws) =~= seq![ws]);
        assert(sql_join(seq![ws], " AND "@) == ws);
        assert(Seq::<char>::empty() + "DELETE FROM "@ + quoted_name(m.dialect, m.table_name@) + " WHERE "@ + ws.value
            =~= "DELETE FROM "@ + quoted_name(m.dialect, m.table_name@) + " WHERE "@ + ws.value);
    }
}

/// Whatever the model and the assignments, updating all rows with them (as
/// `Model::update_all` does) has as SQL `UPDATE`, the quoted table, `SET` and the
/// assignments' SQL with their prepared values; assignments without SQL refuse the
/// statement with their error.
pub proof fn law_update_all_sql(m: Model, um: UpdateManager, condition: Json)
    requires
        um.ast.update == Some(Update { value: condition }),
        um.ast.wheres@.len() == 0,
        um.ast.orders@.len() == 0,
        um.ast.limit is None,
        um.ast.offset is None,
    ensures
        table_sql(Table { update_manager: Some(um), ..empty_table(m) }) == match (Update { value: condition }).spec_to_sql(m) {
            Ok(u) => Ok(
                SqlV { value: "UPDATE "@ + quoted_name(m.dialect, m.table_name@) + " SET "@ + u.value, prepare: u.prepare },
            ),
            Err(e) => Err(e),
        },
{
    if (Update { value: condition }).spec_to_sql(m) is Ok {
        let u = (Update { value: condition }).spec_to_sql(m)->Ok_0;
        let v = "UPDATE "@ + quoted_name(m.dialect, m.table_name@) + " SET "@ + u.value;
        assert(Seq::<char>::empty() + Seq::<char>::empty() + v =~= v);
    }
}

/// Adding a statement to a non-empty list of conditions, groupings or orderings adds
/// the separator and its SQL after the list's SQL: earlier statements keep their text
/// and their prepared values, and the first error among them all refuses the list.
pub proof fn law_list_appends<S: StatementAble>(m: Model, list: Seq<S>, x: S, sep: Seq<char>)
    requires
        list.len() > 0,
    ensures
        crate::statements::helpers::list_sql(m, list.push(x), sep) == match crate::statements::helpers::list_sql(
            m,
            list,
            sep,
        ) {
            Err(e) => Err(e),
            Ok(prev) => match x.spec_to_sql(m) {
                Err(e) => Err(e),
                Ok(s) => Ok(Some(sql_append(sql_push_str(prev->Some_0, sep), s))),
            },
        },
{
    let all = list.push(x);
    let rs = crate::statements::helpers::statements_sql(m, all);
    let rs_init = crate::statements::helpers::statements_sql(m, list);
    assert(rs.drop_last() =~= rs_init);
    assert(rs.last() == x.spec_to_sql(m));
    if collect(rs_init) is Ok {
        lemma_collect_ok(rs_init);
        let subs = collect(rs_init)->Ok_0;
        if x.spec_to_sql(m) is Ok {
            let s = x.spec_to_sql(m)->Ok_0;
            assert(subs.push(s).drop_last() =~= subs);
        }
    }
}

/// A raw condition (`["sql with ?", values..]`) keeps its text as written and its values
/// apart, as the prepared values of its SQL: no value is written into the text before it
/// is rendered.
pub proof fn law_raw_condition_keeps_values_apart(m: Model, raw: Seq<char>, values: Seq<JsonV>)
    ensures
        where_sql(m, JsonV::Array(seq![JsonV::Str(raw)] + values), Ops::where_ops()) == Ok::<SqlV, ArelError>(
            SqlV { value: raw, prepare: Some(values) },
        ),
{
    let a = seq![JsonV::Str(raw)] + values;
    assert(a[0] == JsonV::Str(raw));
    assert(a.skip(1) =~= values);
    let piece = SqlV { value: raw, prepare: Some(values) };
    assert(sql_join(seq![piece], " AND "@) == piece);
}

/// A comparison's text with its comparison negated: `IS NULL` becomes `IS NOT NULL`,
/// `= v` becomes `!= v`, `IN (..)` becomes `NOT IN (..)` and `BETWEEN a AND b` becomes
/// `NOT BETWEEN a AND b`.
pub open spec fn negated_comparison(t: Seq<char>) -> Seq<char> {
    if t == "IS NULL"@ {
        "IS NOT NULL"@
    } else if t.len() >= 2 && t.take(2) == "= "@ {
        "!= "@ + t.skip(2)
    } else if t.len() >= 4 && t.take(4) == "IN ("@ {
        "NOT IN ("@ + t.skip(4)
    } else if t.len() >= 8 && t.take(8) == "BETWEEN "@ {
        "NOT BETWEEN "@ + t.skip(8)
    } else {
        t
    }
}

/// Without comparison, a value's SQL does not depend on negation.
proof fn lemma_plain_value_ignores_negation(j: JsonV, is_between: bool)
    ensures
        where_value_sql(j, false, true, is_between) == where_value_sql(j, false, false, is_between),
    decreases j,
{
    if let JsonV::Array(items) = j {
        assert forall|i: int| 0 <= i < items.len() implies #[trigger] where_items_sql(items, true, is_between)[i]
            == where_items_sql(items, false, is_between)[i] by {
            lemma_plain_value_ignores_negation(items[i], is_between);
        }
        assert(where_items_sql(items, true, is_between) =~= where_items_sql(items, false, is_between));
    }
}

/// Negating a condition on a value negates its comparison and nothing else (see
/// `negated_comparison`): the value's SQL stays as it is, and a value refused one way
/// is refused the other way with the same error.
pub proof fn law_negation_flips_comparison(j: JsonV, is_between: bool)
    ensures
        where_value_sql(j, true, true, is_between) == match where_value_sql(j, true, false, is_between) {
            Ok(t) => Ok(negated_comparison(t)),
            Err(e) => Err(e),
        },
{
    reveal_strlit("IS NULL");
    reveal_strlit("IS NOT NULL");
    reveal_strlit("= ");
    reveal_strlit("!= ");
    reveal_strlit("IN (");
    reveal_strlit("NOT IN (");
    reveal_strlit("BETWEEN ");
    reveal_strlit("NOT BETWEEN ");
    match j {
        JsonV::Array(items) => {
            assert forall|i: int| 0 <= i < items.len() implies #[trigger] where_items_sql(items, true, is_between)[i]
                == where_items_sql(items, false, is_between)[i] by {
                lemma_plain_value_ignores_negation(items[i], is_between);
            }
            assert(where_items_sql(items, true, is_between) =~= where_items_sql(items, false, is_between));
            if let Ok(vs) = collect(where_items_sql(items, false, is_between)) {
                if is_between && items.len() == 2 {
                    let t = "BETWEEN "@ + vs[0] + " AND "@ + vs[1];
                    assert(t.take(8) =~= "BETWEEN "@);
                    assert(t.skip(8) =~= vs[0] + " AND "@ + vs[1]);
                    assert(t != "IS NULL"@) by {
                        assert(t[0] != "IS NULL"@[0]);
                    }
                    assert(t.take(2) != "= "@) by {
                        assert(t.take(2)[0] != "= "@[0]);
                    }
                    assert(t.take(4) != "IN ("@) by {
                        assert(t.take(4)[0] != "IN ("@[0]);
                    }
                    assert("NOT BETWEEN "@ + vs[0] + " AND "@ + vs[1] =~= "NOT BETWEEN "@ + t.skip(8));
                } else if !is_between {
                    let t = "IN ("@ + join(vs, ", "@) + ")"@;
                    assert(t.take(4) =~= "IN ("@);
                    assert(t.skip(4) =~= join(vs, ", "@) + ")"@);
                    assert(t != "IS NULL"@) by {
                        assert(t[1] != "IS NULL"@[1]);
                    }
                    assert(t.take(2) != "= "@) by {
                        assert(t.take(2)[0] != "= "@[0]);
                    }
                    assert("NOT IN ("@ + join(vs, ", "@) + ")"@ =~= "NOT IN ("@ + t.skip(4));
                }
            }
        },
        JsonV::Null => {},
        JsonV::Object(_) => {},
        _ => {
            let v = match j {
                JsonV::Str(x) => crate::text::single_quoted(x),
                JsonV::Number(x) => x,
                JsonV::Bool(b) => if b {
                    seq!['1']
                } else {
                    seq!['0']
                },
                _ => Seq::empty(),
            };
            let t = "= "@ + v;
            assert(t.take(2) =~= "= "@);
            assert(t.skip(2) =~= v);
            assert(t != "IS NULL"@) by {
                assert(t[1] == ' ');
                assert("IS NULL"@[1] == 'S');
            }
        },
    }
}

/// The value of the first entry of `es` whose key is `key`.
pub open spec fn entry_value(es: Seq<(Seq<char>, JsonV)>, key: Seq<char>) -> Option<JsonV>
    decreases es.len(),
{
    if es.len() == 0 {
        None
    } else if es[0].0 == key {
        Some(es[0].1)
    } else {
        entry_value(es.skip(1), key)
    }
}

/// Setting an entry of an object and reading it back gives the value set; every other
/// entry reads as before.
pub proof fn law_entry_inserted_reads_back(es: Seq<(Seq<char>, JsonV)>, k: Seq<char>, v: JsonV, key: Seq<char>)
    ensures
        entry_value(entry_inserted(es, k, v), key) == if key == k {
            Some(v)
        } else {
            entry_value(es, key)
        },
    decreases es.len(),
{
    let r = entry_inserted(es, k, v);
    let goal = if key == k {
        Some(v)
    } else {
        entry_value(es, key)
    };
    if es.len() == 0 {
        assert(r =~= seq![(k, v)]);
        assert(r[0] == (k, v));
        assert(r.skip(1) =~= Seq::<(Seq<char>, JsonV)>::empty());
        assert(entry_value(r.skip(1), key) == None::<JsonV>);
        assert(entry_value(r, key) == goal);
    } else if es[0].0 == k {
        assert(r =~= seq![(k, v)] + es.skip(1));
        assert(r[0] == (k, v));
        assert(r.skip(1) =~= es.skip(1));
        assert(entry_value(r, key) == goal);
    } else if text_less(k, es[0].0) {
        assert(r =~= seq![(k, v)] + es);
        assert(r[0] == (k, v));
        assert(r.skip(1) =~= es);
        assert(entry_value(r, key) == goal);
    } else {
        law_entry_inserted_reads_back(es.skip(1), k, v, key);
        assert(r =~= seq![es[0]] + entry_inserted(es.skip(1), k, v));
        assert(r[0] == es[0]);
        assert(r.skip(1) =~= entry_inserted(es.skip(1), k, v));
        assert(entry_value(r, key) == goal);
    }
}

/// The value that the last change among `attrs` to an attribute held in `column` wrote
/// there (null for a change to no value), if any changed.
pub open spec fn last_change(fields: Seq<Field>, attrs: Seq<AttrState>, column: Seq<char>) -> Option<JsonV>
    decreases attrs.len(),
{
    if attrs.len() == 0 {
        None
    } else {
        let a = attrs.last();
        if opt_view(a.current) != opt_view(a.persisted) && column_of(fields, a.attr_name@, 0) == Some(column) {
            Some(
                match a.current {
                    Some(j) => j@,
                    None => JsonV::Null,
                },
            )
        } else {
            last_change(fields, attrs.drop_last(), column)
        }
    }
}

/// The changed columns of a record (see `changed_entries`) hold, each, the value of the
/// last change made to it; a column that no change touched is absent.
pub proof fn law_changed_columns_hold_last_change(fields: Seq<Field>, attrs: Seq<AttrState>, column: Seq<char>)
    requires
        changed_entries(fields, attrs) is Ok,
    ensures
        entry_value(changed_entries(fields, attrs)->Ok_0, column) == last_change(fields, attrs, column),
    decreases attrs.len(),
{
    if attrs.len() > 0 {
        let init = attrs.drop_last();
        law_changed_columns_hold_last_change(fields, init, column);
        let a = attrs.last();
        if opt_view(a.current) != opt_view(a.persisted) {
            let es = changed_entries(fields, init)->Ok_0;
            let c = column_of(fields, a.attr_name@, 0)->Some_0;
            let v = match a.current {
                Some(j) => j@,
                None => JsonV::Null,
            };
            law_entry_inserted_reads_back(es, c, v, column);
        }
    }
}

/// Setting an entry of an object whose keys are sorted keeps them sorted; the first
/// key is then the one set or the first before.
pub proof fn law_entry_inserted_keeps_keys_sorted(es: Seq<(Seq<char>, JsonV)>, k: Seq<char>, v: JsonV)
    requires
        keys_sorted(es),
    ensures
        keys_sorted(entry_inserted(es, k, v)),
        entry_inserted(es, k, v).len() > 0,
        entry_inserted(es, k, v)[0].0 == k || (es.len() > 0 && entry_inserted(es, k, v)[0].0 == es[0].0),
    decreases es.len(),
{
    let r = entry_inserted(es, k, v);
    if es.len() == 0 {
        assert(r =~= seq![(k, v)]);
    } else if es[0].0 == k {
        assert(r =~= seq![(k, v)] + es.skip(1));
        assert forall|i: int| 0 <= i < r.len() - 1 implies text_less(#[trigger] r[i].0, r[i + 1].0) by {
            assert(r[i].0 == es[i].0);
            assert(r[i + 1] == es[i + 1]);
        }
    } else if text_less(k, es[0].0) {
        assert(r =~= seq![(k, v)] + es);
        assert forall|i: int| 0 <= i < r.len() - 1 implies text_less(#[trigger] r[i].0, r[i + 1].0) by {
            if i > 0 {
                assert(r[i] == es[i - 1]);
                assert(r[i + 1] == es[i]);
            }
        }
    } else {
        let rest = es.skip(1);
        assert forall|i: int| 0 <= i < rest.len() - 1 implies text_less(#[trigger] rest[i].0, rest[i + 1].0) by {
            assert(rest[i] == es[i + 1]);
            assert(rest[i + 1] == es[i + 2]);
        }
        law_entry_inserted_keeps_keys_sorted(rest, k, v);
        let ri = entry_inserted(rest, k, v);
        assert(r =~= seq![es[0]] + ri);
        crate::text::lemma_text_less_total(k, es[0].0);
        if rest.len() > 0 && ri[0].0 == rest[0].0 {
            assert(rest[0] == es[1]);
        }
        assert forall|i: int| 0 <= i < r.len() - 1 implies text_less(#[trigger] r[i].0, r[i + 1].0) by {
            if i > 0 {
                assert(r[i] == ri[i - 1]);
                assert(r[i + 1] == ri[i]);
            }
        }
    }
}

/// The changed columns of a record (see `changed_entries`) have their keys sorted, as
/// the object that serde_json's map gives.
pub proof fn law_changed_entries_keys_sorted(fields: Seq<Field>, attrs: Seq<AttrState>)
    requires
        changed_entries(fields, attrs) is Ok,
    ensures
        keys_sorted(changed_entries(fields, attrs)->Ok_0),
    decreases attrs.len(),
{
    if attrs.len() > 0 {
        let init = attrs.drop_last();
        law_changed_entries_keys_sorted(fields, init);
        let a = attrs.last();
        if opt_view(a.current) != opt_view(a.persisted) {
            let es = changed_entries(fields, init)->Ok_0;
            let c = column_of(fields, a.attr_name@, 0)->Some_0;
            let v = match a.current {
                Some(j) => j@,
                None => JsonV::Null,
            };
            law_entry_inserted_keeps_keys_sorted(es, c, v);
        }
    }
}

/// The condition of updating a saved record (see `save_condition`) has its keys sorted.
pub proof fn law_save_condition_keys_sorted(
    locking_condition: Option<(Seq<char>, JsonV)>,
    primary_key: Seq<char>,
    primary_key_value: JsonV,
)
    ensures
        keys_sorted(save_condition(locking_condition, primary_key, primary_key_value)),
{
    let base = match locking_condition {
        Some((c, v)) => seq![(c, v)],
        None => Seq::<(Seq<char>, JsonV)>::empty(),
    };
    law_entry_inserted_keeps_keys_sorted(base, primary_key, primary_key_value);
}

/// Of two texts, at most one comes before the other.
proof fn lemma_text_less_asymmetric(a: Seq<char>, b: Seq<char>)
    ensures
        !(text_less(a, b) && text_less(b, a)),
    decreases a.len(),
{
    if a.len() > 0 && b.len() > 0 && a[0] == b[0] {
        lemma_text_less_asymmetric(a.skip(1), b.skip(1));
    }
}

/// The default join table of two structs does not depend on which side declares the
/// association, and is the two plural snake-case names joined by `_`, the one that
/// comes first in the order of `<` on strings first.
pub proof fn law_join_table_sorted(self_struct: Seq<char>, name: Seq<char>)
    ensures
        join_table_of(self_struct, name) == join_table_of(name, self_struct),
        ({
            let a = inflector_plural(inflector_snake_case(self_struct));
            let b = inflector_plural(inflector_snake_case(name));
            let t = join_table_of(self_struct, name);
            ||| t == a + "_"@ + b && !text_less(b, a)
            ||| t == b + "_"@ + a && !text_less(a, b)
        }),
{
    let a = inflector_plural(inflector_snake_case(self_struct));
    let b = inflector_plural(inflector_snake_case(name));
    lemma_text_less_asymmetric(a, b);
    lemma_text_less_total(a, b);
}

/// Counting a projection wraps the projection itself in `COUNT(..)`: a distinct
/// projection is counted as `COUNT(DISTINCT ..)` of its columns, and counting succeeds
/// exactly when the projection does.
pub proof fn law_count_wraps_projection(m: Model, value: JsonV, distinct: bool)
    ensures
        select_sql(m, value, distinct, Some(Op::Count)) is Ok <==> select_sql(m, value, distinct, None) is Ok,
        select_sql(m, value, distinct, None) matches Ok(p) ==> select_sql(m, value, distinct, Some(Op::Count))
            == Ok::<SqlV, ArelError>(SqlV { value: "COUNT("@ + p.value + ")"@, prepare: p.prepare }),
        select_sql(m, value, false, None) matches Ok(p) ==> select_sql(m, value, true, Some(Op::Count))
            == Ok::<SqlV, ArelError>(
            SqlV { value: "COUNT(DISTINCT "@ + p.value + ")"@, prepare: p.prepare },
        ),
{
    reveal_strlit("COUNT(");
    reveal_strlit("COUNT");
    reveal_strlit("(");
    reveal_strlit("DISTINCT ");
    reveal_strlit("COUNT(DISTINCT ");
    if let Ok(p) = select_sql(m, value, distinct, None) {
        assert("COUNT"@ + "("@ + p.value + ")"@ =~= "COUNT("@ + p.value + ")"@);
    }
    if let Ok(p) = select_sql(m, value, false, None) {
        assert("COUNT"@ + "("@ + ("DISTINCT "@ + p.value) + ")"@ =~= "COUNT(DISTINCT "@ + p.value + ")"@);
    }
}

/// A bound of a range that includes its value (`included`) or excludes it.
pub open spec fn range_bound(included: bool, j: JsonV) -> RangeBoundV {
    if included {
        RangeBoundV::Included(j)
    } else {
        RangeBoundV::Excluded(j)
    }
}

/// A range bounded at both ends writes each end as its SQL literal, the one that every
/// statement writes for that value: `BETWEEN` when both ends are included, else the two
/// comparisons joined by `AND`, which are the conditions of the range open above and of
/// the range open below.
pub proof fn law_range_bounds_are_literals(
    column: Seq<char>,
    start_included: bool,
    start: JsonV,
    end_included: bool,
    end: JsonV,
    sv: Seq<char>,
    ev: Seq<char>,
)
    requires
        core_value_sql(start) == Ok::<Seq<char>, ArelError>(sv),
        core_value_sql(end) == Ok::<Seq<char>, ArelError>(ev),
    ensures
        range_sql(column, range_bound(start_included, start), RangeBoundV::Unbounded) == Ok::<
            Seq<char>,
            ArelError,
        >(column + (if start_included { " >= "@ } else { " > "@ }) + sv),
        range_sql(column, RangeBoundV::Unbounded, range_bound(end_included, end)) == Ok::<
            Seq<char>,
            ArelError,
        >(column + (if end_included { " <= "@ } else { " < "@ }) + ev),
        start_included && end_included ==> range_sql(
            column,
            range_bound(start_included, start),
            range_bound(end_included, end),
        ) == Ok::<Seq<char>, ArelError>(column + " BETWEEN "@ + sv + " AND "@ + ev),
        !(start_included && end_included) ==> range_sql(
            column,
            range_bound(start_included, start),
            range_bound(end_included, end),
        ) == Ok::<Seq<char>, ArelError>(
            range_sql(column, range_bound(start_included, start), RangeBoundV::Unbounded)->Ok_0 + " AND "@
                + range_sql(column, RangeBoundV::Unbounded, range_bound(end_included, end))->Ok_0,
        ),
{
    let s = range_bound(start_included, start);
    let e = range_bound(end_included, end);
    assert(range_sql(column, s, e) == range_sql(column, s, e));
    if !(start_included && end_included) {
        assert(column + lower_op_of(start_included) + sv + " AND "@ + (column + upper_op_of(end_included) + ev)
            =~= column + lower_op_of(start_included) + sv + " AND "@ + column + upper_op_of(end_included) + ev);
    }
}

spec fn lower_op_of(included: bool) -> Seq<char> {
    if included { " >= "@ } else { " > "@ }
}

spec fn upper_op_of(included: bool) -> Seq<char> {
    if included { " <= "@ } else { " < "@ }
}

/// A string end of a range is written between single quotes.
pub proof fn law_range_string_bounds_quoted(
    column: Seq<char>,
    start_included: bool,
    start: Seq<char>,
    end_included: bool,
    end: Seq<char>,
)
    requires
        !(start_included && end_included),
    ensures
        range_sql(
            column,
            range_bound(start_included, JsonV::Str(start)),
            range_bound(end_included, JsonV::Str(end)),
        ) == Ok::<Seq<char>, ArelError>(
            column + (if start_included { " >= "@ } else { " > "@ }) + seq!['\''] + start + seq!['\''] + " AND "@
                + column + (if end_included { " <= "@ } else { " < "@ }) + seq!['\''] + end + seq!['\''],
        ),
{
    let sv = seq!['\''] + start + seq!['\''];
    let ev = seq!['\''] + end + seq!['\''];
    law_range_bounds_are_literals(column, start_included, JsonV::Str(start), end_included, JsonV::Str(end), sv, ev);
    let a = column + (if start_included { " >= "@ } else { " > "@ });
    let b = column + (if end_included { " <= "@ } else { " < "@ });
    assert(a + sv + " AND "@ + (b + ev) =~= a + seq!['\''] + start + seq!['\''] + " AND "@ + column
        + (if end_included { " <= "@ } else { " < "@ }) + seq!['\''] + end + seq!['\'']);
}

/// Ordering by an object writes, for each entry whose direction is a string, the
/// column, a space, and the direction as given in upper case, whatever its spelling.
pub proof fn law_order_direction_upper_case(m: Model, entries: Seq<(Seq<char>, JsonV)>, i: int, direction: Seq<char>)
    requires
        0 <= i < entries.len(),
        entries[i].1 == JsonV::Str(direction),
        order_sub_sqls(m, JsonV::Object(entries)) is Ok,
    ensures
        order_sub_sqls(m, JsonV::Object(entries))->Ok_0.len() == entries.len(),
        order_sub_sqls(m, JsonV::Object(entries))->Ok_0[i] == (SqlV {
            value: spec_table_column_name(m.dialect, m.table_name@, entries[i].0) + " "@ + str_uppercase(direction),
            prepare: None,
        }),
{
    lemma_collect_ok(crate::statements::order::order_entries_sql(m, entries));
}

/// Ordering by an object whose directions are all strings always succeeds.
pub proof fn law_order_by_directions_succeeds(m: Model, entries: Seq<(Seq<char>, JsonV)>)
    requires
        forall|k: int| 0 <= k < entries.len() ==> (#[trigger] entries[k]).1 is Str,
    ensures
        order_sub_sqls(m, JsonV::Object(entries)) is Ok,
{
    let rs = crate::statements::order::order_entries_sql(m, entries);
    let bs = Seq::new(entries.len(), |k: int| rs[k]->Ok_0);
    assert forall|k: int| 0 <= k < rs.len() implies rs[k] == Ok::<SqlV, ArelError>(#[trigger] bs[k]) by {
        assert(entries[k].1 is Str);
    }
    crate::results::lemma_collect_all_ok(rs, bs);
}

/// An insert of a row with columns writes the quoted table, the columns between
/// backticks, and each value as the same SQL literal that every other statement writes
/// for it (a null as the bare keyword `NULL`).
pub proof fn law_insert_writes_value_literals(m: Model, entries: Seq<(Seq<char>, JsonV)>, values: Seq<Seq<char>>)
    requires
        entries.len() > 0,
        values.len() == entries.len(),
        forall|k: int| 0 <= k < entries.len() ==> value_sql(#[trigger] entries[k].1, false) == Ok::<
            Seq<char>,
            ArelError,
        >(values[k]),
    ensures
        insert_sub_sqls(m, JsonV::Object(entries)) == Ok::<Seq<SqlV>, ArelError>(
            seq![
                SqlV {
                    value: quoted_name(m.dialect, m.table_name@) + " ("@ + join(
                        Seq::new(entries.len(), |k: int| backquoted(entries[k].0)),
                        ", "@,
                    ) + ") VALUES ("@ + join(values, ", "@) + ")"@,
                    prepare: None,
                },
            ],
        ),
{
    let rs = crate::statements::insert::insert_values(entries);
    assert forall|k: int| 0 <= k < rs.len() implies rs[k] == Ok::<Seq<char>, ArelError>(#[trigger] values[k]) by {
        assert(value_sql(entries[k].1, false) == Ok::<Seq<char>, ArelError>(values[k]));
    }
    crate::results::lemma_collect_all_ok(rs, values);
    assert(crate::statements::insert::insert_keys(entries) =~= Seq::new(
        entries.len(),
        |k: int| backquoted(entries[k].0),
    ));
}

/// An insert of a row without columns writes `DEFAULT VALUES` for SQLite and
/// `VALUES ()` otherwise, after the quoted table.
pub proof fn law_insert_empty_row(m: Model)
    ensures
        insert_sub_sqls(m, JsonV::Object(Seq::empty())) == Ok::<Seq<SqlV>, ArelError>(
            seq![
                SqlV {
                    value: quoted_name(m.dialect, m.table_name@) + (if m.dialect == Dialect::Sqlite {
                        " DEFAULT VALUES"@
                    } else {
                        " VALUES ()"@
                    }),
                    prepare: None,
                },
            ],
        ),
{
    let rs = crate::statements::insert::insert_values(Seq::<(Seq<char>, JsonV)>::empty());
    crate::results::lemma_collect_all_ok(rs, Seq::<Seq<char>>::empty());
}

/// The literal of a null value is the bare keyword `NULL`.
pub proof fn law_null_literal()
    ensures
        value_sql(JsonV::Null, false) == Ok::<Seq<char>, ArelError>("NULL"@),
        core_value_sql(JsonV::Null) == Ok::<Seq<char>, ArelError>("NULL"@),
{
}

} // verus!
