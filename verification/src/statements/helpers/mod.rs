use vstd::prelude::*;
use crate::error::ArelError;
use crate::results::{collect, lemma_collect_step, lemma_collect_err_prefix};
use crate::collectors::Sql;
use crate::collectors::sql::{SqlV, sql_join};
use crate::methods::Model;
use crate::statements::{StatementAble, str_result, sql_result, sqls_view, rendered, renders};

pub mod and;

verus! {

/// The SQL of each of `list` for `model`, in order.
pub open spec fn statements_sql<S: StatementAble>(m: Model, list: Seq<S>) -> Seq<Result<SqlV, ArelError>> {
    Seq::new(list.len(), |i: int| list[i].spec_to_sql(m))
}

/// The SQL of each of `list` joined by `join_str`; the first error stops it.
pub open spec fn joined_sql<S: StatementAble>(m: Model, list: Seq<S>, join_str: Seq<char>) -> Result<
    SqlV,
    ArelError,
> {
    match collect(statements_sql(m, list)) {
        Ok(subs) => Ok(sql_join(subs, join_str)),
        Err(e) => Err(e),
    }
}

/// The SQL of the statements of `list` joined by `join_str`, where there are any.
pub open spec fn list_sql<S: StatementAble>(m: Model, list: Seq<S>, join_str: Seq<char>) -> Result<
    Option<SqlV>,
    ArelError,
> {
    if list.len() == 0 {
        Ok(None)
    } else {
        match joined_sql(m, list, join_str) {
            Ok(s) => Ok(Some(s)),
            Err(e) => Err(e),
        }
    }
}

/// The SQL of an optional statement.
pub open spec fn opt_statement_sql<S: StatementAble>(m: Model, s: Option<S>) -> Result<
    Option<SqlV>,
    ArelError,
> {
    match s {
        None => Ok(None),
        Some(x) => match x.spec_to_sql(m) {
            Ok(v) => Ok(Some(v)),
            Err(e) => Err(e),
        },
    }
}

/// The SQL of each of `list` joined by `join_str` (see `joined_sql`).
pub fn inject_join<S: StatementAble>(list: &Vec<S>, model: &Model, join_str: &str) -> (r: Result<
    Sql,
    ArelError,
>)
    ensures
        sql_result(r) == joined_sql(*model, list@, join_str@),
{
    let ghost rs = statements_sql(*model, list@);
    let mut sql_list: Vec<Sql> = Vec::new();
    let mut i: usize = 0;
    proof {
        assert(rs.take(0) =~= Seq::<Result<SqlV, ArelError>>::empty());
        assert(sqls_view(sql_list@) =~= Seq::<SqlV>::empty());
    }
    while i < list.len()
        invariant
            i <= list.len(),
            rs == statements_sql(*model, list@),
            collect(rs.take(i as int)) == Ok::<Seq<SqlV>, ArelError>(sqls_view(sql_list@)),
        decreases list.len() - i,
    {
        proof {
            lemma_collect_step(rs, i as int);
        }
        match list[i].to_sql(model) {
            Ok(sql) => {
                let ghost before = sql_list@;
                sql_list.push(sql);
                proof {
                    assert(sqls_view(sql_list@) =~= sqls_view(before).push(sql@));
                }
            },
            Err(e) => {
                proof {
                    lemma_collect_err_prefix(rs, i + 1);
                }
                return Err(e);
            },
        }
        i = i + 1;
    }
    proof {
        assert(rs.take(list.len() as int) =~= rs);
    }
    let mut collector = Sql::default();
    collector.push_from_sqls(&sql_list, join_str);
    proof {
        crate::statements::lemma_append_empty(sql_join(sqls_view(sql_list@), join_str@));
    }
    Ok(collector)
}

} // verus!
