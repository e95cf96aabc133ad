use vstd::prelude::*;
use crate::error::ArelError;
use crate::json::{Json, JsonV, jsons_view, clone_jsons};
use crate::statements::{value_sql, str_result, default_value_sql_string_from_json};
use crate::text::count_q;

verus! {

broadcast use vstd::std_specs::vec::group_vec_axioms;

/// A piece of SQL text together with the values of its `?` placeholders, if it has any.
#[derive(Debug)]
pub struct Sql {
    pub value: String,
    pub prepare_value: Option<Vec<Json>>,
}

/// The model of a piece of SQL: its text and the models of its prepared values.
pub struct SqlV {
    pub value: Seq<char>,
    pub prepare: Option<Seq<JsonV>>,
}

/// The models of prepared values.
pub open spec fn prepare_view(p: Option<Vec<Json>>) -> Option<Seq<JsonV>> {
    match p {
        Some(v) => Some(jsons_view(v@)),
        None => None,
    }
}

impl View for Sql {
    type V = SqlV;

    open spec fn view(&self) -> SqlV {
        SqlV { value: self.value@, prepare: prepare_view(self.prepare_value) }
    }
}

/// The empty piece of SQL.
pub open spec fn sql_empty() -> SqlV {
    SqlV { value: Seq::empty(), prepare: None }
}

/// The prepared values after `b`'s are added to `a`'s: a missing list adds nothing,
/// and a list added to a missing one stands alone.
pub open spec fn join_prepare(a: Option<Seq<JsonV>>, b: Option<Seq<JsonV>>) -> Option<Seq<JsonV>> {
    match b {
        None => a,
        Some(q) => match a {
            None => Some(q),
            Some(p) => Some(p + q),
        },
    }
}

/// `a` followed by the text `s`.
pub open spec fn sql_push_str(a: SqlV, s: Seq<char>) -> SqlV {
    SqlV { value: a.value + s, prepare: a.prepare }
}

/// `a` followed by `b`: the texts concatenated, the prepared values joined.
pub open spec fn sql_append(a: SqlV, b: SqlV) -> SqlV {
    SqlV { value: a.value + b.value, prepare: join_prepare(a.prepare, b.prepare) }
}

/// `parts` appended in order, with the text `sep` between each two neighbours.
pub open spec fn sql_join(parts: Seq<SqlV>, sep: Seq<char>) -> SqlV
    decreases parts.len(),
{
    if parts.len() == 0 {
        sql_empty()
    } else if parts.len() == 1 {
        parts[0]
    } else {
        sql_append(sql_push_str(sql_join(parts.drop_last(), sep), sep), parts.last())
    }
}

/// The model of an optional piece of SQL, or the error that stopped it.
pub open spec fn opt_sql_result(r: Result<Option<Sql>, ArelError>) -> Result<Option<SqlV>, ArelError> {
    match r {
        Ok(Some(s)) => Ok(Some(s@)),
        Ok(None) => Ok(None),
        Err(e) => Err(e),
    }
}

/// `acc` followed by the text `text`.
pub open spec fn with_text(acc: Result<SqlV, ArelError>, text: Seq<char>) -> Result<SqlV, ArelError> {
    match acc {
        Ok(a) => Ok(sql_push_str(a, text)),
        Err(e) => Err(e),
    }
}

/// `acc` followed, where `part` is present, by `prefix` and `part`; the first error
/// stops it.
pub open spec fn clause(
    acc: Result<SqlV, ArelError>,
    prefix: Seq<char>,
    part: Result<Option<SqlV>, ArelError>,
) -> Result<SqlV, ArelError> {
    match acc {
        Err(e) => Err(e),
        Ok(a) => match part {
            Err(e) => Err(e),
            Ok(None) => Ok(a),
            Ok(Some(p)) => Ok(sql_append(sql_push_str(a, prefix), p)),
        },
    }
}

/// `r` with `prefix` before its text.
pub open spec fn prefixed(prefix: Seq<char>, r: Result<SqlV, ArelError>) -> Result<SqlV, ArelError> {
    match r {
        Ok(s) => Ok(SqlV { value: prefix + s.value, prepare: s.prepare }),
        Err(e) => Err(e),
    }
}

/// `r` as a present piece.
pub open spec fn present(r: Result<SqlV, ArelError>) -> Result<Option<SqlV>, ArelError> {
    match r {
        Ok(s) => Ok(Some(s)),
        Err(e) => Err(e),
    }
}

/// `chars` with its `?` placeholders, from the left, replaced by the SQL of the
/// prepared values `p`, in order (with `raw_strings`, strings as they are); the first
/// value that has no SQL stops it.
pub open spec fn substitute(chars: Seq<char>, p: Seq<JsonV>, raw_strings: bool) -> Result<
    Seq<char>,
    ArelError,
>
    decreases chars.len(),
{
    if chars.len() == 0 {
        Ok(Seq::empty())
    } else {
        match substitute(chars.drop_last(), p, raw_strings) {
            Err(e) => Err(e),
            Ok(acc) => if chars.last() == '?' {
                match value_sql(p[count_q(chars.drop_last()) as int], raw_strings) {
                    Ok(v) => Ok(acc + v),
                    Err(e) => Err(e),
                }
            } else {
                Ok(acc.push(chars.last()))
            },
        }
    }
}

/// Rendering `sql` runs out of prepared values only where it has more placeholders than
/// values and every value has SQL; this holds where it does not.
pub open spec fn placeholders_fit_with(sql: SqlV, raw_strings: bool) -> bool {
    match sql.prepare {
        None => true,
        Some(p) => count_q(sql.value) <= p.len() || exists|j: int|
            0 <= j < p.len() && (#[trigger] value_sql(p[j], raw_strings)) is Err,
    }
}

/// Rendering `sql` with quoted strings does not run out of prepared values.
pub open spec fn placeholders_fit(sql: SqlV) -> bool {
    placeholders_fit_with(sql, false)
}

/// The text of `sql` with its placeholders replaced by its prepared values; without
/// prepared values the text as it is; an error where a value has no SQL or where the
/// text holds fewer placeholders than values.
pub open spec fn sql_render_with(sql: SqlV, raw_strings: bool) -> Result<Seq<char>, ArelError> {
    match sql.prepare {
        None => Ok(sql.value),
        Some(p) => match substitute(sql.value, p, raw_strings) {
            Err(e) => Err(e),
            Ok(raw) => if count_q(sql.value) == p.len() {
                Ok(raw)
            } else {
                Err(ArelError::PrepareCountMismatch)
            },
        },
    }
}

/// The text of `sql` with its placeholders replaced by the quoted SQL of its prepared
/// values (see `sql_render_with`).
pub open spec fn sql_render(sql: SqlV) -> Result<Seq<char>, ArelError> {
    sql_render_with(sql, false)
}

/// The SQL of a prepared value (strings quoted, arrays bracketed).
pub fn value_sql_string_from_json(json_value: &Json) -> (r: Result<String, ArelError>)
    ensures
        str_result(r) == value_sql(json_value@, false),
{
    default_value_sql_string_from_json(json_value, false)
}

impl Default for Sql {
    fn default() -> (r: Self)
        ensures
            r@ == sql_empty(),
    {
        Sql { value: String::new(), prepare_value: None }
    }
}

impl Sql {
    /// The SQL text `value`, without prepared values.
    pub fn new(value: String) -> (r: Self)
        ensures
            r@ == (SqlV { value: value@, prepare: None }),
    {
        Sql { value, prepare_value: None }
    }

    /// The SQL text `value` with the prepared values `prepare_value`.
    pub fn new_with_prepare(value: String, prepare_value: Vec<Json>) -> (r: Self)
        ensures
            r@ == (SqlV { value: value@, prepare: Some(jsons_view(prepare_value@)) }),
    {
        let mut sql = Self::new(value);
        sql.prepare_value = Some(prepare_value);
        sql
    }

    /// Appends `ch` to the text.
    pub fn push(&mut self, ch: char) -> (r: &mut Self)
        ensures
            r@ == sql_push_str(old(self)@, seq![ch]),
            *final(self) == *final(r),
    {
        self.value.push(ch);
        assert(self.value@ =~= old(self).value@ + seq![ch]);
        self
    }

    /// Appends `sub_str` to the text.
    pub fn push_str(&mut self, sub_str: &str) -> (r: &mut Self)
        ensures
            r@ == sql_push_str(old(self)@, sub_str@),
            *final(self) == *final(r),
    {
        self.value.append(sub_str);
        self
    }

    /// Adds copies of `sub_prepare_value` to the prepared values.
    pub fn push_prepare_value(&mut self, sub_prepare_value: &Vec<Json>) -> (r: &mut Self)
        ensures
            r@ == (SqlV {
                value: old(self)@.value,
                prepare: join_prepare(old(self)@.prepare, Some(jsons_view(sub_prepare_value@))),
            }),
            *final(self) == *final(r),
    {
        let added = clone_jsons(sub_prepare_value);
        match &mut self.prepare_value {
            Some(prepare_value) => {
                let ghost before = prepare_value@;
                let mut added = added;
                prepare_value.append(&mut added);
                proof {
                    assert(jsons_view(prepare_value@) =~= jsons_view(before) + jsons_view(
                        sub_prepare_value@,
                    ));
                }
            },
            None => {
                self.prepare_value = Some(added);
            },
        }
        self
    }

    /// Appends `sub_str` to the text and copies of `sub_prepare_value` to the prepared values.
    pub fn push_str_with_prepare_value(&mut self, sub_str: &str, sub_prepare_value: &Vec<Json>) -> (r:
        &mut Self)
        ensures
            r@ == sql_append(
                old(self)@,
                SqlV { value: sub_str@, prepare: Some(jsons_view(sub_prepare_value@)) },
            ),
            *final(self) == *final(r),
    {
        self.value.append(sub_str);
        self.push_prepare_value(sub_prepare_value);
        self
    }

    /// Appends `sql`: its text, and its prepared values where it has some.
    pub fn push_from_sql(&mut self, sql: &Sql) -> (r: &mut Self)
        ensures
            r@ == sql_append(old(self)@, sql@),
            *final(self) == *final(r),
    {
        match &sql.prepare_value {
            Some(prepare_value) => {
                self.push_str_with_prepare_value(sql.value.as_str(), prepare_value);
            },
            None => {
                self.push_str(sql.value.as_str());
            },
        }
        self
    }

    /// Appends each of `sqls` in order, with `join_str` between each two neighbours.
    pub fn push_from_sqls(&mut self, sqls: &Vec<Sql>, join_str: &str) -> (r: &mut Self)
        ensures
            r@ == sql_append(old(self)@, sql_join(sqls@.map_values(|s: Sql| s@), join_str@)),
            *final(self) == *final(r),
    {
        let ghost start = self@;
        let ghost parts = sqls@.map_values(|s: Sql| s@);
        let mut i: usize = 0;
        while i < sqls.len()
            invariant
                i <= sqls.len(),
                parts == sqls@.map_values(|s: Sql| s@),
                self@ == sql_append(start, sql_join(parts.take(i as int), join_str@)),
            decreases sqls.len() - i,
        {
            proof {
                assert(parts.take(i + 1).drop_last() =~= parts.take(i as int));
            }
            if i > 0 {
                self.push_str(join_str);
            }
            self.push_from_sql(&sqls[i]);
            proof {
                lemma_append_assoc(start, sql_join(parts.take(i as int), join_str@), join_str@, parts[i as int]);
            }
            i = i + 1;
        }
        proof {
            assert(parts.take(sqls.len() as int) =~= parts);
        }
        self
    }
}

impl Sql {
    /// The text with its placeholders replaced by the SQL of its prepared values, in
    /// order (see `sql_render`).
    pub fn to_sql_string(&self) -> (r: Result<String, ArelError>)
        requires
            placeholders_fit(self@),
        ensures
            str_result(r) == sql_render(self@),
    {
        self.to_sql_string_with(false)
    }

    /// The text with its placeholders replaced by the SQL of its prepared values, in
    /// order, strings as they are where `raw_strings` is set (see `sql_render_with`).
    pub fn to_sql_string_with(&self, raw_strings: bool) -> (r: Result<String, ArelError>)
        requires
            placeholders_fit_with(self@, raw_strings),
        ensures
            str_result(r) == sql_render_with(self@, raw_strings),
    {
        match &self.prepare_value {
            None => Ok(self.value.clone()),
            Some(prepare_value) => {
                let ghost p = jsons_view(prepare_value@);
                let ghost chars = self.value@;
                let mut raw_sql = String::new();
                let mut replace_idx: usize = 0;
                for c in iter: self.value.as_str().chars()
                    invariant
                        p == jsons_view(prepare_value@),
                        chars == self.value@,
                        iter.seq() == chars,
                        placeholders_fit_with(self@, raw_strings),
                        self@.prepare == Some(p),
                        replace_idx == count_q(chars.take(iter.index() as int)),
                        substitute(chars.take(iter.index() as int), p, raw_strings) == Ok::<
                            Seq<char>,
                            ArelError,
                        >(raw_sql@),
                        forall|j: int|
                            0 <= j < replace_idx ==> (#[trigger] value_sql(p[j], raw_strings)) is Ok,
                {
                    let ghost k = iter.index() as int;
                    proof {
                        assert(chars.take(k + 1).drop_last() =~= chars.take(k));
                        assert(chars.take(k + 1).last() == c);
                    }
                    if c == '?' {
                        if replace_idx >= prepare_value.len() {
                            proof {
                                lemma_count_q_prefix(chars, k + 1);
                            }
                            assert(false);
                        }
                        let v = default_value_sql_string_from_json(
                            &prepare_value[replace_idx],
                            raw_strings,
                        );
                        match v {
                            Ok(text) => {
                                raw_sql.append(text.as_str());
                            },
                            Err(e) => {
                                proof {
                                    lemma_substitute_err_prefix(chars, p, raw_strings, k + 1);
                                }
                                return Err(e);
                            },
                        }
                        replace_idx = replace_idx + 1;
                    } else {
                        raw_sql.push(c);
                    }
                }
                proof {
                    assert(chars.take(chars.len() as int) =~= chars);
                }
                if replace_idx == prepare_value.len() {
                    Ok(raw_sql)
                } else {
                    Err(ArelError::PrepareCountMismatch)
                }
            },
        }
    }
}

/// A prefix holds no more placeholders than the whole.
pub proof fn lemma_count_q_prefix(s: Seq<char>, k: int)
    requires
        0 <= k <= s.len(),
    ensures
        count_q(s.take(k)) <= count_q(s),
    decreases s.len() - k,
{
    if k < s.len() {
        lemma_count_q_prefix(s, k + 1);
        assert(s.take(k + 1).drop_last() =~= s.take(k));
    } else {
        assert(s.take(k) =~= s);
    }
}

/// Once a prefix fails to substitute, the whole fails with the same error.
pub proof fn lemma_substitute_err_prefix(s: Seq<char>, p: Seq<JsonV>, raw_strings: bool, k: int)
    requires
        0 <= k <= s.len(),
        substitute(s.take(k), p, raw_strings) is Err,
    ensures
        substitute(s, p, raw_strings) == substitute(s.take(k), p, raw_strings),
    decreases s.len() - k,
{
    if k < s.len() {
        assert(s.take(k + 1).drop_last() =~= s.take(k));
        lemma_substitute_err_prefix(s, p, raw_strings, k + 1);
    } else {
        assert(s.take(k) =~= s);
    }
}

impl Sql {
    /// Appends `prefix` and `part`.
    pub fn push_clause(&mut self, prefix: &str, part: &Sql)
        ensures
            final(self)@ == sql_append(sql_push_str(old(self)@, prefix@), part@),
    {
        self.push_str(prefix);
        self.push_from_sql(part);
    }

    /// `prefix` before the text of this SQL.
    pub fn prefixed_with(self, prefix: &str) -> (r: Sql)
        ensures
            r@ == (SqlV { value: prefix@ + self@.value, prepare: self@.prepare }),
    {
        let mut value = String::new();
        value.append(prefix);
        value.append(self.value.as_str());
        Sql { value, prepare_value: self.prepare_value }
    }
}

/// Appending is associative, pushed text included.
pub proof fn lemma_append_assoc(a: SqlV, b: SqlV, s: Seq<char>, c: SqlV)
    ensures
        sql_append(sql_push_str(sql_append(a, b), s), c) == sql_append(a, sql_append(sql_push_str(b, s), c)),
        sql_append(sql_append(a, b), c) == sql_append(a, sql_append(b, c)),
{
    assert(a.value + b.value + s + c.value =~= a.value + (b.value + s + c.value));
    assert(a.value + b.value + c.value =~= a.value + (b.value + c.value));
    if a.prepare is Some && b.prepare is Some && c.prepare is Some {
        let (p, q, r) = (a.prepare->Some_0, b.prepare->Some_0, c.prepare->Some_0);
        assert(p + q + r =~= p + (q + r));
    }
}

impl Sql {
    /// Whether rendering this SQL, strings as they are where `raw_strings` is set, does
    /// not run out of prepared values (see `placeholders_fit_with`).
    pub fn fits_placeholders(&self, raw_strings: bool) -> (r: bool)
        ensures
            r == placeholders_fit_with(self@, raw_strings),
    {
        match &self.prepare_value {
            None => true,
            Some(prepare_value) => {
                let ghost p = jsons_view(prepare_value@);
                let n = prepare_value.len();
                let mut placeholders: usize = 0;
                let mut exceeded = false;
                for c in iter: self.value.as_str().chars()
                    invariant
                        iter.seq() == self.value@,
                        n == prepare_value.len(),
                        exceeded == (count_q(self.value@.take(iter.index() as int)) > n),
                        !exceeded ==> placeholders == count_q(self.value@.take(iter.index() as int)),
                {
                    let ghost k = iter.index() as int;
                    proof {
                        assert(self.value@.take(k + 1).drop_last() =~= self.value@.take(k));
                    }
                    if c == '?' && !exceeded {
                        if placeholders == n {
                            exceeded = true;
                        } else {
                            placeholders = placeholders + 1;
                        }
                    }
                }
                proof {
                    assert(self.value@.take(self.value@.len() as int) =~= self.value@);
                }
                if !exceeded {
                    return true;
                }
                let mut i: usize = 0;
                while i < prepare_value.len()
                    invariant
                        p == jsons_view(prepare_value@),
                        self@.prepare == Some(p),
                        count_q(self.value@) > p.len(),
                        i <= prepare_value.len(),
                        forall|k: int| 0 <= k < i ==> (#[trigger] value_sql(p[k], raw_strings)) is Ok,
                    decreases prepare_value.len() - i,
                {
                    let v = default_value_sql_string_from_json(&prepare_value[i], raw_strings);
                    if let Err(_) = v {
                        assert(p[i as int] == prepare_value@[i as int]@);
                        assert(value_sql(p[i as int], raw_strings) is Err);
                        return true;
                    }
                    i = i + 1;
                }
                false
            },
        }
    }
}

} // verus!
