use vstd::prelude::*;
use crate::text::{backquoted, push_backquoted, chars_of};

verus! {

/// The SQL dialect that statements are written for; it decides the few places where
/// SQLite is written differently.
#[derive(Debug, Clone, Copy, PartialEq, Eq, Structural)]
pub enum Dialect {
    MySql,
    Sqlite,
}

/// What statements read of a model: its table's name, its primary key column and the
/// dialect of its database.
#[derive(Debug)]
pub struct Model {
    pub table_name: String,
    pub primary_key: String,
    pub dialect: Dialect,
}

impl Model {
    /// A model of the table `table_name` with the primary key column `primary_key`.
    pub fn new(table_name: &str, primary_key: &str, dialect: Dialect) -> (r: Model)
        ensures
            r.table_name@ == table_name@,
            r.primary_key@ == primary_key@,
            r.dialect == dialect,
    {
        Model { table_name: table_name.to_string(), primary_key: primary_key.to_string(), dialect }
    }

    /// A copy of this model.
    pub fn copy(&self) -> (r: Model)
        ensures
            r == *self,
    {
        Model {
            table_name: self.table_name.clone(),
            primary_key: self.primary_key.clone(),
            dialect: self.dialect,
        }
    }
}

/// The name `s` quoted as `dialect` quotes names: in double quotes for SQLite, else
/// between backticks.
pub open spec fn quoted_name(dialect: Dialect, s: Seq<char>) -> Seq<char> {
    if dialect == Dialect::Sqlite {
        seq!['"'] + s + seq!['"']
    } else {
        backquoted(s)
    }
}

/// The column `column` of the table `table` as a statement in `dialect` names it: a
/// plain name is qualified with the quoted table name and quoted itself; a name that
/// holds a `.` stands as it is; `*` is the table's `*` (in SQLite, `*` alone).
pub open spec fn spec_table_column_name(dialect: Dialect, table: Seq<char>, column: Seq<char>) -> Seq<char> {
    if column == seq!['*'] {
        if dialect == Dialect::Sqlite {
            seq!['*']
        } else {
            backquoted(table) + seq!['.', '*']
        }
    } else if column.contains('.') {
        column
    } else {
        quoted_name(dialect, table) + seq!['.'] + quoted_name(dialect, column)
    }
}

/// Appends `s` quoted as `dialect` quotes names (see `quoted_name`) to `out`.
pub fn push_quoted(out: &mut String, dialect: Dialect, s: &str)
    ensures
        final(out)@ == old(out)@ + quoted_name(dialect, s@),
{
    if dialect == Dialect::Sqlite {
        out.push('"');
        out.append(s);
        out.push('"');
        assert(out@ =~= old(out)@ + quoted_name(dialect, s@));
    } else {
        push_backquoted(out, s);
    }
}

/// Whether `s` holds the character `c`.
pub fn str_contains_char(s: &str, c: char) -> (r: bool)
    ensures
        r == s@.contains(c),
{
    for x in iter: s.chars()
        invariant
            iter.seq() == s@,
            forall|k: int| 0 <= k < iter.index() ==> s@[k] != c,
    {
        if x == c {
            assert(s@[iter.index() as int] == c);
            return true;
        }
    }
    false
}

/// Whether `s` is the single character `c`.
pub fn str_is_char(s: &str, c: char) -> (r: bool)
    ensures
        r == (s@ == seq![c]),
{
    let mut n: usize = 0;
    let mut first = ' ';
    for x in iter: s.chars()
        invariant
            iter.seq() == s@,
            n == iter.index(),
            n <= 1,
            n > 0 ==> first == s@[0],
    {
        if n == 0 {
            first = x;
        }
        n = n + 1;
        if n > 1 {
            assert(s@.len() > 1);
            assert(s@ != seq![c]);
            return false;
        }
    }
    if n == 1 && first == c {
        assert(s@ =~= seq![c]);
        true
    } else {
        false
    }
}

/// The column `column_name` of `model`'s table as a statement names it
/// (see `spec_table_column_name`).
pub fn table_column_name(model: &Model, column_name: &str) -> (r: String)
    ensures
        r@ == spec_table_column_name(model.dialect, model.table_name@, column_name@),
{
    if str_is_char(column_name, '*') {
        let mut s = String::new();
        if model.dialect == Dialect::Sqlite {
            s.push('*');
            assert(s@ =~= seq!['*']);
        } else {
            push_backquoted(&mut s, model.table_name.as_str());
            s.push('.');
            s.push('*');
            assert(s@ =~= backquoted(model.table_name@) + seq!['.', '*']);
        }
        s
    } else if str_contains_char(column_name, '.') {
        column_name.to_string()
    } else {
        let mut s = String::new();
        push_quoted(&mut s, model.dialect, model.table_name.as_str());
        s.push('.');
        push_quoted(&mut s, model.dialect, column_name);
        assert(s@ =~= quoted_name(model.dialect, model.table_name@) + seq!['.'] + quoted_name(
            model.dialect,
            column_name@,
        ));
        s
    }
}

/// `table_name` quoted as `dialect` quotes names (see `quoted_name`).
pub fn quote_table_name(table_name: &str, dialect: Dialect) -> (r: String)
    ensures
        r@ == quoted_name(dialect, table_name@),
{
    let mut s = String::new();
    push_quoted(&mut s, dialect, table_name);
    assert(s@ =~= quoted_name(dialect, table_name@));
    s
}

/// The last segment of the path `s`, as `inflector::string::demodulize::demodulize`
/// gives it.
pub uninterp spec fn inflector_demodulize(s: Seq<char>) -> Seq<char>;

/// `s` in snake case, as `inflector::cases::snakecase::to_snake_case` gives it.
pub uninterp spec fn inflector_snake_case(s: Seq<char>) -> Seq<char>;

/// The plural of the word `s`, as `inflector::string::pluralize::to_plural` gives it.
pub uninterp spec fn inflector_plural(s: Seq<char>) -> Seq<char>;

/// Calls `inflector::string::demodulize::demodulize`: the text after the last `::` of
/// `s`, in class case, or `s` itself where it holds no `::`. Its result is a function of
/// `s` alone, named `inflector_demodulize`.
#[verifier::external_body]
fn demodulize(s: &str) -> (r: String)
    ensures
        r@ == inflector_demodulize(s@),
{
    inflector::string::demodulize::demodulize(s)
}

/// Calls `inflector::cases::snakecase::to_snake_case`, which writes the words of `s` in
/// lower case joined by underscores. Its result is a function of `s` alone, named
/// `inflector_snake_case`.
#[verifier::external_body]
pub(crate) fn to_snake_case(s: &str) -> (r: String)
    ensures
        r@ == inflector_snake_case(s@),
{
    inflector::cases::snakecase::to_snake_case(s)
}

/// Calls `inflector::string::pluralize::to_plural`, which applies English plural rules
/// to `s`. Its result is a function of `s` alone, named `inflector_plural`.
#[verifier::external_body]
pub(crate) fn to_plural(s: &str) -> (r: String)
    ensures
        r@ == inflector_plural(s@),
{
    inflector::string::pluralize::to_plural(s)
}

/// `s` without a trailing `_arel`.
pub open spec fn without_arel_suffix(s: Seq<char>) -> Seq<char> {
    if s.len() >= 5 && s.skip(s.len() - 5) == seq!['_', 'a', 'r', 'e', 'l'] {
        s.take(s.len() - 5)
    } else {
        s
    }
}

/// The table name of the type named `full_namespace`: its last path segment, in snake
/// case, without a trailing `_arel`, in the plural.
pub open spec fn pluralized_type_name(full_namespace: Seq<char>) -> Seq<char> {
    inflector_plural(without_arel_suffix(inflector_snake_case(inflector_demodulize(full_namespace))))
}

/// The table name of a model named `model`: in snake case, in the plural.
pub open spec fn model_table_name(model: Seq<char>) -> Seq<char> {
    inflector_plural(inflector_snake_case(model))
}

/// `s` without a trailing `_arel` (see `without_arel_suffix`).
pub fn strip_arel_suffix(s: &str) -> (r: String)
    ensures
        r@ == without_arel_suffix(s@),
{
    let chars = chars_of(s);
    let n = chars.len();
    let mut keep = n;
    if n >= 5 && chars[n - 5] == '_' && chars[n - 4] == 'a' && chars[n - 3] == 'r' && chars[n - 2] == 'e'
        && chars[n - 1] == 'l' {
        keep = n - 5;
        assert(s@.skip(s@.len() - 5) =~= seq!['_', 'a', 'r', 'e', 'l']);
    } else {
        assert(n >= 5 ==> s@.skip(s@.len() - 5)[0] == chars@[n - 5]);
        assert(n >= 5 ==> s@.skip(s@.len() - 5)[1] == chars@[n - 4]);
        assert(n >= 5 ==> s@.skip(s@.len() - 5)[2] == chars@[n - 3]);
        assert(n >= 5 ==> s@.skip(s@.len() - 5)[3] == chars@[n - 2]);
        assert(n >= 5 ==> s@.skip(s@.len() - 5)[4] == chars@[n - 1]);
    }
    let mut r = String::new();
    let mut i: usize = 0;
    while i < keep
        invariant
            keep <= n == chars.len(),
            chars@ == s@,
            i <= keep,
            r@ == s@.take(i as int),
        decreases keep - i,
    {
        r.push(chars[i]);
        i = i + 1;
        assert(r@ =~= s@.take(i as int));
    }
    assert(s@.take(n as int) =~= s@);
    r
}

/// The table name of the type named `full_namespace`, such as `std::any::type_name`
/// gives it (see `pluralized_type_name`).
pub fn type_to_pluralize_string(full_namespace: &str) -> (r: String)
    ensures
        r@ == pluralized_type_name(full_namespace@),
{
    let struct_name = demodulize(full_namespace);
    let snake_struct_name = to_snake_case(struct_name.as_str());
    let stripped = strip_arel_suffix(snake_struct_name.as_str());
    to_plural(stripped.as_str())
}

} // verus!
