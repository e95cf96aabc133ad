//! The names that the generators of migration files compute: the directory, the file
//! names and the tables that a model or a migration is about.
use vstd::prelude::*;
use crate::methods::{inflector_snake_case, inflector_plural, to_snake_case, to_plural};
use crate::text::chars_of;

verus! {

/// The directory of migrations under the directory `cwd`.
pub open spec fn migration_dir_text(cwd: Seq<char>) -> Seq<char> {
    cwd + "/migrations"@
}

/// The table of the model named `model`: its name in snake case, in the plural.
pub open spec fn model_table_text(model: Seq<char>) -> Seq<char> {
    inflector_plural(inflector_snake_case(model))
}

/// The file that creates the table of the model `model`, in the directory `dir`, its
/// name starting with `prefix`.
pub open spec fn model_migration_file_text(dir: Seq<char>, prefix: Seq<char>, model: Seq<char>) -> Seq<char> {
    dir + "/"@ + prefix + "_create_"@ + model_table_text(model)
}

/// The file of the migration `migration`, in the directory `dir`, its name starting with
/// `prefix`.
pub open spec fn migration_file_text(dir: Seq<char>, prefix: Seq<char>, migration: Seq<char>) -> Seq<char> {
    dir + "/"@ + prefix + "_"@ + migration
}

/// `s` with every `to_` taken out, from the left, as `str::replace` does.
pub open spec fn without_to(s: Seq<char>) -> Seq<char>
    decreases s.len(),
{
    if s.len() == 0 {
        s
    } else if s.len() >= 3 && s[0] == 't' && s[1] == 'o' && s[2] == '_' {
        without_to(s.skip(3))
    } else {
        seq![s[0]] + without_to(s.skip(1))
    }
}

/// The part of `s` that the pattern `to_(\w{1,})$` of the `regex` crate matches: `to_`,
/// then one or more word characters, up to the end of `s`; at the leftmost position where
/// it matches, if any.
pub uninterp spec fn regex_to_suffix(s: Seq<char>) -> Option<Seq<char>>;

/// Calls `regex::Regex::captures` with the pattern `to_(\w{1,})$` (which compiles) and
/// gives the whole match, if there is one. Its result is a function of `migration` alone,
/// named `regex_to_suffix`.
#[verifier::external_body]
fn find_to_suffix(migration: &str) -> (r: Option<String>)
    ensures
        match r {
            Some(m) => regex_to_suffix(migration@) == Some(m@),
            None => regex_to_suffix(migration@) is None,
        },
{
    match regex::Regex::new(r"to_(\w{1,})$").unwrap().captures(migration) {
        Some(caps) => Some(caps[0].to_string()),
        None => None,
    }
}

/// The directory of migrations under the directory `cwd`.
pub fn migration_dir(cwd: &str) -> (r: String)
    ensures
        r@ == migration_dir_text(cwd@),
{
    let mut r = String::new();
    r.append(cwd);
    r.append("/migrations");
    r
}

/// The table of the model named `model` (see `model_table_text`).
pub fn model_table_name(model: &str) -> (r: String)
    ensures
        r@ == model_table_text(model@),
{
    let snake = to_snake_case(model);
    to_plural(snake.as_str())
}

/// The file that creates the table of the model `model` (see
/// `model_migration_file_text`).
pub fn model_migration_file(dir: &str, prefix: &str, model: &str) -> (r: String)
    ensures
        r@ == model_migration_file_text(dir@, prefix@, model@),
{
    let table_name = model_table_name(model);
    let mut r = String::new();
    r.append(dir);
    r.append("/");
    r.append(prefix);
    r.append("_create_");
    r.append(table_name.as_str());
    r
}

/// The file of the migration `migration` (see `migration_file_text`).
pub fn migration_file(dir: &str, prefix: &str, migration: &str) -> (r: String)
    ensures
        r@ == migration_file_text(dir@, prefix@, migration@),
{
    let mut r = String::new();
    r.append(dir);
    r.append("/");
    r.append(prefix);
    r.append("_");
    r.append(migration);
    r
}

/// `s` with every `to_` taken out (see `without_to`); given the part of a migration's
/// name that the pattern `to_(\w{1,})$` matched, the table that the migration is about.
pub fn remove_to(s: &str) -> (r: String)
    ensures
        r@ == without_to(s@),
{
    let chars = chars_of(s);
    let n = chars.len();
    let mut r = String::new();
    let mut i: usize = 0;
    assert(s@.skip(0) =~= s@);
    assert(r@ + without_to(s@) =~= without_to(s@));
    while i < n
        invariant
            n == chars.len(),
            chars@ == s@,
            i <= n,
            without_to(s@) == r@ + without_to(s@.skip(i as int)),
        decreases n - i,
    {
        let ghost rest = s@.skip(i as int);
        if n - i >= 3 && chars[i] == 't' && chars[i + 1] == 'o' && chars[i + 2] == '_' {
            assert(rest.skip(3) =~= s@.skip(i + 3));
            i = i + 3;
        } else {
            assert(rest.skip(1) =~= s@.skip(i + 1));
            r.push(chars[i]);
            i = i + 1;
            assert(r@ + without_to(s@.skip(i as int)) =~= r@.drop_last() + (seq![rest[0]] + without_to(
                rest.skip(1),
            )));
        }
    }
    assert(s@.skip(n as int) =~= Seq::<char>::empty());
    assert(r@ + Seq::<char>::empty() =~= r@);
    r
}

/// The table that the migration `migration` is about: the end of its name after `to_`
/// (see `regex_to_suffix`), with every `to_` taken out; none where its name does not end
/// so.
pub fn migration_table_name(migration: &str) -> (r: Option<String>)
    ensures
        match regex_to_suffix(migration@) {
            Some(m) => r matches Some(t) && t@ == without_to(m),
            None => r is None,
        },
{
    match find_to_suffix(migration) {
        Some(matched) => Some(remove_to(matched.as_str())),
        None => None,
    }
}

} // verus!
