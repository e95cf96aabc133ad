//! Associations between models (`belongs_to`, `has_many`, `has_one`,
//! `has_and_belongs_to_many`): the keys and join table that their declarations give,
//! and the joins and selects that reading them builds.
use vstd::prelude::*;
use crate::error::ArelError;
use crate::json::{Json, JsonV, lemma_object_view, lemma_array_view, jsons_view};
use crate::methods::{Model, inflector_snake_case, inflector_plural, to_snake_case, to_plural};
use crate::text::{same_text, is_text_less, text_less, join, join_strings};
use crate::statements::where_clause::Ops;
use crate::table::{Table, with_select, empty_table, select_of, with_table_limit};

verus! {

/// The attributes with which a model declares one association: its name, the struct
/// that it reaches, and the keys and join table where they are not the default ones.
#[derive(Debug)]
pub struct AssociationArgs {
    pub name: String,
    pub struct_name: Option<String>,
    pub foreign_key: Option<String>,
    pub association_foreign_key: Option<String>,
    pub join_table: Option<String>,
    pub through: Option<String>,
    pub source: Option<String>,
}

/// The associations that a model declares, by kind, in the order of their declarations.
#[derive(Debug)]
pub struct Declarations {
    pub has_and_belongs_to_many: Vec<AssociationArgs>,
    pub has_many: Vec<AssociationArgs>,
    pub has_one: Vec<AssociationArgs>,
}

/// The kinds of association that another one can go through.
#[derive(Debug, Clone, Copy, PartialEq, Eq, Structural)]
pub enum AssociationKind {
    HasAndBelongsToMany,
    HasMany,
    HasOne,
}

/// The declarations of kind `kind`.
pub open spec fn declared(d: Declarations, kind: AssociationKind) -> Seq<AssociationArgs> {
    match kind {
        AssociationKind::HasAndBelongsToMany => d.has_and_belongs_to_many@,
        AssociationKind::HasMany => d.has_many@,
        AssociationKind::HasOne => d.has_one@,
    }
}

/// The first declaration from position `i` on in `list` named `name`.
pub open spec fn first_named_from(list: Seq<AssociationArgs>, name: Seq<char>, i: int) -> Option<int>
    decreases list.len() - i,
{
    if i < 0 || i >= list.len() {
        None
    } else if list[i].name@ == name {
        Some(i)
    } else {
        first_named_from(list, name, i + 1)
    }
}

/// The association named `name` that another one goes through: the first `has_one` of
/// that name, else the first `has_many`, else the first `has_and_belongs_to_many`.
pub open spec fn named_association(d: Declarations, name: Seq<char>) -> Option<(AssociationKind, int)> {
    match first_named_from(d.has_one@, name, 0) {
        Some(i) => Some((AssociationKind::HasOne, i)),
        None => match first_named_from(d.has_many@, name, 0) {
            Some(i) => Some((AssociationKind::HasMany, i)),
            None => match first_named_from(d.has_and_belongs_to_many@, name, 0) {
                Some(i) => Some((AssociationKind::HasAndBelongsToMany, i)),
                None => None,
            },
        },
    }
}

/// The associations that going through the one named `name` passes, in order: that one,
/// then, where it goes through another, those of that other; none where there is no such
/// association, and no answer where more than `fuel` of them are passed.
pub open spec fn through_chain_within(d: Declarations, name: Seq<char>, fuel: nat) -> Option<
    Seq<(AssociationKind, int)>,
>
    decreases fuel,
{
    if fuel == 0 {
        None
    } else {
        match named_association(d, name) {
            None => Some(Seq::empty()),
            Some((kind, i)) => match declared(d, kind)[i].through {
                None => Some(seq![(kind, i)]),
                Some(t) => match through_chain_within(d, t@, (fuel - 1) as nat) {
                    None => None,
                    Some(rest) => Some(seq![(kind, i)] + rest),
                },
            },
        }
    }
}

/// The number of declarations.
pub open spec fn declaration_count(d: Declarations) -> nat {
    d.has_and_belongs_to_many@.len() + d.has_many@.len() + d.has_one@.len()
}

/// The associations that going through the one named `name` passes (see
/// `through_chain_within`), followed as far as the declarations can be passed once each,
/// and one more; beyond, following goes on for ever.
pub open spec fn through_chain_of(d: Declarations, name: Seq<char>) -> Option<Seq<(AssociationKind, int)>> {
    through_chain_within(d, name, declaration_count(d) + 1)
}

/// The model of a passed association, its position as an integer.
pub open spec fn step_view(p: (AssociationKind, usize)) -> (AssociationKind, int) {
    (p.0, p.1 as int)
}

/// A `belongs_to`, `has_many` or `has_one` association: its name, the struct that it
/// reaches, and the column that holds the key of the other side.
#[derive(Debug)]
pub struct Association {
    pub name: String,
    pub struct_name: String,
    pub foreign_key: String,
}

/// A `has_and_belongs_to_many` association: its name, the struct that it reaches, the
/// join table, and the join table's columns that hold the keys of either side.
#[derive(Debug)]
pub struct JoinTableAssociation {
    pub name: String,
    pub struct_name: String,
    pub foreign_key: String,
    pub association_foreign_key: String,
    pub join_table: String,
}

/// The default foreign key for the struct named `struct_name`: the name in snake
/// case, then `_id`.
pub open spec fn foreign_key_of(struct_name: Seq<char>) -> Seq<char> {
    inflector_snake_case(struct_name) + "_id"@
}

/// The custom text where there is one, else `default`.
pub open spec fn custom_or(custom: Option<String>, default: Seq<char>) -> Seq<char> {
    match custom {
        Some(c) => c@,
        None => default,
    }
}

/// The default join table of the struct `self_struct` and its association `name`: the
/// plurals of both in snake case, in order, joined by `_`.
pub open spec fn join_table_of(self_struct: Seq<char>, name: Seq<char>) -> Seq<char> {
    let a = inflector_plural(inflector_snake_case(self_struct));
    let b = inflector_plural(inflector_snake_case(name));
    if text_less(b, a) {
        b + "_"@ + a
    } else {
        a + "_"@ + b
    }
}

/// `INNER JOIN table ON left_table.left_column = right_table.right_column`.
pub open spec fn inner_join_text(
    table: Seq<char>,
    left_table: Seq<char>,
    left_column: Seq<char>,
    right_table: Seq<char>,
    right_column: Seq<char>,
) -> Seq<char> {
    "INNER JOIN "@ + table + " ON "@ + left_table + "."@ + left_column + " = "@ + right_table + "."@
        + right_column
}

/// Whether `columns` holds `column`.
pub open spec fn lists_column(columns: Seq<String>, column: Seq<char>) -> bool {
    exists|i: int| 0 <= i < columns.len() && #[trigger] columns[i]@ == column
}

/// `t` selects all columns of the table of `target`, joined to `join` where there is one,
/// restricted by the one condition that `condition` describes, without anything else.
pub open spec fn association_query(target: Model, t: Table, join: Option<JsonV>, condition: JsonV) -> bool {
    let sm = select_of(t);
    let c = sm.ast.core;
    &&& t == with_select(empty_table(target), sm)
    &&& c.select.value@ == JsonV::Array(seq![JsonV::Str(seq!['*'])])
    &&& !c.select.distinct
    &&& c.select.op is None
    &&& match join {
        None => c.join_source is None,
        Some(j) => c.join_source matches Some(js) && js.join.value@ == j,
    }
    &&& c.wheres@.len() == 1
    &&& c.wheres@[0].value@ == condition
    &&& c.wheres@[0].ops == Ops::where_ops()
    &&& c.groups@.len() == 0
    &&& c.havings@.len() == 0
    &&& sm.ast.orders@.len() == 0
    &&& sm.ast.limit is None
    &&& sm.ast.offset is None
    &&& sm.ast.lock is None
}

/// A copy of `s`.
fn copy_text(s: &String) -> (r: String)
    ensures
        r@ == s@,
{
    s.clone()
}

/// The custom text where there is one, else `default`.
fn custom_or_default(custom: &Option<String>, default: String) -> (r: String)
    ensures
        r@ == custom_or(*custom, default@),
{
    match custom {
        Some(c) => copy_text(c),
        None => default,
    }
}

/// The default foreign key for the struct named `struct_name` (see `foreign_key_of`).
pub fn default_foreign_key(struct_name: &str) -> (r: String)
    ensures
        r@ == foreign_key_of(struct_name@),
{
    let mut r = to_snake_case(struct_name);
    r.append("_id");
    r
}

/// The default join table of the struct `self_struct` and its association `name` (see
/// `join_table_of`).
pub fn default_join_table(self_struct: &str, name: &str) -> (r: String)
    ensures
        r@ == join_table_of(self_struct@, name@),
{
    let a = to_plural(to_snake_case(self_struct).as_str());
    let b = to_plural(to_snake_case(name).as_str());
    let (first, second) = if is_text_less(b.as_str(), a.as_str()) {
        (b, a)
    } else {
        (a, b)
    };
    let mut r = first;
    r.append("_");
    r.append(second.as_str());
    r
}

/// A `has_many` or `has_one` association of the struct `self_struct`: its foreign key,
/// held by the other side, defaults to that of `self_struct`; refused without struct.
pub fn has_many_association(self_struct: &str, args: &AssociationArgs) -> (r: Result<Association, ArelError>)
    ensures
        args.struct_name is None ==> r == Err::<Association, ArelError>(ArelError::MissingAssociationStruct),
        args.struct_name matches Some(s) ==> r matches Ok(a) && a.name@ == args.name@ && a.struct_name@ == s@
            && a.foreign_key@ == custom_or(args.foreign_key, foreign_key_of(self_struct@)),
{
    match &args.struct_name {
        None => Err(ArelError::MissingAssociationStruct),
        Some(struct_name) => Ok(
            Association {
                name: copy_text(&args.name),
                struct_name: copy_text(struct_name),
                foreign_key: custom_or_default(&args.foreign_key, default_foreign_key(self_struct)),
            },
        ),
    }
}

/// A `belongs_to` association: its foreign key, held by this side, defaults to that of
/// the struct it reaches; refused without struct.
pub fn belongs_to_association(args: &AssociationArgs) -> (r: Result<Association, ArelError>)
    ensures
        args.struct_name is None ==> r == Err::<Association, ArelError>(ArelError::MissingAssociationStruct),
        args.struct_name matches Some(s) ==> r matches Ok(a) && a.name@ == args.name@ && a.struct_name@ == s@
            && a.foreign_key@ == custom_or(args.foreign_key, foreign_key_of(s@)),
{
    match &args.struct_name {
        None => Err(ArelError::MissingAssociationStruct),
        Some(struct_name) => Ok(
            Association {
                name: copy_text(&args.name),
                struct_name: copy_text(struct_name),
                foreign_key: custom_or_default(&args.foreign_key, default_foreign_key(struct_name.as_str())),
            },
        ),
    }
}

/// A `has_and_belongs_to_many` association of the struct `self_struct`: the join
/// table's key of this side defaults to that of `self_struct`, its key of the other
/// side to that of the struct it reaches, and the join table to `join_table_of`;
/// refused without struct.
pub fn has_and_belongs_to_many_association(self_struct: &str, args: &AssociationArgs) -> (r: Result<
    JoinTableAssociation,
    ArelError,
>)
    ensures
        args.struct_name is None ==> r == Err::<JoinTableAssociation, ArelError>(
            ArelError::MissingAssociationStruct,
        ),
        args.struct_name matches Some(s) ==> r matches Ok(a) && a.name@ == args.name@ && a.struct_name@ == s@
            && a.foreign_key@ == custom_or(args.foreign_key, foreign_key_of(self_struct@))
            && a.association_foreign_key@ == custom_or(args.association_foreign_key, foreign_key_of(s@))
            && a.join_table@ == custom_or(args.join_table, join_table_of(self_struct@, args.name@)),
{
    match &args.struct_name {
        None => Err(ArelError::MissingAssociationStruct),
        Some(struct_name) => Ok(
            JoinTableAssociation {
                name: copy_text(&args.name),
                struct_name: copy_text(struct_name),
                foreign_key: custom_or_default(&args.foreign_key, default_foreign_key(self_struct)),
                association_foreign_key: custom_or_default(
                    &args.association_foreign_key,
                    default_foreign_key(struct_name.as_str()),
                ),
                join_table: custom_or_default(&args.join_table, default_join_table(self_struct, args.name.as_str())),
            },
        ),
    }
}

/// Whether `columns` holds `column`.
pub fn has_column(columns: &Vec<String>, column: &str) -> (r: bool)
    ensures
        r == lists_column(columns@, column@),
{
    let mut i: usize = 0;
    while i < columns.len()
        invariant
            i <= columns.len(),
            forall|k: int| 0 <= k < i ==> columns@[k]@ != column@,
        decreases columns.len() - i,
    {
        if same_text(columns[i].as_str(), column) {
            return true;
        }
        i = i + 1;
    }
    false
}

/// `INNER JOIN table ON left_table.left_column = right_table.right_column`.
pub fn inner_join(table: &str, left_table: &str, left_column: &str, right_table: &str, right_column: &str) -> (r:
    String)
    ensures
        r@ == inner_join_text(table@, left_table@, left_column@, right_table@, right_column@),
{
    let mut r = String::new();
    r.append("INNER JOIN ");
    r.append(table);
    r.append(" ON ");
    r.append(left_table);
    r.append(".");
    r.append(left_column);
    r.append(" = ");
    r.append(right_table);
    r.append(".");
    r.append(right_column);
    r
}

/// The join from the table that a `has_many` association reaches to the table of its
/// owner, whose primary key the association's foreign key holds; the foreign key must be
/// one of the reached table's columns.
pub fn has_many_join_string(
    self_table: &str,
    self_primary_key: &str,
    association_table: &str,
    association_columns: &Vec<String>,
    foreign_key: &str,
) -> (r: String)
    requires
        lists_column(association_columns@, foreign_key@),
    ensures
        r@ == inner_join_text(self_table@, association_table@, foreign_key@, self_table@, self_primary_key@),
{
    inner_join(self_table, association_table, foreign_key, self_table, self_primary_key)
}

/// The join from the table that a `belongs_to` association reaches to the table of its
/// owner, whose foreign key holds the reached primary key; the foreign key must be one
/// of the owner's columns.
pub fn belongs_to_join_string(
    self_table: &str,
    self_columns: &Vec<String>,
    self_foreign_key: &str,
    association_table: &str,
    association_primary_key: &str,
) -> (r: String)
    requires
        lists_column(self_columns@, self_foreign_key@),
    ensures
        r@ == inner_join_text(
            self_table@,
            association_table@,
            association_primary_key@,
            self_table@,
            self_foreign_key@,
        ),
{
    inner_join(self_table, association_table, association_primary_key, self_table, self_foreign_key)
}

/// The joins from the table that a `has_and_belongs_to_many` association reaches,
/// through its join table, to the table of its owner.
pub fn has_and_belongs_to_many_join_string(
    self_table: &str,
    self_primary_key: &str,
    association_table: &str,
    association_primary_key: &str,
    association: &JoinTableAssociation,
) -> (r: String)
    ensures
        r@ == inner_join_text(
            association.join_table@,
            association_table@,
            association_primary_key@,
            association.join_table@,
            association.association_foreign_key@,
        ) + " "@ + inner_join_text(
            self_table@,
            association.join_table@,
            association.foreign_key@,
            self_table@,
            self_primary_key@,
        ),
{
    let join_table = association.join_table.as_str();
    let mut r = inner_join(
        join_table,
        association_table,
        association_primary_key,
        join_table,
        association.association_foreign_key.as_str(),
    );
    r.append(" ");
    let second = inner_join(self_table, join_table, association.foreign_key.as_str(), self_table, self_primary_key);
    r.append(second.as_str());
    r
}

/// The select of all columns of `target` restricted by `condition`, joined to `join`
/// where there is one.
fn restricted_query(target: &Model, join: Option<Json>, condition: Json) -> (r: Table)
    ensures
        association_query(
            *target,
            r,
            match join {
                Some(j) => Some(j@),
                None => None,
            },
            condition@,
        ),
{
    let mut t = target.query();
    if let Some(j) = join {
        t.joins(j);
    }
    t.where_(condition);
    t
}

/// The records that a `has_many` (or `has_one`) association reaches from a record whose
/// primary key is `primary_key_value`: those of `target` whose `foreign_key` holds it;
/// refused for a record that was not saved.
pub fn has_many_query(target: &Model, foreign_key: &str, primary_key_value: Option<Json>) -> (r: Result<
    Table,
    ArelError,
>)
    ensures
        primary_key_value is None ==> r == Err::<Table, ArelError>(ArelError::NotPersisted),
        primary_key_value matches Some(v) ==> r matches Ok(t) && association_query(
            *target,
            t,
            None,
            JsonV::Object(seq![(foreign_key@, v@)]),
        ),
{
    match primary_key_value {
        None => Err(ArelError::NotPersisted),
        Some(v) => {
            let ghost vv = v@;
            let mut entries: Vec<(String, Json)> = Vec::new();
            entries.push((foreign_key.to_string(), v));
            proof {
                lemma_object_view(entries);
            }
            let condition = Json::Object(entries);
            assert(condition@ == JsonV::Object(seq![(foreign_key@, vv)])) by {
                assert(crate::json::entries_view(entries@) =~= seq![(foreign_key@, vv)]);
            }
            Ok(restricted_query(target, None, condition))
        },
    }
}

/// The record that a `belongs_to` association reaches from a record whose foreign key
/// holds `foreign_key_value`: that of `target` whose primary key holds it; refused
/// where the foreign key is blank.
pub fn belongs_to_query(target: &Model, foreign_key_value: Option<Json>) -> (r: Result<Table, ArelError>)
    ensures
        foreign_key_value is None ==> r == Err::<Table, ArelError>(ArelError::BlankForeignKey),
        foreign_key_value matches Some(v) ==> r matches Ok(t) && association_query(
            *target,
            t,
            None,
            JsonV::Object(seq![(target.primary_key@, v@)]),
        ),
{
    match foreign_key_value {
        None => Err(ArelError::BlankForeignKey),
        Some(v) => {
            let ghost vv = v@;
            let mut entries: Vec<(String, Json)> = Vec::new();
            entries.push((copy_text(&target.primary_key), v));
            proof {
                lemma_object_view(entries);
            }
            let condition = Json::Object(entries);
            assert(condition@ == JsonV::Object(seq![(target.primary_key@, vv)])) by {
                assert(crate::json::entries_view(entries@) =~= seq![(target.primary_key@, vv)]);
            }
            Ok(restricted_query(target, None, condition))
        },
    }
}

/// The records that a `has_and_belongs_to_many` association reaches from a record whose
/// primary key is `primary_key_value`: those of `target` joined through the join table
/// to the rows whose key of this side holds it; refused for a record that was not saved.
pub fn has_and_belongs_to_many_query(
    target: &Model,
    association: &JoinTableAssociation,
    primary_key_value: Option<Json>,
) -> (r: Result<Table, ArelError>)
    ensures
        primary_key_value is None ==> r == Err::<Table, ArelError>(ArelError::NotPersisted),
        primary_key_value matches Some(v) ==> r matches Ok(t) && association_query(
            *target,
            t,
            Some(
                JsonV::Str(
                    inner_join_text(
                        association.join_table@,
                        target.table_name@,
                        target.primary_key@,
                        association.join_table@,
                        association.association_foreign_key@,
                    ),
                ),
            ),
            JsonV::Array(
                seq![
                    JsonV::Str(association.join_table@ + "."@ + association.foreign_key@ + " = ?"@),
                    v@,
                ],
            ),
        ),
{
    match primary_key_value {
        None => Err(ArelError::NotPersisted),
        Some(v) => {
            let ghost vv = v@;
            let join_table = association.join_table.as_str();
            let join = inner_join(
                join_table,
                target.table_name.as_str(),
                target.primary_key.as_str(),
                join_table,
                association.association_foreign_key.as_str(),
            );
            let mut raw = String::new();
            raw.append(join_table);
            raw.append(".");
            raw.append(association.foreign_key.as_str());
            raw.append(" = ?");
            let ghost raw_v = raw@;
            let mut items: Vec<Json> = Vec::new();
            items.push(Json::String(raw));
            items.push(v);
            proof {
                lemma_array_view(items);
            }
            let condition = Json::Array(items);
            assert(condition@ == JsonV::Array(seq![JsonV::Str(raw_v), vv])) by {
                assert(jsons_view(items@) =~= seq![JsonV::Str(raw_v), vv]);
            }
            Ok(restricted_query(target, Some(Json::String(join)), condition))
        },
    }
}

/// The first declaration in `list` named `name`.
fn first_named(list: &Vec<AssociationArgs>, name: &str) -> (r: Option<usize>)
    ensures
        match r {
            Some(k) => first_named_from(list@, name@, 0) == Some(k as int) && k < list.len(),
            None => first_named_from(list@, name@, 0) is None,
        },
{
    let mut i: usize = 0;
    while i < list.len()
        invariant
            i <= list.len(),
            first_named_from(list@, name@, 0) == first_named_from(list@, name@, i as int),
        decreases list.len() - i,
    {
        if same_text(list[i].name.as_str(), name) {
            return Some(i);
        }
        i = i + 1;
    }
    None
}

/// The association named `name` that another one goes through (see `named_association`).
pub fn find_named_association(d: &Declarations, name: &str) -> (r: Option<(AssociationKind, usize)>)
    ensures
        match named_association(*d, name@) {
            Some(p) => r matches Some(q) && step_view(q) == p,
            None => r is None,
        },
        r matches Some(q) ==> q.1 < declared(*d, q.0).len(),
{
    match first_named(&d.has_one, name) {
        Some(i) => Some((AssociationKind::HasOne, i)),
        None => match first_named(&d.has_many, name) {
            Some(i) => Some((AssociationKind::HasMany, i)),
            None => match first_named(&d.has_and_belongs_to_many, name) {
                Some(i) => Some((AssociationKind::HasAndBelongsToMany, i)),
                None => None,
            },
        },
    }
}

/// The declarations of kind `kind`.
fn declarations_of(d: &Declarations, kind: AssociationKind) -> (r: &Vec<AssociationArgs>)
    ensures
        r@ == declared(*d, kind),
{
    match kind {
        AssociationKind::HasAndBelongsToMany => &d.has_and_belongs_to_many,
        AssociationKind::HasMany => &d.has_many,
        AssociationKind::HasOne => &d.has_one,
    }
}

/// The associations that going through the one named `name` passes (see
/// `through_chain_of`); none where following them does not end.
pub fn through_chain(d: &Declarations, name: &str) -> (r: Option<Vec<(AssociationKind, usize)>>)
    requires
        declaration_count(*d) < usize::MAX,
    ensures
        match through_chain_of(*d, name@) {
            Some(chain) => r matches Some(v) && v@.map_values(|p: (AssociationKind, usize)| step_view(p)) == chain,
            None => r is None,
        },
        r matches Some(v) ==> forall|k: int| 0 <= k < v@.len() ==> (#[trigger] v@[k]).1 < declared(*d, v@[k].0).len(),
{
    let total = d.has_and_belongs_to_many.len() + d.has_many.len();
    let mut fuel: usize = if total <= usize::MAX - 1 - d.has_one.len() {
        total + d.has_one.len() + 1
    } else {
        usize::MAX
    };
    let mut chain: Vec<(AssociationKind, usize)> = Vec::new();
    let mut current = name.to_string();
    while fuel > 0
        invariant
            fuel as nat == declaration_count(*d) + 1 - chain@.len(),
            forall|k: int| 0 <= k < chain@.len() ==> (#[trigger] chain@[k]).1 < declared(*d, chain@[k].0).len(),
            through_chain_of(*d, name@) == match through_chain_within(*d, current@, fuel as nat) {
                Some(rest) => Some(chain@.map_values(|p: (AssociationKind, usize)| step_view(p)) + rest),
                None => None::<Seq<(AssociationKind, int)>>,
            },
        decreases fuel,
    {
        let ghost before = chain@.map_values(|p: (AssociationKind, usize)| step_view(p));
        match find_named_association(d, current.as_str()) {
            None => {
                assert(before + Seq::<(AssociationKind, int)>::empty() =~= before);
                return Some(chain);
            },
            Some((kind, i)) => {
                let list = declarations_of(d, kind);
                chain.push((kind, i));
                let ghost after = chain@.map_values(|p: (AssociationKind, usize)| step_view(p));
                assert(after =~= before + seq![(kind, i as int)]);
                match &list[i].through {
                    None => {
                        return Some(chain);
                    },
                    Some(t) => {
                        let next = t.clone();
                        proof {
                            let rest = through_chain_within(*d, next@, (fuel - 1) as nat);
                            if rest is Some {
                                assert(before + (seq![(kind, i as int)] + rest->Some_0) =~= after + rest->Some_0);
                            }
                        }
                        current = next;
                        fuel = fuel - 1;
                    },
                }
            },
        }
    }
    None
}

/// One association that a `has_many ... through` passes: the struct that it reaches, and
/// the association of that struct whose join leads on.
#[derive(Debug)]
pub struct ThroughStep {
    pub struct_name: String,
    pub association_name: String,
}

/// A `has_many` association that goes through others: its name, the struct that it
/// reaches, the associations that it passes, and the last of them, with the column
/// that holds the owner's key there.
#[derive(Debug)]
pub struct ThroughAssociation {
    pub name: String,
    pub struct_name: String,
    pub steps: Vec<ThroughStep>,
    pub last_kind: AssociationKind,
    pub last_index: usize,
    pub last_foreign_key: String,
}

/// The declaration that the step `k` of `chain` passes.
pub open spec fn passed(d: Declarations, chain: Seq<(AssociationKind, int)>, k: int) -> AssociationArgs {
    declared(d, chain[k].0)[chain[k].1]
}

/// The association whose join the step `k` of a `has_many ... through` declared by `args`
/// calls: for the first step, the association's source (its own name by default); then
/// the source of the association passed before (its name by default).
pub open spec fn entry_name(args: AssociationArgs, d: Declarations, chain: Seq<(AssociationKind, int)>, k: int) -> Seq<
    char,
> {
    if k == 0 {
        custom_or(args.source, args.name@)
    } else {
        custom_or(passed(d, chain, k - 1).source, passed(d, chain, k - 1).name@)
    }
}

/// `a` is the `has_many ... through` that `args` declares for the struct `self_struct`,
/// passing `chain`.
pub open spec fn is_through_association(
    a: ThroughAssociation,
    self_struct: Seq<char>,
    args: AssociationArgs,
    d: Declarations,
    chain: Seq<(AssociationKind, int)>,
) -> bool {
    let last = passed(d, chain, chain.len() - 1);
    &&& a.name@ == args.name@
    &&& a.struct_name@ == args.struct_name->Some_0@
    &&& a.steps@.len() == chain.len()
    &&& forall|k: int|
        0 <= k < chain.len() ==> (#[trigger] a.steps@[k]).struct_name@ == passed(d, chain, k).struct_name->Some_0@
            && a.steps@[k].association_name@ == entry_name(args, d, chain, k)
    &&& step_view((a.last_kind, a.last_index)) == chain.last()
    &&& a.last_foreign_key@ == custom_or(last.foreign_key, foreign_key_of(self_struct))
}

/// The `has_many ... through` that `args` declares for the struct `self_struct`, given
/// the model's declarations `d`: none where `args` has no struct or goes through nothing,
/// or where the association it goes through is not declared; refused where an
/// association passed has no struct.
pub fn has_many_through_association(self_struct: &str, args: &AssociationArgs, d: &Declarations) -> (r: Result<
    Option<ThroughAssociation>,
    ArelError,
>)
    requires
        declaration_count(*d) < usize::MAX,
        args.through matches Some(t) ==> through_chain_of(*d, t@) is Some,
    ensures
        (args.struct_name is None || args.through is None) ==> r == Ok::<Option<ThroughAssociation>, ArelError>(None),
        args.through matches Some(t) ==> args.struct_name is None || {
            let chain = through_chain_of(*d, t@)->Some_0;
            if exists|k: int| 0 <= k < chain.len() && (#[trigger] passed(*d, chain, k)).struct_name is None {
                r == Err::<Option<ThroughAssociation>, ArelError>(ArelError::MissingAssociationStruct)
            } else if chain.len() == 0 {
                r == Ok::<Option<ThroughAssociation>, ArelError>(None)
            } else {
                r matches Ok(Some(a)) && is_through_association(a, self_struct@, *args, *d, chain)
            }
        },
{
    let struct_name = match &args.struct_name {
        None => return Ok(None),
        Some(s) => s,
    };
    let through = match &args.through {
        None => return Ok(None),
        Some(t) => t,
    };
    let chain = match through_chain(d, through.as_str()) {
        None => return Ok(None),
        Some(c) => c,
    };
    let ghost cv = chain@.map_values(|p: (AssociationKind, usize)| step_view(p));
    let mut steps: Vec<ThroughStep> = Vec::new();
    let mut entry = custom_or_default(&args.source, copy_text(&args.name));
    let mut last_foreign_key = String::new();
    let mut i: usize = 0;
    while i < chain.len()
        invariant
            cv == chain@.map_values(|p: (AssociationKind, usize)| step_view(p)),
            args.struct_name is Some,
            args.through is Some,
            cv == through_chain_of(*d, args.through->Some_0@)->Some_0,
            forall|k: int| 0 <= k < chain@.len() ==> (#[trigger] chain@[k]).1 < declared(*d, chain@[k].0).len(),
            i <= chain.len(),
            steps@.len() == i,
            forall|k: int| 0 <= k < cv.len() ==> cv[k].1 < declared(*d, cv[k].0).len() && 0 <= cv[k].1,
            forall|k: int| 0 <= k < i ==> (#[trigger] passed(*d, cv, k)).struct_name is Some,
            forall|k: int|
                0 <= k < i ==> (#[trigger] steps@[k]).struct_name@ == passed(*d, cv, k).struct_name->Some_0@
                    && steps@[k].association_name@ == entry_name(*args, *d, cv, k),
            entry@ == entry_name(*args, *d, cv, i as int),
            i > 0 ==> last_foreign_key@ == custom_or(passed(*d, cv, i - 1).foreign_key, foreign_key_of(self_struct@)),
        decreases chain.len() - i,
    {
        let (kind, index) = chain[i];
        let list = declarations_of(d, kind);
        let step_args = &list[index];
        assert(cv[i as int] == (kind, index as int));
        assert(passed(*d, cv, i as int) == *step_args);
        match &step_args.struct_name {
            None => {
                assert(passed(*d, cv, i as int).struct_name is None);
                return Err(ArelError::MissingAssociationStruct);
            },
            Some(step_struct) => {
                steps.push(ThroughStep { struct_name: copy_text(step_struct), association_name: entry });
                last_foreign_key = custom_or_default(&step_args.foreign_key, default_foreign_key(self_struct));
                entry = custom_or_default(&step_args.source, copy_text(&step_args.name));
            },
        }
        i = i + 1;
    }
    if chain.len() == 0 {
        return Ok(None);
    }
    let (last_kind, last_index) = chain[chain.len() - 1];
    Ok(
        Some(
            ThroughAssociation {
                name: copy_text(&args.name),
                struct_name: copy_text(struct_name),
                steps,
                last_kind,
                last_index,
                last_foreign_key,
            },
        ),
    )
}

/// The join table association that `o` refers to, if any.
pub open spec fn deref_join_table(o: Option<&JoinTableAssociation>) -> Option<JoinTableAssociation> {
    match o {
        Some(h) => Some(*h),
        None => None,
    }
}

/// The texts of `v`.
pub open spec fn texts(v: Seq<String>) -> Seq<Seq<char>> {
    v.map_values(|p: String| p@)
}

/// The joins that a `has_many ... through` adds after those of its steps: where the last
/// association passed is a `has_and_belongs_to_many` (`last_join_table`), the join of its
/// join table from the last table, then, where `to_owner` is set, the join of the owner
/// from the join table; else, where `to_owner` is set, the join of the owner from the
/// last table.
pub open spec fn through_tail(
    last_table: Seq<char>,
    last_primary_key: Seq<char>,
    last_foreign_key: Seq<char>,
    last_join_table: Option<JoinTableAssociation>,
    to_owner: Option<(Seq<char>, Seq<char>)>,
) -> Seq<Seq<char>> {
    match last_join_table {
        Some(h) => seq![
            inner_join_text(h.join_table@, last_table, last_primary_key, h.join_table@, h.association_foreign_key@),
        ] + match to_owner {
            Some((t, pk)) => seq![inner_join_text(t, h.join_table@, h.foreign_key@, t, pk)],
            None => Seq::empty(),
        },
        None => match to_owner {
            Some((t, pk)) => seq![inner_join_text(t, last_table, last_foreign_key, t, pk)],
            None => Seq::empty(),
        },
    }
}

/// Copies of the texts of `parts`, then those of `extra`.
fn texts_then(parts: &Vec<String>, extra: Vec<String>) -> (r: Vec<String>)
    ensures
        texts(r@) == texts(parts@) + texts(extra@),
{
    let mut r: Vec<String> = Vec::new();
    let mut i: usize = 0;
    while i < parts.len()
        invariant
            i <= parts.len(),
            texts(r@) == texts(parts@.take(i as int)),
        decreases parts.len() - i,
    {
        let ghost before = r@;
        let c = copy_text(&parts[i]);
        let ghost cv = c@;
        r.push(c);
        assert(texts(r@) =~= texts(before).push(cv));
        assert(parts@.take(i + 1) =~= parts@.take(i as int).push(parts@[i as int]));
        assert(texts(parts@.take(i + 1)) =~= texts(parts@.take(i as int)).push(cv));
        i = i + 1;
    }
    let mut j: usize = 0;
    assert(texts(extra@.take(0)) =~= Seq::<Seq<char>>::empty());
    assert(texts(r@) =~= texts(parts@.take(i as int)) + texts(extra@.take(0)));
    while j < extra.len()
        invariant
            i == parts.len(),
            j <= extra.len(),
            texts(r@) == texts(parts@.take(i as int)) + texts(extra@.take(j as int)),
        decreases extra.len() - j,
    {
        let ghost before = r@;
        let c = copy_text(&extra[j]);
        let ghost cv = c@;
        r.push(c);
        assert(texts(r@) =~= texts(before).push(cv));
        assert(extra@.take(j + 1) =~= extra@.take(j as int).push(extra@[j as int]));
        assert(texts(extra@.take(j + 1)) =~= texts(extra@.take(j as int)).push(cv));
        j = j + 1;
        assert(texts(r@) =~= texts(parts@.take(i as int)) + texts(extra@.take(j as int)));
    }
    assert(parts@.take(i as int) =~= parts@);
    assert(extra@.take(j as int) =~= extra@);
    r
}

/// The joins that a `has_many ... through` adds after those of its steps (see
/// `through_tail`).
fn through_tail_joins(
    last_table: &str,
    last_primary_key: &str,
    last_foreign_key: &str,
    last_join_table: Option<&JoinTableAssociation>,
    to_owner: Option<(&str, &str)>,
) -> (r: Vec<String>)
    ensures
        texts(r@) == through_tail(
            last_table@,
            last_primary_key@,
            last_foreign_key@,
            deref_join_table(last_join_table),
            match to_owner {
                Some((t, pk)) => Some((t@, pk@)),
                None => None,
            },
        ),
{
    let mut r: Vec<String> = Vec::new();
    match last_join_table {
        Some(h) => {
            let join_table = h.join_table.as_str();
            r.push(
                inner_join(join_table, last_table, last_primary_key, join_table, h.association_foreign_key.as_str()),
            );
            if let Some((t, pk)) = to_owner {
                r.push(inner_join(t, join_table, h.foreign_key.as_str(), t, pk));
            }
        },
        None => {
            if let Some((t, pk)) = to_owner {
                r.push(inner_join(t, last_table, last_foreign_key, t, pk));
            }
        },
    }
    assert(texts(r@) =~= through_tail(
        last_table@,
        last_primary_key@,
        last_foreign_key@,
        deref_join_table(last_join_table),
        match to_owner {
            Some((t, pk)) => Some((t@, pk@)),
            None => None,
        },
    ));
    r
}

/// The join from the table that a `has_many ... through` reaches to the table of its
/// owner: the joins of its steps (`step_joins`, in order), then those of `through_tail`,
/// separated by spaces.
pub fn has_many_through_join_string(
    step_joins: &Vec<String>,
    last_table: &str,
    last_primary_key: &str,
    last_foreign_key: &str,
    last_join_table: Option<&JoinTableAssociation>,
    self_table: &str,
    self_primary_key: &str,
) -> (r: String)
    ensures
        r@ == join(
            texts(step_joins@) + through_tail(
                last_table@,
                last_primary_key@,
                last_foreign_key@,
                deref_join_table(last_join_table),
                Some((self_table@, self_primary_key@)),
            ),
            " "@,
        ),
{
    let tail = through_tail_joins(
        last_table,
        last_primary_key,
        last_foreign_key,
        last_join_table,
        Some((self_table, self_primary_key)),
    );
    let all = texts_then(step_joins, tail);
    assert(all@.map_values(|p: String| p@) == texts(all@));
    join_strings(&all, " ")
}

/// The condition column of a `has_many ... through`: the join table's key of this side
/// where the last association passed is a `has_and_belongs_to_many`, else the last
/// table's foreign key.
pub open spec fn through_condition(
    last_table: Seq<char>,
    last_foreign_key: Seq<char>,
    last_join_table: Option<JoinTableAssociation>,
) -> Seq<char> {
    match last_join_table {
        Some(h) => h.join_table@ + "."@ + h.foreign_key@ + " = ?"@,
        None => last_table + "."@ + last_foreign_key + " = ?"@,
    }
}

/// The records that a `has_many ... through` reaches from a record whose primary key is
/// `primary_key_value`: those of `target` joined through the joins of its steps and of
/// `through_tail` (without the owner's), to the rows whose key of the owner holds it;
/// refused for a record that was not saved.
pub fn has_many_through_query(
    target: &Model,
    step_joins: &Vec<String>,
    last_table: &str,
    last_primary_key: &str,
    last_foreign_key: &str,
    last_join_table: Option<&JoinTableAssociation>,
    primary_key_value: Option<Json>,
) -> (r: Result<Table, ArelError>)
    ensures
        primary_key_value is None ==> r == Err::<Table, ArelError>(ArelError::NotPersisted),
        primary_key_value matches Some(v) ==> r matches Ok(t) && association_query(
            *target,
            t,
            Some(
                JsonV::Str(
                    join(
                        texts(step_joins@) + through_tail(
                            last_table@,
                            last_primary_key@,
                            last_foreign_key@,
                            deref_join_table(last_join_table),
                            None,
                        ),
                        " "@,
                    ),
                ),
            ),
            JsonV::Array(
                seq![
                    JsonV::Str(
                        through_condition(
                            last_table@,
                            last_foreign_key@,
                            deref_join_table(last_join_table),
                        ),
                    ),
                    v@,
                ],
            ),
        ),
{
    match primary_key_value {
        None => Err(ArelError::NotPersisted),
        Some(v) => {
            let ghost vv = v@;
            let tail = through_tail_joins(last_table, last_primary_key, last_foreign_key, last_join_table, None);
            let all = texts_then(step_joins, tail);
            assert(all@.map_values(|p: String| p@) == texts(all@));
            let joined = join_strings(&all, " ");
            let mut raw = String::new();
            match last_join_table {
                Some(h) => {
                    raw.append(h.join_table.as_str());
                    raw.append(".");
                    raw.append(h.foreign_key.as_str());
                },
                None => {
                    raw.append(last_table);
                    raw.append(".");
                    raw.append(last_foreign_key);
                },
            }
            raw.append(" = ?");
            let ghost raw_v = raw@;
            let mut items: Vec<Json> = Vec::new();
            items.push(Json::String(raw));
            items.push(v);
            proof {
                lemma_array_view(items);
            }
            let condition = Json::Array(items);
            assert(condition@ == JsonV::Array(seq![JsonV::Str(raw_v), vv])) by {
                assert(jsons_view(items@) =~= seq![JsonV::Str(raw_v), vv]);
            }
            Ok(restricted_query(target, Some(Json::String(joined)), condition))
        },
    }
}

/// The record that a `has_one` association reaches from a record whose primary key is
/// `primary_key_value`: the first of `target` whose `foreign_key` holds it (the select
/// of `has_many_query`, limited to one row); refused for a record that was not saved.
pub fn has_one_query(target: &Model, foreign_key: &str, primary_key_value: Option<Json>) -> (r: Result<
    Table,
    ArelError,
>)
    ensures
        primary_key_value is None ==> r == Err::<Table, ArelError>(ArelError::NotPersisted),
        primary_key_value matches Some(v) ==> r matches Ok(t) && exists|q: Table|
            #![trigger with_table_limit(q, 1usize)]
            association_query(*target, q, None, JsonV::Object(seq![(foreign_key@, v@)])) && t == with_table_limit(
                q,
                1usize,
            ),
{
    match has_many_query(target, foreign_key, primary_key_value) {
        Err(e) => Err(e),
        Ok(q) => {
            let ghost before = q;
            let mut t = q;
            t.limit(1);
            assert(t == with_table_limit(before, 1usize));
            Ok(t)
        },
    }
}

/// The record that a `has_one ... through` reaches from a record whose primary key is
/// `primary_key_value`: the select of `has_many_through_query`, limited to one row;
/// refused for a record that was not saved.
pub fn has_one_through_query(
    target: &Model,
    step_joins: &Vec<String>,
    last_table: &str,
    last_primary_key: &str,
    last_foreign_key: &str,
    last_join_table: Option<&JoinTableAssociation>,
    primary_key_value: Option<Json>,
) -> (r: Result<Table, ArelError>)
    ensures
        primary_key_value is None ==> r == Err::<Table, ArelError>(ArelError::NotPersisted),
        primary_key_value matches Some(v) ==> r matches Ok(t) && exists|q: Table|
            #![trigger with_table_limit(q, 1usize)]
            association_query(
                *target,
                q,
                Some(
                    JsonV::Str(
                        join(
                            texts(step_joins@) + through_tail(
                                last_table@,
                                last_primary_key@,
                                last_foreign_key@,
                                deref_join_table(last_join_table),
                                None,
                            ),
                            " "@,
                        ),
                    ),
                ),
                JsonV::Array(
                    seq![
                        JsonV::Str(through_condition(last_table@, last_foreign_key@, deref_join_table(last_join_table))),
                        v@,
                    ],
                ),
            ) && t == with_table_limit(q, 1usize),
{
    match has_many_through_query(
        target,
        step_joins,
        last_table,
        last_primary_key,
        last_foreign_key,
        last_join_table,
        primary_key_value,
    ) {
        Err(e) => Err(e),
        Ok(q) => {
            let ghost before = q;
            let mut t = q;
            t.limit(1);
            assert(t == with_table_limit(before, 1usize));
            Ok(t)
        },
    }
}

} // verus!
