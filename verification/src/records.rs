//! Records of a model: how its fields are held in table columns, which attributes
//! changed since a record was saved, and the statements that saving or deleting a
//! record sends.
use vstd::prelude::*;
use crate::error::ArelError;
use crate::json::{Json, JsonNumber, JsonV, entries_view, lemma_object_view, is_map_shaped};
use crate::methods::Model;
use crate::text::{same_text, is_text_less, text_less, int_decimal};
use crate::table::Table;
use crate::statements::where_clause::Ops;
use crate::statements::update::Update;

verus! {

/// A field of a model: the attribute's name, the table column that holds it, and
/// whether a record must have a value for it.
#[derive(Debug)]
pub struct Field {
    pub attr_name: String,
    pub column_name: String,
    pub required: bool,
}

/// An attribute of a record: its value now, and its value when the record was last
/// read or saved (none for a record never saved).
#[derive(Debug)]
pub struct AttrState {
    pub attr_name: String,
    pub current: Option<Json>,
    pub persisted: Option<Json>,
}

/// The column of the first field from position `i` on whose attribute is `attr`.
pub open spec fn column_of(fields: Seq<Field>, attr: Seq<char>, i: int) -> Option<Seq<char>>
    decreases fields.len() - i,
{
    if i < 0 || i >= fields.len() {
        None
    } else if fields[i].attr_name@ == attr {
        Some(fields[i].column_name@)
    } else {
        column_of(fields, attr, i + 1)
    }
}

/// The attribute of the first field from position `i` on held in the column `column`.
pub open spec fn attr_of(fields: Seq<Field>, column: Seq<char>, i: int) -> Option<Seq<char>>
    decreases fields.len() - i,
{
    if i < 0 || i >= fields.len() {
        None
    } else if fields[i].column_name@ == column {
        Some(fields[i].attr_name@)
    } else {
        attr_of(fields, column, i + 1)
    }
}

/// The entries `es` of a JSON object, sorted by key, with `k` set to `v`, as a map
/// sorted by key inserts: the value of an equal key is replaced, else the entry goes
/// before the first greater key.
pub open spec fn entry_inserted(es: Seq<(Seq<char>, JsonV)>, k: Seq<char>, v: JsonV) -> Seq<(Seq<char>, JsonV)>
    decreases es.len(),
{
    if es.len() == 0 {
        seq![(k, v)]
    } else if es[0].0 == k {
        seq![(k, v)] + es.skip(1)
    } else if text_less(k, es[0].0) {
        seq![(k, v)] + es
    } else {
        seq![es[0]] + entry_inserted(es.skip(1), k, v)
    }
}

/// The model of an optional value.
pub open spec fn opt_view(o: Option<Json>) -> Option<JsonV> {
    match o {
        Some(j) => Some(j@),
        None => None,
    }
}

/// The columns whose attributes changed among `attrs` (a change to no value writes
/// null), each set as a map sorted by key sets it, in the order of `attrs`; an attribute
/// that no field has refuses them.
pub open spec fn changed_entries(fields: Seq<Field>, attrs: Seq<AttrState>) -> Result<
    Seq<(Seq<char>, JsonV)>,
    ArelError,
>
    decreases attrs.len(),
{
    if attrs.len() == 0 {
        Ok(Seq::empty())
    } else {
        match changed_entries(fields, attrs.drop_last()) {
            Err(e) => Err(e),
            Ok(es) => {
                let a = attrs.last();
                if opt_view(a.current) == opt_view(a.persisted) {
                    Ok(es)
                } else {
                    match column_of(fields, a.attr_name@, 0) {
                        None => Err(ArelError::AttrNotFound),
                        Some(c) => Ok(
                            entry_inserted(
                                es,
                                c,
                                match a.current {
                                    Some(j) => j@,
                                    None => JsonV::Null,
                                },
                            ),
                        ),
                    }
                }
            },
        }
    }
}

/// The position of the first required field among `fields` whose value in `values` is
/// missing, from position `i` on.
pub open spec fn first_missing(fields: Seq<Field>, values: Seq<Option<Json>>, i: int) -> Option<int>
    decreases fields.len() - i,
{
    if i < 0 || i >= fields.len() {
        None
    } else if fields[i].required && values[i] is None {
        Some(i)
    } else {
        first_missing(fields, values, i + 1)
    }
}

/// The column that holds the attribute `attr_name`: that of the first field of that
/// attribute; refused where there is none.
pub fn attr_name_to_table_column_name(fields: &Vec<Field>, attr_name: &str) -> (r: Result<String, ArelError>)
    ensures
        match column_of(fields@, attr_name@, 0) {
            Some(c) => r matches Ok(s) && s@ == c,
            None => r == Err::<String, ArelError>(ArelError::AttrNotFound),
        },
{
    let mut i: usize = 0;
    while i < fields.len()
        invariant
            i <= fields.len(),
            column_of(fields@, attr_name@, 0) == column_of(fields@, attr_name@, i as int),
        decreases fields.len() - i,
    {
        if same_text(fields[i].attr_name.as_str(), attr_name) {
            return Ok(fields[i].column_name.clone());
        }
        i = i + 1;
    }
    Err(ArelError::AttrNotFound)
}

/// The attribute held in the column `column_name`: that of the first field in that
/// column; refused where there is none.
pub fn table_column_name_to_attr_name(fields: &Vec<Field>, column_name: &str) -> (r: Result<String, ArelError>)
    ensures
        match attr_of(fields@, column_name@, 0) {
            Some(a) => r matches Ok(s) && s@ == a,
            None => r == Err::<String, ArelError>(ArelError::ColumnNotFound),
        },
{
    let mut i: usize = 0;
    while i < fields.len()
        invariant
            i <= fields.len(),
            attr_of(fields@, column_name@, 0) == attr_of(fields@, column_name@, i as int),
        decreases fields.len() - i,
    {
        if same_text(fields[i].column_name.as_str(), column_name) {
            return Ok(fields[i].attr_name.clone());
        }
        i = i + 1;
    }
    Err(ArelError::ColumnNotFound)
}

/// The columns of the fields, in order.
pub fn table_column_names(fields: &Vec<Field>) -> (r: Vec<String>)
    ensures
        r@.len() == fields@.len(),
        forall|i: int| 0 <= i < fields@.len() ==> (#[trigger] r@[i])@ == fields@[i].column_name@,
{
    let mut r: Vec<String> = Vec::new();
    let mut i: usize = 0;
    while i < fields.len()
        invariant
            i <= fields.len(),
            r@.len() == i,
            forall|k: int| 0 <= k < i ==> (#[trigger] r@[k])@ == fields@[k].column_name@,
        decreases fields.len() - i,
    {
        r.push(fields[i].column_name.clone());
        i = i + 1;
    }
    r
}

/// The attributes of the fields, in order.
pub fn attr_names(fields: &Vec<Field>) -> (r: Vec<String>)
    ensures
        r@.len() == fields@.len(),
        forall|i: int| 0 <= i < fields@.len() ==> (#[trigger] r@[i])@ == fields@[i].attr_name@,
{
    let mut r: Vec<String> = Vec::new();
    let mut i: usize = 0;
    while i < fields.len()
        invariant
            i <= fields.len(),
            r@.len() == i,
            forall|k: int| 0 <= k < i ==> (#[trigger] r@[k])@ == fields@[k].attr_name@,
        decreases fields.len() - i,
    {
        r.push(fields[i].attr_name.clone());
        i = i + 1;
    }
    r
}

/// The first required field whose value in `values` (one per field) is missing, which
/// makes the record invalid; none where every required field has a value.
pub fn first_missing_field(fields: &Vec<Field>, values: &Vec<Option<Json>>) -> (r: Option<usize>)
    requires
        values@.len() == fields@.len(),
    ensures
        match first_missing(fields@, values@, 0) {
            Some(i) => r == Some(i as usize),
            None => r is None,
        },
{
    let mut i: usize = 0;
    while i < fields.len()
        invariant
            values@.len() == fields@.len(),
            i <= fields.len(),
            first_missing(fields@, values@, 0) == first_missing(fields@, values@, i as int),
        decreases fields.len() - i,
    {
        if fields[i].required && values[i].is_none() {
            return Some(i);
        }
        i = i + 1;
    }
    None
}

/// Inserting at position `pos`, replacing the entry there where `replace` is set, is
/// `entry_inserted` where the keys before `pos` neither equal nor follow `k`, and the key
/// at `pos`, if any, equals `k` (replaced) or follows it.
proof fn lemma_entry_inserted_at(es: Seq<(Seq<char>, JsonV)>, k: Seq<char>, v: JsonV, pos: int, replace: bool)
    requires
        0 <= pos <= es.len(),
        forall|j: int| 0 <= j < pos ==> es[j].0 != k && !text_less(k, #[trigger] es[j].0),
        replace ==> pos < es.len() && es[pos].0 == k,
        !replace && pos < es.len() ==> es[pos].0 != k && text_less(k, es[pos].0),
    ensures
        entry_inserted(es, k, v) == es.take(pos) + seq![(k, v)] + es.skip(pos + if replace { 1int } else { 0int }),
    decreases pos,
{
    if pos == 0 {
        assert(es.take(0) =~= Seq::<(Seq<char>, JsonV)>::empty());
        if es.len() == 0 {
            assert(seq![(k, v)] + es.skip(0) =~= seq![(k, v)]);
        } else if replace {
            assert(Seq::<(Seq<char>, JsonV)>::empty() + seq![(k, v)] + es.skip(1) =~= seq![(k, v)] + es.skip(1));
        } else {
            assert(es.skip(0) =~= es);
            assert(Seq::<(Seq<char>, JsonV)>::empty() + seq![(k, v)] + es.skip(0) =~= seq![(k, v)] + es);
        }
    } else {
        let rest = es.skip(1);
        assert forall|j: int| 0 <= j < pos - 1 implies rest[j].0 != k && !text_less(k, #[trigger] rest[j].0) by {
            assert(rest[j] == es[j + 1]);
        }
        lemma_entry_inserted_at(rest, k, v, pos - 1, replace);
        assert(es[0].0 != k && !text_less(k, es[0].0));
        let skip = if replace { 1int } else { 0int };
        assert(seq![es[0]] + (rest.take(pos - 1) + seq![(k, v)] + rest.skip(pos - 1 + skip)) =~= es.take(pos)
            + seq![(k, v)] + es.skip(pos + skip));
    }
}

/// Sets the entry `key` of the entries `entries` of an object sorted by key to `value`
/// (see `entry_inserted`).
fn insert_entry(entries: &Vec<(String, Json)>, key: String, value: Json) -> (r: Vec<(String, Json)>)
    ensures
        entries_view(r@) == entry_inserted(entries_view(entries@), key@, value@),
{
    let ghost es = entries_view(entries@);
    let n = entries.len();
    let mut pos: usize = 0;
    let mut replace = false;
    let mut stop = false;
    while pos < n && !stop
        invariant
            n == entries.len(),
            es == entries_view(entries@),
            pos <= n,
            forall|j: int| 0 <= j < pos ==> es[j].0 != key@ && !text_less(key@, #[trigger] es[j].0),
            stop ==> pos < n,
            stop && replace ==> es[pos as int].0 == key@,
            stop && !replace ==> es[pos as int].0 != key@ && text_less(key@, es[pos as int].0),
            !stop ==> !replace,
        decreases n - pos + if stop { 0int } else { 1int },
    {
        if same_text(entries[pos].0.as_str(), key.as_str()) {
            replace = true;
            stop = true;
        } else if is_text_less(key.as_str(), entries[pos].0.as_str()) {
            stop = true;
        } else {
            pos = pos + 1;
        }
    }
    proof {
        lemma_entry_inserted_at(es, key@, value@, pos as int, replace);
    }
    let ghost kv = (key@, value@);
    let mut r: Vec<(String, Json)> = Vec::new();
    let mut i: usize = 0;
    assert(entries_view(r@) =~= es.take(0));
    while i < pos
        invariant
            n == entries.len(),
            es == entries_view(entries@),
            i <= pos <= n,
            entries_view(r@) == es.take(i as int),
        decreases pos - i,
    {
        let ghost before = r@;
        let k0 = entries[i].0.clone();
        let v0 = entries[i].1.deep_clone();
        let ghost e = (k0@, v0@);
        r.push((k0, v0));
        assert(entries_view(r@) =~= entries_view(before).push(e));
        assert(es.take(i + 1) =~= es.take(i as int).push(es[i as int]));
        i = i + 1;
    }
    let ghost before = r@;
    r.push((key, value));
    assert(entries_view(r@) =~= entries_view(before).push(kv));
    assert(entries_view(r@) =~= es.take(pos as int) + seq![kv]);
    let mut j: usize = if replace { pos + 1 } else { pos };
    let start = j;
    assert(es.subrange(start as int, start as int) =~= Seq::<(Seq<char>, JsonV)>::empty());
    assert(entries_view(r@) =~= es.take(pos as int) + seq![kv] + es.subrange(start as int, start as int));
    while j < n
        invariant
            n == entries.len(),
            es == entries_view(entries@),
            start <= j <= n,
            entries_view(r@) == es.take(pos as int) + seq![kv] + es.subrange(start as int, j as int),
        decreases n - j,
    {
        let ghost before = r@;
        let k0 = entries[j].0.clone();
        let v0 = entries[j].1.deep_clone();
        let ghost e = (k0@, v0@);
        r.push((k0, v0));
        assert(entries_view(r@) =~= entries_view(before).push(e));
        assert(es.subrange(start as int, j + 1) =~= es.subrange(start as int, j as int).push(es[j as int]));
        j = j + 1;
        assert(entries_view(r@) =~= es.take(pos as int) + seq![kv] + es.subrange(start as int, j as int));
    }
    assert(es.subrange(start as int, n as int) =~= es.skip(start as int));
    r
}

/// The changed columns of a record as a JSON object (see `changed_entries`), none
/// where no attribute changed; an attribute that no field has refuses them.
pub fn changed_attrs_json(fields: &Vec<Field>, attrs: &Vec<AttrState>) -> (r: Result<Option<Json>, ArelError>)
    ensures
        match changed_entries(fields@, attrs@) {
            Err(e) => r == Err::<Option<Json>, ArelError>(e),
            Ok(es) => if es.len() == 0 {
                r == Ok::<Option<Json>, ArelError>(None)
            } else {
                r matches Ok(Some(j)) && j@ == JsonV::Object(es)
            },
        },
        r matches Ok(Some(j)) ==> is_map_shaped(j@),
{
    let mut entries: Vec<(String, Json)> = Vec::new();
    let mut i: usize = 0;
    assert(attrs@.take(0) =~= Seq::<AttrState>::empty());
    assert(entries_view(entries@) =~= Seq::<(Seq<char>, JsonV)>::empty());
    while i < attrs.len()
        invariant
            i <= attrs.len(),
            changed_entries(fields@, attrs@.take(i as int)) == Ok::<Seq<(Seq<char>, JsonV)>, ArelError>(
                entries_view(entries@),
            ),
        decreases attrs.len() - i,
    {
        assert(attrs@.take(i + 1).drop_last() =~= attrs@.take(i as int));
        let a = &attrs[i];
        let same = match (&a.current, &a.persisted) {
            (Some(x), Some(y)) => x.same_value(y),
            (None, None) => true,
            _ => false,
        };
        if !same {
            let column = match attr_name_to_table_column_name(fields, a.attr_name.as_str()) {
                Ok(c) => c,
                Err(e) => {
                    proof {
                        lemma_changed_err_prefix(fields@, attrs@, i as int + 1);
                    }
                    return Err(e);
                },
            };
            let value = match &a.current {
                Some(j) => j.deep_clone(),
                None => Json::Null,
            };
            entries = insert_entry(&entries, column, value);
        }
        i = i + 1;
    }
    assert(attrs@.take(attrs@.len() as int) =~= attrs@);
    proof {
        crate::laws::law_changed_entries_keys_sorted(fields@, attrs@);
    }
    if entries.len() == 0 {
        Ok(None)
    } else {
        proof {
            lemma_object_view(entries);
        }
        Ok(Some(Json::Object(entries)))
    }
}

/// Once the changes of a prefix of the attributes are refused, those of all are refused
/// with the same error.
proof fn lemma_changed_err_prefix(fields: Seq<Field>, attrs: Seq<AttrState>, k: int)
    requires
        0 <= k <= attrs.len(),
        changed_entries(fields, attrs.take(k)) is Err,
    ensures
        changed_entries(fields, attrs) == changed_entries(fields, attrs.take(k)),
    decreases attrs.len() - k,
{
    if k < attrs.len() {
        assert(attrs.take(k + 1).drop_last() =~= attrs.take(k));
        lemma_changed_err_prefix(fields, attrs, k + 1);
    } else {
        assert(attrs.take(k) =~= attrs);
    }
}

/// What saving a record with a locking column does with the version last saved: the
/// condition that the column still holds it, and the next version; a record never saved
/// has no condition and starts at version 0.
#[derive(Debug)]
pub struct LockingStep {
    pub condition: Option<(String, Json)>,
    pub next_version: i32,
}

/// The version that the locking column of a saved record holds, read from its saved
/// value: none where it holds none (or null); an integer within the range of `i32` is
/// the version; any other value is refused.
pub fn persisted_locking_version(value: &Option<Json>) -> (r: Result<Option<i32>, ArelError>)
    ensures
        match value {
            None => r == Ok::<Option<i32>, ArelError>(None),
            Some(Json::Null) => r == Ok::<Option<i32>, ArelError>(None),
            Some(Json::Number(JsonNumber::PosInt(u))) => if u <= i32::MAX {
                r == Ok::<Option<i32>, ArelError>(Some(u as i32))
            } else {
                r == Err::<Option<i32>, ArelError>(ArelError::InvalidLockingVersion)
            },
            Some(Json::Number(JsonNumber::NegInt(i))) => if i >= i32::MIN {
                r == Ok::<Option<i32>, ArelError>(Some(i as i32))
            } else {
                r == Err::<Option<i32>, ArelError>(ArelError::InvalidLockingVersion)
            },
            Some(_) => r == Err::<Option<i32>, ArelError>(ArelError::InvalidLockingVersion),
        },
{
    match value {
        None => Ok(None),
        Some(Json::Null) => Ok(None),
        Some(Json::Number(JsonNumber::PosInt(u))) => {
            if *u <= 2147483647u64 {
                Ok(Some(*u as i32))
            } else {
                Err(ArelError::InvalidLockingVersion)
            }
        },
        Some(Json::Number(JsonNumber::NegInt(i))) => {
            if *i >= -2147483648i64 {
                Ok(Some(*i as i32))
            } else {
                Err(ArelError::InvalidLockingVersion)
            }
        },
        Some(_) => Err(ArelError::InvalidLockingVersion),
    }
}

/// The locking step of saving a record whose locking column `column` last held
/// `persisted_version`.
pub fn locking_step(column: &str, persisted_version: Option<i32>) -> (r: LockingStep)
    requires
        persisted_version matches Some(v) ==> v < i32::MAX,
    ensures
        match persisted_version {
            Some(v) => r.condition matches Some((c, j)) && c@ == column@ && j@ == JsonV::Number(int_decimal(v as int))
                && r.next_version == v + 1,
            None => r.condition is None && r.next_version == 0,
        },
{
    match persisted_version {
        Some(v) => LockingStep {
            condition: Some((column.to_string(), Json::from_i64(v as i64))),
            next_version: v + 1,
        },
        None => LockingStep { condition: None, next_version: 0 },
    }
}

/// The statement that saving a record sends.
#[derive(Debug)]
pub enum SaveStatement {
    /// An update of the saved row.
    Update(Table),
    /// An insert of a new row.
    Create(Table),
}

/// `t` updates all rows of the table of `m` that meet the condition `condition` (an
/// object's entries) with the assignments `changes`, and does nothing else.
pub open spec fn updates_with(t: Table, m: Model, changes: JsonV, condition: Seq<(Seq<char>, JsonV)>) -> bool {
    let um = t.update_manager->Some_0;
    &&& t.model == m
    &&& t.select_manager is None
    &&& t.insert_manager is None
    &&& t.delete_manager is None
    &&& t.update_manager is Some
    &&& um.ast.update is Some
    &&& um.ast.update->Some_0.value@ == changes
    &&& um.ast.wheres@.len() == 1
    &&& um.ast.wheres@[0].ops == Ops::where_ops()
    &&& um.ast.wheres@[0].value@ == JsonV::Object(condition)
    &&& um.ast.orders@.len() == 0
    &&& um.ast.limit is None
    &&& um.ast.offset is None
}

/// `t` inserts the row `row` into the table of `m`, and does nothing else.
pub open spec fn inserts(t: Table, m: Model, row: JsonV) -> bool {
    let im = t.insert_manager->Some_0;
    &&& t.model == m
    &&& t.select_manager is None
    &&& t.update_manager is None
    &&& t.delete_manager is None
    &&& t.insert_manager is Some
    &&& im.ast.insert is Some
    &&& im.ast.insert->Some_0.value@ == row
}

/// `t` deletes the rows of the table of `m` that meet the condition `condition` (an
/// object's entries), and does nothing else.
pub open spec fn deletes_where(t: Table, m: Model, condition: Seq<(Seq<char>, JsonV)>) -> bool {
    let dm = t.delete_manager->Some_0;
    &&& t.model == m
    &&& t.select_manager is None
    &&& t.insert_manager is None
    &&& t.update_manager is None
    &&& t.delete_manager is Some
    &&& dm.ast.wheres@.len() == 1
    &&& dm.ast.wheres@[0].ops == Ops::where_ops()
    &&& dm.ast.wheres@[0].value@ == JsonV::Object(condition)
    &&& dm.ast.orders@.len() == 0
    &&& dm.ast.limit is None
    &&& dm.ast.offset is None
}

/// The condition of updating a saved row: the locking condition, where there is one,
/// and the primary key, as a map sorted by key sets them.
pub open spec fn save_condition(
    locking_condition: Option<(Seq<char>, JsonV)>,
    primary_key: Seq<char>,
    primary_key_value: JsonV,
) -> Seq<(Seq<char>, JsonV)> {
    let base = match locking_condition {
        Some((c, v)) => seq![(c, v)],
        None => Seq::empty(),
    };
    entry_inserted(base, primary_key, primary_key_value)
}

/// The statement that saving a record sends, given its changed columns `changes` (see
/// `changed_attrs_json`), its primary key's saved value and the locking condition: none
/// without changes; an update of the changes restricted by `save_condition` for a saved
/// record; else an insert of the changes.
pub fn save_statement(
    model: &Model,
    changes: Option<Json>,
    persisted_primary_key: Option<Json>,
    locking_condition: Option<(String, Json)>,
) -> (r: Option<SaveStatement>)
    ensures
        changes is None ==> r is None,
        changes matches Some(c) ==> match persisted_primary_key {
            Some(pk) => r matches Some(SaveStatement::Update(t)) && updates_with(
                t,
                *model,
                c@,
                save_condition(
                    match locking_condition {
                        Some((col, v)) => Some((col@, v@)),
                        None => None,
                    },
                    model.primary_key@,
                    pk@,
                ),
            ),
            None => r matches Some(SaveStatement::Create(t)) && inserts(t, *model, c@),
        },
{
    let changes = match changes {
        None => return None,
        Some(c) => c,
    };
    match persisted_primary_key {
        Some(pk) => {
            let mut base: Vec<(String, Json)> = Vec::new();
            if let Some((col, v)) = locking_condition {
                base.push((col, v));
            }
            assert(entries_view(base@) =~= match locking_condition {
                Some((col, v)) => seq![(col@, v@)],
                None => Seq::<(Seq<char>, JsonV)>::empty(),
            });
            let entries = insert_entry(&base, model.primary_key.clone(), pk);
            proof {
                lemma_object_view(entries);
            }
            let condition = Json::Object(entries);
            let mut t = model.update_all(changes);
            t.where_(condition);
            Some(SaveStatement::Update(t))
        },
        None => Some(SaveStatement::Create(model.create(changes))),
    }
}

/// What an update of a saved record answers, given the number of rows it changed: a
/// record with a locking column whose update changed no row was saved since it was read.
pub fn update_outcome(rows_affected: u64, has_locking_column: bool) -> (r: Result<(), ArelError>)
    ensures
        r == if rows_affected == 0 && has_locking_column {
            Err::<(), ArelError>(ArelError::StaleRecord)
        } else {
            Ok(())
        },
{
    if rows_affected == 0 && has_locking_column {
        Err(ArelError::StaleRecord)
    } else {
        Ok(())
    }
}

/// The statement that deleting a saved record sends: a delete of the rows whose primary
/// key holds its saved value; refused for a record that was not saved.
pub fn delete_statement(model: &Model, persisted_primary_key: Option<Json>) -> (r: Result<Table, ArelError>)
    ensures
        persisted_primary_key is None ==> r == Err::<Table, ArelError>(ArelError::NotPersisted),
        persisted_primary_key matches Some(pk) ==> r matches Ok(t) && deletes_where(
            t,
            *model,
            seq![(model.primary_key@, pk@)],
        ),
{
    match persisted_primary_key {
        None => Err(ArelError::NotPersisted),
        Some(pk) => {
            let ghost pv = pk@;
            let mut entries: Vec<(String, Json)> = Vec::new();
            entries.push((model.primary_key.clone(), pk));
            proof {
                lemma_object_view(entries);
                assert(entries_view(entries@) =~= seq![(model.primary_key@, pv)]);
            }
            Ok(model.delete_all(Json::Object(entries)))
        },
    }
}

} // verus!
