use vstd::prelude::*;
use crate::text::{nat_decimal, int_decimal, u64_to_decimal, i64_to_decimal, same_text, text_less};

verus! {

broadcast use vstd::std_specs::vec::group_vec_axioms;

/// A JSON number, kept as serde_json keeps it: a non-negative integer, a negative
/// integer, or a float, which is held as the decimal text that serde_json writes for it.
#[derive(Debug)]
pub enum JsonNumber {
    PosInt(u64),
    NegInt(i64),
    Float(String),
}

/// A JSON value. An object holds its entries in the order in which its map yields
/// them: serde_json's map yields them sorted by key, each key once (see
/// `is_map_shaped`), and statements read an object's entries in that order.
#[derive(Debug)]
pub enum Json {
    Null,
    Bool(bool),
    Number(JsonNumber),
    String(String),
    Array(Vec<Json>),
    Object(Vec<(String, Json)>),
}

/// The mathematical model of a JSON value: a number is modelled by its decimal text.
pub enum JsonV {
    Null,
    Bool(bool),
    Number(Seq<char>),
    Str(Seq<char>),
    Array(Seq<JsonV>),
    Object(Seq<(Seq<char>, JsonV)>),
}

impl JsonNumber {
    /// The decimal text that serde_json writes for this number.
    pub open spec fn text(self) -> Seq<char> {
        match self {
            JsonNumber::PosInt(u) => nat_decimal(u as nat),
            JsonNumber::NegInt(i) => int_decimal(i as int),
            JsonNumber::Float(s) => s@,
        }
    }

    /// The decimal text that serde_json writes for this number.
    pub fn to_text(&self) -> (r: String)
        ensures
            r@ == self.text(),
    {
        match self {
            JsonNumber::PosInt(u) => u64_to_decimal(*u),
            JsonNumber::NegInt(i) => i64_to_decimal(*i),
            JsonNumber::Float(s) => s.clone(),
        }
    }
}

pub open spec fn json_view(j: Json) -> JsonV
    decreases j,
{
    match j {
        Json::Null => JsonV::Null,
        Json::Bool(b) => JsonV::Bool(b),
        Json::Number(n) => JsonV::Number(n.text()),
        Json::String(s) => JsonV::Str(s@),
        Json::Array(v) => JsonV::Array(
            Seq::new(
                v@.len(),
                |i: int|
                    if 0 <= i < v.len() {
                        json_view(v[i])
                    } else {
                        JsonV::Null
                    },
            ),
        ),
        Json::Object(v) => JsonV::Object(
            Seq::new(
                v@.len(),
                |i: int|
                    if 0 <= i < v.len() {
                        (v[i].0@, json_view(v[i].1))
                    } else {
                        (Seq::empty(), JsonV::Null)
                    },
            ),
        ),
    }
}

impl View for Json {
    type V = JsonV;

    open spec fn view(&self) -> JsonV {
        json_view(*self)
    }
}

/// The models of the elements of `v`.
pub open spec fn jsons_view(v: Seq<Json>) -> Seq<JsonV> {
    Seq::new(v.len(), |i: int| v[i]@)
}

pub proof fn lemma_array_view(v: Vec<Json>)
    ensures
        Json::Array(v)@ == JsonV::Array(jsons_view(v@)),
{
    let a = Json::Array(v)@;
    let s = a->Array_0;
    assert(s.len() == v@.len());
    assert forall|i: int| 0 <= i < v@.len() implies s[i] == jsons_view(v@)[i] by {}
    assert(s =~= jsons_view(v@));
}

/// The models of the entries of an object.
pub open spec fn entries_view(v: Seq<(String, Json)>) -> Seq<(Seq<char>, JsonV)> {
    Seq::new(v.len(), |i: int| (v[i].0@, v[i].1@))
}

pub proof fn lemma_object_view(v: Vec<(String, Json)>)
    ensures
        Json::Object(v)@ == JsonV::Object(entries_view(v@)),
{
    let o = Json::Object(v)@;
    let s = o->Object_0;
    assert(s.len() == v@.len());
    assert forall|i: int| 0 <= i < v@.len() implies s[i] == entries_view(v@)[i] by {}
    assert(s =~= entries_view(v@));
}

impl Json {
    /// A copy of this value.
    pub fn deep_clone(&self) -> (r: Json)
        ensures
            r@ == self@,
        decreases self,
    {
        match self {
            Json::Null => Json::Null,
            Json::Bool(b) => Json::Bool(*b),
            Json::Number(n) => Json::Number(
                match n {
                    JsonNumber::PosInt(u) => JsonNumber::PosInt(*u),
                    JsonNumber::NegInt(i) => JsonNumber::NegInt(*i),
                    JsonNumber::Float(s) => JsonNumber::Float(s.clone()),
                },
            ),
            Json::String(s) => Json::String(s.clone()),
            Json::Array(v) => {
                let r = clone_jsons(v);
                proof {
                    lemma_array_view(*v);
                    lemma_array_view(r);
                }
                Json::Array(r)
            },
            Json::Object(v) => {
                let mut r: Vec<(String, Json)> = Vec::new();
                let mut i: usize = 0;
                while i < v.len()
                    invariant
                        Json::Object(*v) == *self,
                        i <= v.len(),
                        r.len() == i,
                        forall|k: int|
                            0 <= k < i ==> (#[trigger] r@[k]).0@ == v@[k].0@ && r@[k].1@
                                == v@[k].1@,
                    decreases v.len() - i,
                {
                    proof {
                        assert(decreases_to!(*self => self->Object_0));
                        assert(self->Object_0 == *v);
                        assert(decreases_to!(v => v[i as int]));
                        assert(decreases_to!(v[i as int] => v[i as int].1));
                        assert(decreases_to!(*self => v[i as int].1));
                    }
                    let c = v[i].1.deep_clone();
                    r.push((v[i].0.clone(), c));
                    i = i + 1;
                }
                let ghost rv = Json::Object(r)@;
                let ghost sv = self@;
                assert(rv matches JsonV::Object(es) && sv matches JsonV::Object(fs) && es =~= fs);
                Json::Object(r)
            },
        }
    }

    /// A JSON string holding `s`.
    pub fn from_str(s: &str) -> (r: Json)
        ensures
            r@ == JsonV::Str(s@),
    {
        Json::String(s.to_string())
    }

    /// A JSON number holding `n`.
    pub fn from_i64(n: i64) -> (r: Json)
        ensures
            r@ == JsonV::Number(int_decimal(n as int)),
    {
        if n >= 0 {
            Json::Number(JsonNumber::PosInt(n as u64))
        } else {
            Json::Number(JsonNumber::NegInt(n))
        }
    }
}

/// Copies of the elements of `v`, in order.
pub fn clone_jsons(v: &Vec<Json>) -> (r: Vec<Json>)
    ensures
        jsons_view(r@) == jsons_view(v@),
    decreases v,
{
    let mut r: Vec<Json> = Vec::new();
    let mut i: usize = 0;
    while i < v.len()
        invariant
            i <= v.len(),
            r.len() == i,
            forall|k: int| 0 <= k < i ==> (#[trigger] r@[k])@ == v@[k]@,
        decreases v.len() - i,
    {
        let c = v[i].deep_clone();
        r.push(c);
        i = i + 1;
    }
    assert(jsons_view(r@) =~= jsons_view(v@));
    r
}

impl Json {
    /// Whether this value and `other` are the same JSON value.
    pub fn same_value(&self, other: &Json) -> (r: bool)
        ensures
            r == (self@ == other@),
        decreases self,
    {
        match (self, other) {
            (Json::Null, Json::Null) => true,
            (Json::Bool(x), Json::Bool(y)) => *x == *y,
            (Json::Number(x), Json::Number(y)) => same_text(x.to_text().as_str(), y.to_text().as_str()),
            (Json::String(x), Json::String(y)) => same_text(x.as_str(), y.as_str()),
            (Json::Array(v), Json::Array(w)) => {
                proof {
                    lemma_array_view(*v);
                    lemma_array_view(*w);
                }
                if v.len() != w.len() {
                    assert(jsons_view(v@).len() != jsons_view(w@).len());
                    return false;
                }
                let mut i: usize = 0;
                while i < v.len()
                    invariant
                        Json::Array(*v) == *self,
                        Json::Array(*w) == *other,
                        self@ == JsonV::Array(jsons_view(v@)),
                        other@ == JsonV::Array(jsons_view(w@)),
                        v.len() == w.len(),
                        i <= v.len(),
                        forall|k: int| 0 <= k < i ==> (#[trigger] v@[k])@ == w@[k]@,
                    decreases v.len() - i,
                {
                    proof {
                        assert(decreases_to!(*self => self->Array_0));
                        assert(self->Array_0 == *v);
                        assert(decreases_to!(v => v[i as int]));
                        assert(decreases_to!(*self => v[i as int]));
                    }
                    if !v[i].same_value(&w[i]) {
                        assert(jsons_view(v@)[i as int] != jsons_view(w@)[i as int]);
                        return false;
                    }
                    i = i + 1;
                }
                assert(jsons_view(v@) =~= jsons_view(w@));
                true
            },
            (Json::Object(v), Json::Object(w)) => {
                proof {
                    lemma_object_view(*v);
                    lemma_object_view(*w);
                }
                if v.len() != w.len() {
                    assert(entries_view(v@).len() != entries_view(w@).len());
                    return false;
                }
                let mut i: usize = 0;
                while i < v.len()
                    invariant
                        Json::Object(*v) == *self,
                        Json::Object(*w) == *other,
                        self@ == JsonV::Object(entries_view(v@)),
                        other@ == JsonV::Object(entries_view(w@)),
                        v.len() == w.len(),
                        i <= v.len(),
                        forall|k: int| 0 <= k < i ==> (#[trigger] v@[k]).0@ == w@[k].0@ && v@[k].1@ == w@[k].1@,
                    decreases v.len() - i,
                {
                    proof {
                        assert(decreases_to!(*self => self->Object_0));
                        assert(self->Object_0 == *v);
                        assert(decreases_to!(v => v[i as int]));
                        assert(decreases_to!(v[i as int] => v[i as int].1));
                        assert(decreases_to!(*self => v[i as int].1));
                    }
                    if !same_text(v[i].0.as_str(), w[i].0.as_str()) || !v[i].1.same_value(&w[i].1) {
                        assert(entries_view(v@)[i as int] != entries_view(w@)[i as int]);
                        return false;
                    }
                    i = i + 1;
                }
                assert(entries_view(v@) =~= entries_view(w@));
                true
            },
            _ => false,
        }
    }
}

/// The keys of the entries `es` each come before the next (see `text_less`): the
/// entries of a map sorted by key, no key twice.
pub open spec fn keys_sorted(es: Seq<(Seq<char>, JsonV)>) -> bool {
    forall|i: int| 0 <= i < es.len() - 1 ==> text_less(#[trigger] es[i].0, es[i + 1].0)
}

/// `j` is not an object, or an object whose entries are those of a map sorted by key,
/// as serde_json's map yields them.
pub open spec fn is_map_shaped(j: JsonV) -> bool {
    match j {
        JsonV::Object(es) => keys_sorted(es),
        _ => true,
    }
}

} // verus!
