//! The JSON data model that every wire payload is built from.
use vstd::prelude::*;

verus! {

/// A JSON number, kept without loss: integers as machine integers, anything
/// else in its textual form.
#[derive(Debug, Clone, PartialEq)]
pub enum JsonNumber {
    PosInt(u64),
    NegInt(i64),
    Float(String),
}

/// A JSON value. Objects keep their members in order.
#[derive(Debug, PartialEq)]
pub enum Json {
    Null,
    Bool(bool),
    Number(JsonNumber),
    String(String),
    Array(Vec<Json>),
    Object(Vec<(String, Json)>),
}

/// Mathematical form of a JSON number.
pub enum NumberModel {
    PosInt(u64),
    NegInt(i64),
    Float(Seq<char>),
}

/// Mathematical form of a JSON value.
pub enum JsonModel {
    Null,
    Bool(bool),
    Number(NumberModel),
    Str(Seq<char>),
    Array(Seq<JsonModel>),
    Object(Seq<(Seq<char>, JsonModel)>),
}

impl View for JsonNumber {
    type V = NumberModel;

    open spec fn view(&self) -> NumberModel {
        match self {
            JsonNumber::PosInt(n) => NumberModel::PosInt(*n),
            JsonNumber::NegInt(n) => NumberModel::NegInt(*n),
            JsonNumber::Float(s) => NumberModel::Float(s@),
        }
    }
}

pub open spec fn json_model(j: Json) -> JsonModel
    decreases j,
{
    match j {
        Json::Null => JsonModel::Null,
        Json::Bool(b) => JsonModel::Bool(b),
        Json::Number(n) => JsonModel::Number(n@),
        Json::String(s) => JsonModel::Str(s@),
        Json::Array(items) => JsonModel::Array(
            Seq::new(items@.len(), |i: int| if 0 <= i < items@.len() { json_model(items@[i]) } else { JsonModel::Null }),
        ),
        Json::Object(entries) => JsonModel::Object(
            Seq::new(entries@.len(), |i: int| if 0 <= i < entries@.len() { (entries@[i].0@, json_model(entries@[i].1)) } else { (Seq::empty(), JsonModel::Null) }),
        ),
    }
}

impl View for Json {
    type V = JsonModel;

    open spec fn view(&self) -> JsonModel {
        json_model(*self)
    }
}

/// The value of the first entry of `entries` whose key is `key`.
pub open spec fn lookup<V>(entries: Seq<(Seq<char>, V)>, key: Seq<char>) -> Option<V>
    decreases entries.len(),
{
    if entries.len() == 0 {
        None
    } else if entries[0].0 == key {
        Some(entries[0].1)
    } else {
        lookup(entries.drop_first(), key)
    }
}

/// Looking a key up in a suffix that starts at `i` gives the same answer as
/// in the whole sequence when none of the first `i` keys matches.
pub proof fn lemma_lookup_skip<V>(entries: Seq<(Seq<char>, V)>, key: Seq<char>, i: int)
    requires
        0 <= i <= entries.len(),
        forall|k: int| 0 <= k < i ==> #[trigger] entries[k].0 != key,
    ensures
        lookup(entries, key) == lookup(entries.subrange(i, entries.len() as int), key),
    decreases i,
{
    if i == 0 {
        assert(entries.subrange(0, entries.len() as int) =~= entries);
    } else {
        lemma_lookup_skip(entries, key, i - 1);
        let rest = entries.subrange(i - 1, entries.len() as int);
        assert(rest.drop_first() =~= entries.subrange(i, entries.len() as int));
    }
}

/// A key found at `i`, with no earlier match, is what the lookup returns.
pub proof fn lemma_lookup_found<V>(entries: Seq<(Seq<char>, V)>, key: Seq<char>, i: int)
    requires
        0 <= i < entries.len(),
        entries[i].0 == key,
        forall|k: int| 0 <= k < i ==> #[trigger] entries[k].0 != key,
    ensures
        lookup(entries, key) == Some(entries[i].1),
{
    lemma_lookup_skip(entries, key, i);
}

/// A key that no entry holds is not found.
pub proof fn lemma_lookup_absent<V>(entries: Seq<(Seq<char>, V)>, key: Seq<char>)
    requires
        forall|k: int| 0 <= k < entries.len() ==> #[trigger] entries[k].0 != key,
    ensures
        lookup(entries, key) is None,
{
    lemma_lookup_skip(entries, key, entries.len() as int);
}

/// Index of the first entry whose key is `key`.
pub fn find_key<V>(entries: &Vec<(String, V)>, key: &String) -> (r: Option<usize>)
    ensures
        match r {
            Some(i) => i < entries@.len() && entries@[i as int].0@ == key@ && forall|k: int|
                0 <= k < i ==> #[trigger] entries@[k].0@ != key@,
            None => forall|k: int| 0 <= k < entries@.len() ==> #[trigger] entries@[k].0@ != key@,
        },
{
    let mut i: usize = 0;
    while i < entries.len()
        invariant
            i <= entries@.len(),
            forall|k: int| 0 <= k < i ==> #[trigger] entries@[k].0@ != key@,
        decreases entries.len() - i,
    {
        if entries[i].0 == *key {
            return Some(i);
        }
        i = i + 1;
    }
    None
}

/// The members of an object, or nothing for any other value.
pub open spec fn members(j: JsonModel) -> Seq<(Seq<char>, JsonModel)> {
    match j {
        JsonModel::Object(es) => es,
        _ => Seq::empty(),
    }
}

/// Mathematical form of the members of an object.
pub open spec fn entries_model(v: Seq<(String, Json)>) -> Seq<(Seq<char>, JsonModel)> {
    Seq::new(v.len(), |i: int| (v[i].0@, v[i].1@))
}

pub proof fn lemma_object_model(v: Vec<(String, Json)>)
    ensures
        Json::Object(v)@ == JsonModel::Object(entries_model(v@)),
{
    assert(Json::Object(v)@->Object_0 =~= entries_model(v@));
}

/// Adds the member `key: v` at the end of `out`.
pub fn push_member(out: &mut Vec<(String, Json)>, key: &str, v: Json)
    ensures
        entries_model(final(out)@) == entries_model(old(out)@).push((key@, v@)),
{
    out.push((owned(key), v));
    assert(entries_model(out@) =~= entries_model(old(out)@).push((key@, v@)));
}

/// Adds `key: v` when `v` is given.
pub fn push_optional(out: &mut Vec<(String, Json)>, key: &str, v: &Option<Json>)
    ensures
        entries_model(final(out)@) == match v {
            Some(x) => entries_model(old(out)@).push((key@, x@)),
            None => entries_model(old(out)@),
        },
{
    match v {
        Some(x) => push_member(out, key, x.duplicate()),
        None => {},
    }
}

/// A string holding exactly the characters of `s`.
pub fn owned(s: &str) -> (r: String)
    ensures
        r@ == s@,
{
    s.to_string()
}

impl JsonNumber {
    pub fn duplicate(&self) -> (r: JsonNumber)
        ensures
            r@ == self@,
    {
        match self {
            JsonNumber::PosInt(n) => JsonNumber::PosInt(*n),
            JsonNumber::NegInt(n) => JsonNumber::NegInt(*n),
            JsonNumber::Float(s) => JsonNumber::Float(s.clone()),
        }
    }
}

impl Clone for Json {
    fn clone(&self) -> Self {
        self.duplicate()
    }
}

impl Json {
    /// A copy of this value.
    #[verifier::loop_isolation(false)]
    pub fn duplicate(&self) -> (r: Json)
        ensures
            r@ == self@,
        decreases self,
    {
        match self {
            Json::Null => Json::Null,
            Json::Bool(b) => Json::Bool(*b),
            Json::Number(n) => Json::Number(n.duplicate()),
            Json::String(s) => Json::String(s.clone()),
            Json::Array(items) => {
                let mut out: Vec<Json> = Vec::new();
                let mut i: usize = 0;
                while i < items.len()
                    invariant
                        i <= items.len(),
                        out@.len() == i,
                        forall|k: int| 0 <= k < i ==> #[trigger] json_model(out@[k]) == json_model(items@[k]),
                    decreases items.len() - i,
                {
                    proof {
                        broadcast use vstd::std_specs::vec::axiom_vec_index_decreases;
                        assert(decreases_to!(*self => self->Array_0));
                        assert(decreases_to!(self->Array_0 => self->Array_0[i as int]));
                    }
                    let c = items[i].duplicate();
                    out.push(c);
                    i = i + 1;
                }
                let r = Json::Array(out);
                assert(json_model(r)->Array_0 =~= json_model(*self)->Array_0) by {
                    assert forall|k: int| 0 <= k < items@.len() implies #[trigger] json_model(r)->Array_0[k]
                        == json_model(*self)->Array_0[k] by {
                        assert(json_model(out@[k]) == json_model(items@[k]));
                    }
                }
                r
            },
            Json::Object(entries) => {
                let mut out: Vec<(String, Json)> = Vec::new();
                let mut i: usize = 0;
                while i < entries.len()
                    invariant
                        i <= entries.len(),
                        out@.len() == i,
                        forall|k: int| 0 <= k < i ==> #[trigger] out@[k].0@ == entries@[k].0@
                            && json_model(out@[k].1) == json_model(entries@[k].1),
                    decreases entries.len() - i,
                {
                    let k = entries[i].0.clone();
                    proof {
                        broadcast use vstd::std_specs::vec::axiom_vec_index_decreases;
                        assert(decreases_to!(*self => self->Object_0));
                        assert(decreases_to!(self->Object_0 => self->Object_0[i as int]));
                        assert(decreases_to!(self->Object_0[i as int] => self->Object_0[i as int].1));
                    }
                    let v = entries[i].1.duplicate();
                    out.push((k, v));
                    i = i + 1;
                }
                let r = Json::Object(out);
                assert(json_model(r)->Object_0 =~= json_model(*self)->Object_0) by {
                    assert forall|k: int| 0 <= k < entries@.len() implies #[trigger] json_model(r)->Object_0[k]
                        == json_model(*self)->Object_0[k] by {
                        assert(out@[k].0@ == entries@[k].0@);
                    }
                }
                r
            },
        }
    }

    /// The first member named `key`, when this value is an object.
    #[verifier::loop_isolation(false)]
    pub fn get(&self, key: &String) -> (r: Option<&Json>)
        ensures
            match r {
                Some(v) => lookup(members(self@), key@) == Some(v@),
                None => lookup(members(self@), key@) is None,
            },
    {
        match self {
            Json::Object(entries) => {
                let mut i: usize = 0;
                assert(members(self@).subrange(0, entries@.len() as int) =~= members(self@));
                while i < entries.len()
                    invariant
                        i <= entries.len(),
                        lookup(members(self@), key@) == lookup(members(self@).subrange(i as int, entries@.len() as int), key@),
                        members(self@).len() == entries@.len(),
                        forall|k: int| 0 <= k < entries@.len() ==> #[trigger] members(self@)[k] == (entries@[k].0@, json_model(entries@[k].1)),
                    decreases entries.len() - i,
                {
                    let ghost rest = members(self@).subrange(i as int, entries@.len() as int);
                    assert(rest.drop_first() =~= members(self@).subrange(i + 1, entries@.len() as int));
                    if entries[i].0 == *key {
                        return Some(&entries[i].1);
                    }
                    i = i + 1;
                }
                None
            },
            _ => None,
        }
    }
}

} // verus!
