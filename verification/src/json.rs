use vstd::prelude::*;

verus! {

/// A JSON value as this library models it: the structured payloads that the
/// protocol envelopes carry. A number is kept as its source token (the exact
/// character sequence serde_json would print for it), so a value is framed
/// back exactly as it arrived.
pub enum JsonValue {
    Null,
    Bool(bool),
    Num(String),
    Str(String),
    Arr(Vec<JsonValue>),
    Obj(Vec<(String, JsonValue)>),
}

/// The mathematical shape of a `JsonValue`: the same tree over sequences.
pub enum JVal {
    Null,
    Bool(bool),
    Num(Seq<char>),
    Str(Seq<char>),
    Arr(Seq<JVal>),
    Obj(Seq<(Seq<char>, JVal)>),
}

pub open spec fn jval_of(v: JsonValue) -> JVal
    decreases v,
{
    match v {
        JsonValue::Null => JVal::Null,
        JsonValue::Bool(b) => JVal::Bool(b),
        JsonValue::Num(t) => JVal::Num(t@),
        JsonValue::Str(s) => JVal::Str(s@),
        JsonValue::Arr(items) => JVal::Arr(jvals_of(items@)),
        JsonValue::Obj(entries) => JVal::Obj(jentries_of(entries@)),
    }
}

pub open spec fn jvals_of(items: Seq<JsonValue>) -> Seq<JVal>
    decreases items,
{
    if items.len() == 0 {
        Seq::empty()
    } else {
        jvals_of(items.drop_last()).push(jval_of(items.last()))
    }
}

pub open spec fn jentries_of(entries: Seq<(String, JsonValue)>) -> Seq<(Seq<char>, JVal)>
    decreases entries,
{
    if entries.len() == 0 {
        Seq::empty()
    } else {
        jentries_of(entries.drop_last()).push(
            (entries.last().0@, jval_of(entries.last().1)),
        )
    }
}

impl View for JsonValue {
    type V = JVal;

    open spec fn view(&self) -> JVal {
        jval_of(*self)
    }
}

/// The value under `key` in an object's entries, first occurrence first.
pub open spec fn obj_get(entries: Seq<(Seq<char>, JVal)>, key: Seq<char>) -> Option<JVal>
    decreases entries,
{
    if entries.len() == 0 {
        None
    } else if entries[0].0 == key {
        Some(entries[0].1)
    } else {
        obj_get(entries.drop_first(), key)
    }
}

pub broadcast proof fn lemma_jvals_of_len(items: Seq<JsonValue>)
    ensures
        #[trigger] jvals_of(items).len() == items.len(),
    decreases items,
{
    if items.len() > 0 {
        lemma_jvals_of_len(items.drop_last());
    }
}

pub broadcast proof fn lemma_jvals_of_index(items: Seq<JsonValue>, i: int)
    requires
        0 <= i < items.len(),
    ensures
        #[trigger] jvals_of(items)[i] == jval_of(items[i]),
    decreases items,
{
    lemma_jvals_of_len(items);
    if i < items.len() - 1 {
        lemma_jvals_of_index(items.drop_last(), i);
        lemma_jvals_of_len(items.drop_last());
    }
}

pub broadcast proof fn lemma_jentries_of_len(entries: Seq<(String, JsonValue)>)
    ensures
        #[trigger] jentries_of(entries).len() == entries.len(),
    decreases entries,
{
    if entries.len() > 0 {
        lemma_jentries_of_len(entries.drop_last());
    }
}

pub broadcast proof fn lemma_jentries_of_index(entries: Seq<(String, JsonValue)>, i: int)
    requires
        0 <= i < entries.len(),
    ensures
        #[trigger] jentries_of(entries)[i] == (entries[i].0@, jval_of(entries[i].1)),
    decreases entries,
{
    lemma_jentries_of_len(entries);
    if i < entries.len() - 1 {
        lemma_jentries_of_index(entries.drop_last(), i);
        lemma_jentries_of_len(entries.drop_last());
    }
}

impl JsonValue {
    /// A structurally equal copy of the value.
    pub fn duplicate(&self) -> (r: JsonValue)
        ensures
            r@ == self@,
        decreases *self,
    {
        broadcast use lemma_jvals_of_len, lemma_jvals_of_index, lemma_jentries_of_len,
            lemma_jentries_of_index, vstd::std_specs::vec::group_vec_axioms,
            vstd::seq::group_seq_axioms;

        match self {
            JsonValue::Null => JsonValue::Null,
            JsonValue::Bool(b) => JsonValue::Bool(*b),
            JsonValue::Num(t) => JsonValue::Num(t.clone()),
            JsonValue::Str(s) => JsonValue::Str(s.clone()),
            JsonValue::Arr(items) => {
                let mut copies: Vec<JsonValue> = Vec::new();
                let mut i: usize = 0;
                while i < items.len()
                    invariant
                        *self == JsonValue::Arr(*items),
                        0 <= i <= items@.len(),
                        copies@.len() == i,
                        forall|k: int| 0 <= k < i ==> jval_of(#[trigger] copies@[k]) == jval_of(
                            items@[k]),
                    decreases items@.len() - i,
                {
                    proof {
                        assert(decreases_to!(*self => items@[i as int])) by {
                            assert(decreases_to!(*self => self->Arr_0));
                            assert(decreases_to!(self->Arr_0 => self->Arr_0@));
                            assert(decreases_to!(self->Arr_0@ => self->Arr_0@[i as int]));
                        }
                    }
                    let copy = items[i].duplicate();
                    copies.push(copy);
                    i += 1;
                }
                proof {
                    assert(jvals_of(copies@) =~= jvals_of(items@));
                }
                JsonValue::Arr(copies)
            },
            JsonValue::Obj(entries) => {
                let mut copies: Vec<(String, JsonValue)> = Vec::new();
                let mut i: usize = 0;
                while i < entries.len()
                    invariant
                        *self == JsonValue::Obj(*entries),
                        0 <= i <= entries@.len(),
                        copies@.len() == i,
                        forall|k: int| 0 <= k < i ==> (#[trigger] copies@[k]).0@ == entries@[k].0@
                            && jval_of(copies@[k].1) == jval_of(entries@[k].1),
                    decreases entries@.len() - i,
                {
                    proof {
                        assert(decreases_to!(*self => entries@[i as int].1)) by {
                            assert(decreases_to!(*self => self->Obj_0));
                            assert(decreases_to!(self->Obj_0 => self->Obj_0@));
                            assert(decreases_to!(self->Obj_0@ => self->Obj_0@[i as int]));
                            assert(decreases_to!(self->Obj_0@[i as int] => self->Obj_0@[i as
                                int].1));
                        }
                    }
                    let key = entries[i].0.clone();
                    let val = entries[i].1.duplicate();
                    copies.push((key, val));
                    i += 1;
                }
                proof {
                    assert(jentries_of(copies@) =~= jentries_of(entries@));
                }
                JsonValue::Obj(copies)
            },
        }
    }

    /// The value under `key` when this value is an object holding that key.
    pub fn get_field<'a>(&'a self, key: &str) -> (r: Option<&'a JsonValue>)
        ensures
            match r {
                Some(v) => self@ matches JVal::Obj(es) && obj_get(es, key@) == Some(v@),
                None => !(self@ matches JVal::Obj(es) && obj_get(es, key@) is Some),
            },
    {
        broadcast use lemma_jentries_of_len, lemma_jentries_of_index,
            vstd::seq::group_seq_axioms;

        match self {
            JsonValue::Obj(entries) => {
                let ghost ghost_entries = jentries_of(entries@);
                proof {
                    assert(ghost_entries.skip(0) =~= ghost_entries);
                }
                let mut i: usize = 0;
                while i < entries.len()
                    invariant
                        *self == JsonValue::Obj(*entries),
                        ghost_entries == jentries_of(entries@),
                        ghost_entries.len() == entries@.len(),
                        0 <= i <= entries@.len(),
                        obj_get(ghost_entries, key@) == obj_get(
                            ghost_entries.skip(i as int),
                            key@,
                        ),
                        forall|k: int| 0 <= k < entries@.len() ==> #[trigger] ghost_entries[k]
                            == (entries@[k].0@, jval_of(entries@[k].1)),
                    decreases entries@.len() - i,
                {
                    proof {
                        assert(ghost_entries.skip(i as int)[0] == ghost_entries[i as int]);
                    }
                    if crate::text::str_eq(entries[i].0.as_str(), key) {
                        return Some(&entries[i].1);
                    }
                    proof {
                        assert(ghost_entries.skip(i as int).drop_first() =~= ghost_entries.skip(
                            i + 1));
                    }
                    i += 1;
                }
                proof {
                    assert(ghost_entries.skip(i as int).len() == 0);
                }
                None
            },
            _ => None,
        }
    }
}

} // verus!
