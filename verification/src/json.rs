//! JSON values: the library's own representation, and the mathematical model
//! that contracts speak of.

use vstd::prelude::*;

verus! {

/// Mathematical model of a JSON value. An object is the sequence of its
/// entries in order; a float is the decimal text that stands for it.
pub enum Json {
    Null,
    Bool(bool),
    Int(int),
    Float(Seq<char>),
    Str(Seq<char>),
    Array(Seq<Json>),
    Object(Seq<(Seq<char>, Json)>),
}

/// A JSON value as the library holds it. A floating-point number is held as
/// the decimal text it was read from (or is written as); turning that text
/// into a binary float is left to the code that prints or sends the value.
#[derive(Debug, PartialEq)]
pub enum JsonValue {
    Null,
    Bool(bool),
    Int(i64),
    Float(String),
    Str(String),
    Array(Vec<JsonValue>),
    Object(Vec<(String, JsonValue)>),
}

impl JsonValue {
    /// The model of the value.
    pub open spec fn model(self) -> Json
        decreases self,
    {
        match self {
            JsonValue::Null => Json::Null,
            JsonValue::Bool(b) => Json::Bool(b),
            JsonValue::Int(i) => Json::Int(i as int),
            JsonValue::Float(s) => Json::Float(s@),
            JsonValue::Str(s) => Json::Str(s@),
            JsonValue::Array(v) => Json::Array(Seq::new(v@.len(), |i: int| {
                if 0 <= i < v@.len() {
                    proof {
                        assert(decreases_to!(self => v));
                        assert(decreases_to!(v => v@));
                        assert(decreases_to!(v@ => v@[i]));
                    }
                    v@[i].model()
                } else {
                    Json::Null
                }
            })),
            JsonValue::Object(v) => Json::Object(Seq::new(v@.len(), |i: int| {
                if 0 <= i < v@.len() {
                    proof {
                        assert(decreases_to!(self => v));
                        assert(decreases_to!(v => v@));
                        assert(decreases_to!(v@ => v@[i]));
                        assert(decreases_to!(v@[i] => v@[i].1));
                    }
                    (v@[i].0@, v@[i].1.model())
                } else {
                    (Seq::empty(), Json::Null)
                }
            })),
        }
    }
}

/// A copy of a JSON value.
pub fn json_clone(v: &JsonValue) -> (r: JsonValue)
    ensures
        r.model() == v.model(),
    decreases v,
{
    match v {
        JsonValue::Null => JsonValue::Null,
        JsonValue::Bool(b) => JsonValue::Bool(*b),
        JsonValue::Int(i) => JsonValue::Int(*i),
        JsonValue::Float(s) => JsonValue::Float(s.clone()),
        JsonValue::Str(s) => JsonValue::Str(s.clone()),
        JsonValue::Array(items) => {
            let mut out: Vec<JsonValue> = Vec::new();
            let mut i: usize = 0;
            while i < items.len()
                invariant
                    i <= items.len(),
                    *v == JsonValue::Array(*items),
                    out@.len() == i,
                    forall|j: int| 0 <= j < i ==> #[trigger] out@[j].model() == items@[j].model(),
                decreases items.len() - i,
            {
                proof {
                    assert(decreases_to!(*v => v->Array_0));
                    assert(decreases_to!(*items => items@));
                    assert(decreases_to!(items@ => items@[i as int]));
                }
                let c = json_clone(&items[i]);
                out.push(c);
                i = i + 1;
            }
            let r = JsonValue::Array(out);
            assert forall|j: int| 0 <= j < out@.len() implies #[trigger] r.model()->Array_0[j] == v.model()->Array_0[j] by {
                assert(out@[j].model() == items@[j].model());
            }
            assert(r.model()->Array_0 =~= v.model()->Array_0);
            r
        },
        JsonValue::Object(items) => {
            let mut out: Vec<(String, JsonValue)> = Vec::new();
            let mut i: usize = 0;
            while i < items.len()
                invariant
                    i <= items.len(),
                    *v == JsonValue::Object(*items),
                    out@.len() == i,
                    forall|j: int| 0 <= j < i ==> #[trigger] out@[j].1.model() == items@[j].1.model() && out@[j].0@ == items@[j].0@,
                decreases items.len() - i,
            {
                proof {
                    assert(decreases_to!(*v => v->Object_0));
                    assert(decreases_to!(*items => items@));
                    assert(decreases_to!(items@ => items@[i as int]));
                    assert(decreases_to!(items@[i as int] => items@[i as int].1));
                }
                let k = items[i].0.clone();
                let c = json_clone(&items[i].1);
                out.push((k, c));
                i = i + 1;
            }
            let r = JsonValue::Object(out);
            assert(r.model()->Object_0 =~= v.model()->Object_0);
            r
        },
    }
}

impl Clone for JsonValue {
    fn clone(&self) -> (r: Self)
        ensures
            r.model() == self.model(),
    {
        json_clone(self)
    }
}

impl View for JsonValue {
    type V = Json;

    open spec fn view(&self) -> Json {
        self.model()
    }
}

/// The model of a sequence of object entries.
pub open spec fn entries_model(v: Seq<(String, JsonValue)>) -> Seq<(Seq<char>, Json)> {
    Seq::new(v.len(), |i: int| (v[i].0@, v[i].1.model()))
}

/// The value of the first entry with the given key.
pub open spec fn lookup(s: Seq<(Seq<char>, Json)>, k: Seq<char>) -> Option<Json>
    decreases s.len(),
{
    if s.len() == 0 {
        None
    } else if s[0].0 == k {
        Some(s[0].1)
    } else {
        lookup(s.drop_first(), k)
    }
}

/// The text of a string value.
pub open spec fn as_text(j: Option<Json>) -> Option<Seq<char>> {
    match j {
        Some(Json::Str(s)) => Some(s),
        _ => None,
    }
}

/// The position of the first entry with the given key.
pub fn find_entry(obj: &Vec<(String, JsonValue)>, key: &str) -> (r: Option<usize>)
    ensures
        match r {
            Some(i) => i < obj@.len() && lookup(entries_model(obj@), key@) == Some(obj@[i as int].1.model()),
            None => lookup(entries_model(obj@), key@) is None,
        },
{
    let mut i: usize = 0;
    assert(entries_model(obj@).skip(0) =~= entries_model(obj@));
    while i < obj.len()
        invariant
            i <= obj@.len(),
            lookup(entries_model(obj@), key@) == lookup(entries_model(obj@).skip(i as int), key@),
        decreases obj@.len() - i,
    {
        let ghost rest = entries_model(obj@).skip(i as int);
        assert(rest[0] == (obj@[i as int].0@, obj@[i as int].1.model()));
        if crate::text::str_eq(obj[i].0.as_str(), key) {
            return Some(i);
        }
        assert(rest.drop_first() =~= entries_model(obj@).skip(i + 1));
        i = i + 1;
    }
    assert(entries_model(obj@).skip(i as int).len() == 0);
    None
}

/// The value of the first entry with the given key.
pub fn object_get<'a>(obj: &'a Vec<(String, JsonValue)>, key: &str) -> (r: Option<&'a JsonValue>)
    ensures
        match r {
            Some(v) => lookup(entries_model(obj@), key@) == Some(v.model()),
            None => lookup(entries_model(obj@), key@) is None,
        },
{
    match find_entry(obj, key) {
        Some(i) => Some(&obj[i].1),
        None => None,
    }
}

impl JsonValue {
    /// The entries of an object value.
    pub fn as_object(&self) -> (r: Option<&Vec<(String, JsonValue)>>)
        ensures
            match r {
                Some(o) => self.model() == Json::Object(entries_model(o@)),
                None => !(self.model() is Object),
            },
    {
        match self {
            JsonValue::Object(o) => {
                assert(self.model()->Object_0 =~= entries_model(o@));
                Some(o)
            },
            _ => None,
        }
    }

    /// The items of an array value.
    pub fn as_array(&self) -> (r: Option<&Vec<JsonValue>>)
        ensures
            match r {
                Some(a) => self.model() == Json::Array(Seq::new(a@.len(), |i: int| a@[i].model())),
                None => !(self.model() is Array),
            },
    {
        match self {
            JsonValue::Array(a) => {
                assert(self.model()->Array_0 =~= Seq::new(a@.len(), |i: int| a@[i].model()));
                Some(a)
            },
            _ => None,
        }
    }

    /// The text of a string value.
    pub fn as_str(&self) -> (r: Option<&String>)
        ensures
            match r {
                Some(s) => self.model() == Json::Str(s@),
                None => !(self.model() is Str),
            },
    {
        match self {
            JsonValue::Str(s) => Some(s),
            _ => None,
        }
    }

    /// A string value holding the given text.
    pub fn from_str(s: &str) -> (r: JsonValue)
        ensures
            r.model() == Json::Str(s@),
    {
        JsonValue::Str(s.to_owned())
    }
}

} // verus!

verus! {

/// A JSON array of texts.
pub open spec fn texts_json(s: Seq<Seq<char>>) -> Json {
    Json::Array(Seq::new(s.len(), |i: int| Json::Str(s[i])))
}

/// An entry for an optional text: none when the text is absent.
pub open spec fn opt_text_entry(key: Seq<char>, v: Option<Seq<char>>) -> Seq<(Seq<char>, Json)> {
    match v {
        Some(t) => seq![(key, Json::Str(t))],
        None => Seq::empty(),
    }
}

/// A JSON array of the given texts.
pub fn strings_to_json(v: &Vec<String>) -> (r: JsonValue)
    ensures
        r.model() == texts_json(crate::text::views(v@)),
{
    let mut items: Vec<JsonValue> = Vec::new();
    let mut i: usize = 0;
    while i < v.len()
        invariant
            i <= v@.len(),
            items@.len() == i,
            forall|j: int| 0 <= j < i ==> #[trigger] items@[j].model() == Json::Str(v@[j]@),
        decreases v@.len() - i,
    {
        items.push(JsonValue::Str(v[i].clone()));
        i = i + 1;
    }
    let r = JsonValue::Array(items);
    assert forall|j: int| 0 <= j < items@.len() implies #[trigger] r.model()->Array_0[j] == texts_json(crate::text::views(v@))->Array_0[j] by {
        assert(items@[j].model() == Json::Str(v@[j]@));
    }
    assert(r.model()->Array_0 =~= texts_json(crate::text::views(v@))->Array_0);
    r
}

/// Appends an entry.
pub fn push_entry(entries: &mut Vec<(String, JsonValue)>, key: &str, value: JsonValue)
    ensures
        entries_model(final(entries)@) == entries_model(old(entries)@).push((key@, value.model())),
{
    let ghost vm = value.model();
    entries.push((key.to_owned(), value));
    assert(entries_model(entries@) =~= entries_model(old(entries)@).push((key@, vm)));
}

/// Appends an entry for an optional text, when it is present.
pub fn push_opt_text(entries: &mut Vec<(String, JsonValue)>, key: &str, v: &Option<String>)
    ensures
        entries_model(final(entries)@) == entries_model(old(entries)@) + opt_text_entry(key@, crate::text::opt_string_view(*v)),
{
    match v {
        Some(t) => {
            push_entry(entries, key, JsonValue::Str(t.clone()));
            assert(entries_model(entries@) =~= entries_model(old(entries)@) + opt_text_entry(key@, crate::text::opt_string_view(*v)));
        },
        None => {
            assert(entries_model(entries@) =~= entries_model(old(entries)@) + opt_text_entry(key@, crate::text::opt_string_view(*v)));
        },
    }
}

/// An object with the given entries.
pub fn object(entries: Vec<(String, JsonValue)>) -> (r: JsonValue)
    ensures
        r.model() == Json::Object(entries_model(entries@)),
{
    let r = JsonValue::Object(entries);
    assert(r.model()->Object_0 =~= entries_model(entries@));
    r
}

} // verus!
