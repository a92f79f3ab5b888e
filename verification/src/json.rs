//! JSON values.
use vstd::prelude::*;
use vstd::string::*;

use crate::string_map::StringMap;
use crate::text::same_text;

verus! {

/// A JSON value.
///
/// A number that fits in an `i64` is held as one; any other number is held by
/// its text. The keys of an object are expected to differ; where they do not,
/// a look-up finds the first entry.
#[derive(Debug, PartialEq)]
pub enum Json {
    Null,
    Bool(bool),
    Int(i64),
    Number(String),
    Text(String),
    Array(Vec<Json>),
    Object(Vec<(String, Json)>),
}

/// What a JSON value says.
pub enum JsonTree {
    Null,
    Bool(bool),
    Int(int),
    Number(Seq<char>),
    Text(Seq<char>),
    Array(Seq<JsonTree>),
    Object(Seq<(Seq<char>, JsonTree)>),
}

/// The value of the first entry with the key `key`, if there is one.
pub open spec fn find_entry(entries: Seq<(Seq<char>, JsonTree)>, key: Seq<char>) -> Option<JsonTree>
    decreases entries.len(),
{
    if entries.len() == 0 {
        None
    } else if entries[0].0 == key {
        Some(entries[0].1)
    } else {
        find_entry(entries.skip(1), key)
    }
}

/// Whether every entry holds a string.
pub open spec fn all_text(entries: Seq<(Seq<char>, JsonTree)>) -> bool {
    forall|i: int| 0 <= i < entries.len() ==> (#[trigger] entries[i]).1 is Text
}

/// The map of the entries that hold strings; of two entries with one key the
/// later one counts.
pub open spec fn text_entries(entries: Seq<(Seq<char>, JsonTree)>) -> Map<Seq<char>, Seq<char>>
    decreases entries.len(),
{
    if entries.len() == 0 {
        Map::empty()
    } else {
        match entries.last().1 {
            JsonTree::Text(t) => text_entries(entries.drop_last()).insert(entries.last().0, t),
            _ => text_entries(entries.drop_last()),
        }
    }
}

impl JsonTree {
    /// The value of the field `key`, where this is an object that has it.
    pub open spec fn field(self, key: Seq<char>) -> Option<JsonTree> {
        match self {
            JsonTree::Object(entries) => find_entry(entries, key),
            _ => None,
        }
    }

    /// The map that this value is, where it is an object of strings.
    pub open spec fn string_map(self) -> Option<Map<Seq<char>, Seq<char>>> {
        match self {
            JsonTree::Object(entries) => if all_text(entries) {
                Some(text_entries(entries))
            } else {
                None
            },
            _ => None,
        }
    }
}

impl Json {
    /// What this value says.
    pub open spec fn tree(self) -> JsonTree
        decreases self,
    {
        match self {
            Json::Null => JsonTree::Null,
            Json::Bool(b) => JsonTree::Bool(b),
            Json::Int(n) => JsonTree::Int(n as int),
            Json::Number(t) => JsonTree::Number(t@),
            Json::Text(t) => JsonTree::Text(t@),
            Json::Array(items) => JsonTree::Array(
                Seq::new(
                    items@.len(),
                    |i: int|
                        if 0 <= i < items@.len() {
                            items@[i].tree()
                        } else {
                            JsonTree::Null
                        },
                ),
            ),
            Json::Object(entries) => JsonTree::Object(
                Seq::new(
                    entries@.len(),
                    |i: int|
                        if 0 <= i < entries@.len() {
                            (entries@[i].0@, entries@[i].1.tree())
                        } else {
                            (Seq::empty(), JsonTree::Null)
                        },
                ),
            ),
        }
    }

    /// The value of the field `key`, where this is an object that has it.
    pub fn field(&self, key: &str) -> (value: Option<&Json>)
        ensures
            match value {
                Some(v) => self.tree().field(key@) == Some(v.tree()),
                None => self.tree().field(key@) is None,
            },
    {
        match self {
            Json::Object(entries) => {
                let ghost all = self.tree()->Object_0;
                assert(all.skip(0) =~= all);
                let mut i: usize = 0;
                while i < entries.len()
                    invariant
                        i <= entries@.len(),
                        self matches Json::Object(v) && v == entries,
                        all == self.tree()->Object_0,
                        find_entry(all, key@) == find_entry(all.skip(i as int), key@),
                    decreases entries@.len() - i,
                {
                    assert(all.skip(i as int)[0] == (entries@[i as int].0@, entries@[i as int].1.tree()));
                    if same_text(entries[i].0.as_str(), key) {
                        return Some(&entries[i].1);
                    }
                    assert(all.skip(i as int).skip(1) =~= all.skip(i + 1));
                    i = i + 1;
                }
                None
            },
            _ => None,
        }
    }

    /// The string that this value is, if it is one.
    pub fn as_str(&self) -> (text: Option<&str>)
        ensures
            match text {
                Some(t) => self.tree() == JsonTree::Text(t@),
                None => !(self.tree() is Text),
            },
    {
        match self {
            Json::Text(t) => Some(t.as_str()),
            _ => None,
        }
    }

    /// The integer that this value is, where it fits in an `i64`.
    pub fn as_i64(&self) -> (number: Option<i64>)
        ensures
            match number {
                Some(n) => self.tree() == JsonTree::Int(n as int),
                None => !(self.tree() is Int),
            },
    {
        match self {
            Json::Int(n) => Some(*n),
            _ => None,
        }
    }

    /// The map that this value is, where it is an object of strings.
    pub fn to_string_map(&self) -> (map: Option<StringMap>)
        ensures
            match map {
                Some(m) => self.tree().string_map() == Some(m@),
                None => self.tree().string_map() is None,
            },
    {
        match self {
            Json::Object(entries) => {
                let ghost all = self.tree()->Object_0;
                let mut map = StringMap::new();
                let mut i: usize = 0;
                while i < entries.len()
                    invariant
                        i <= entries@.len(),
                        self matches Json::Object(v) && v == entries,
                        all == self.tree()->Object_0,
                        all_text(all.take(i as int)),
                        map@ == text_entries(all.take(i as int)),
                    decreases entries@.len() - i,
                {
                    assert(all[i as int] == (entries@[i as int].0@, entries@[i as int].1.tree()));
                    assert(all.take(i + 1).drop_last() =~= all.take(i as int));
                    match &entries[i].1 {
                        Json::Text(t) => {
                            map.insert(entries[i].0.clone(), t.clone());
                            assert forall|k: int| 0 <= k < i + 1 implies (#[trigger] all.take(
                                i + 1,
                            )[k]).1 is Text by {
                                if k < i {
                                    assert(all.take(i as int)[k] == all.take(i + 1)[k]);
                                }
                            }
                        },
                        _ => {
                            return None;
                        },
                    }
                    i = i + 1;
                }
                assert(all.take(i as int) =~= all);
                Some(map)
            },
            _ => None,
        }
    }

    /// The object with these fields.
    pub fn object(fields: Vec<(String, Json)>) -> (value: Json)
        ensures
            value.tree() matches JsonTree::Object(tree) && tree.len() == fields@.len() && forall|
                i: int,
            |
                0 <= i < fields@.len() ==> #[trigger] tree[i] == (
                    fields@[i].0@,
                    fields@[i].1.tree(),
                ),
    {
        Json::Object(fields)
    }

    /// A string.
    pub fn text(text: &str) -> (value: Json)
        ensures
            value.tree() == JsonTree::Text(text@),
    {
        Json::Text(text.to_owned())
    }

    /// A number, or `null` where there is none.
    pub fn optional_int(n: Option<i64>) -> (value: Json)
        ensures
            value.tree() == match n {
                Some(n) => JsonTree::Int(n as int),
                None => JsonTree::Null,
            },
    {
        match n {
            Some(n) => Json::Int(n),
            None => Json::Null,
        }
    }

    /// A copy of this value.
    pub fn copy(&self) -> (value: Json)
        ensures
            value.tree() == self.tree(),
        decreases self,
    {
        match self {
            Json::Null => Json::Null,
            Json::Bool(b) => Json::Bool(*b),
            Json::Int(n) => Json::Int(*n),
            Json::Number(t) => Json::Number(t.clone()),
            Json::Text(t) => Json::Text(t.clone()),
            Json::Array(items) => {
                let mut out: Vec<Json> = Vec::new();
                let mut i: usize = 0;
                while i < items.len()
                    invariant
                        self matches Json::Array(v) && v == items,
                        i <= items@.len(),
                        out@.len() == i,
                        forall|k: int| 0 <= k < i ==> (#[trigger] out@[k]).tree() == items@[k].tree(),
                    decreases items@.len() - i,
                {
                    assert(decreases_to!(*self => items@[i as int]));
                    out.push(items[i].copy());
                    i = i + 1;
                }
                let value = Json::Array(out);
                assert(value.tree()->Array_0 =~= self.tree()->Array_0);
                value
            },
            Json::Object(entries) => {
                let mut out: Vec<(String, Json)> = Vec::new();
                let mut i: usize = 0;
                while i < entries.len()
                    invariant
                        self matches Json::Object(v) && v == entries,
                        i <= entries@.len(),
                        out@.len() == i,
                        forall|k: int|
                            0 <= k < i ==> (#[trigger] out@[k]).0@ == entries@[k].0@
                                && out@[k].1.tree() == entries@[k].1.tree(),
                    decreases entries@.len() - i,
                {
                    assert(decreases_to!(*self => entries@[i as int].1));
                    out.push((entries[i].0.clone(), entries[i].1.copy()));
                    i = i + 1;
                }
                let value = Json::Object(out);
                assert(value.tree()->Object_0 =~= self.tree()->Object_0);
                value
            },
        }
    }
}

/// A field is found where it stands first.
pub proof fn lemma_find_entry(entries: Seq<(Seq<char>, JsonTree)>, at: int)
    requires
        0 <= at < entries.len(),
        forall|i: int| 0 <= i < at ==> (#[trigger] entries[i]).0 != entries[at].0,
    ensures
        find_entry(entries, entries[at].0) == Some(entries[at].1),
    decreases at,
{
    if at > 0 {
        let rest = entries.skip(1);
        assert(rest[at - 1] == entries[at]);
        assert(entries[0].0 != entries[at].0);
        assert forall|i: int| 0 <= i < at - 1 implies (#[trigger] rest[i]).0 != rest[at - 1].0 by {
            assert(rest[i] == entries[i + 1]);
        }
        lemma_find_entry(rest, at - 1);
    }
}

/// A field is not found where none has its name.
pub proof fn lemma_no_entry(entries: Seq<(Seq<char>, JsonTree)>, key: Seq<char>)
    requires
        forall|i: int| 0 <= i < entries.len() ==> (#[trigger] entries[i]).0 != key,
    ensures
        find_entry(entries, key) is None,
    decreases entries.len(),
{
    if entries.len() > 0 {
        let rest = entries.skip(1);
        assert(entries[0].0 != key);
        assert forall|i: int| 0 <= i < rest.len() implies (#[trigger] rest[i]).0 != key by {
            assert(rest[i] == entries[i + 1]);
        }
        lemma_no_entry(rest, key);
    }
}

/// What a JSON value says is what it holds, all the way down.
pub proof fn lemma_tree(value: Json, i: int)
    ensures
        value is Null <==> value.tree() == JsonTree::Null,
        value matches Json::Bool(b) ==> value.tree() == JsonTree::Bool(b),
        value matches Json::Int(n) ==> value.tree() == JsonTree::Int(n as int),
        value matches Json::Number(t) ==> value.tree() == JsonTree::Number(t@),
        value matches Json::Text(t) ==> value.tree() == JsonTree::Text(t@),
        value matches Json::Array(items) ==> {
            &&& value.tree() is Array
            &&& value.tree()->Array_0.len() == items@.len()
            &&& 0 <= i < items@.len() ==> value.tree()->Array_0[i] == items@[i].tree()
        },
        value matches Json::Object(fields) ==> {
            &&& value.tree() is Object
            &&& value.tree()->Object_0.len() == fields@.len()
            &&& 0 <= i < fields@.len() ==> value.tree()->Object_0[i].0 == fields@[i].0@
                && value.tree()->Object_0[i].1 == fields@[i].1.tree()
        },
{
}

/// A value is read as what it is: a string as a string, an integer as an integer, and
/// nothing as either; a copy says the same.
pub proof fn lemma_read_as_it_is(
    value: Json,
    text: Option<&str>,
    number: Option<i64>,
    copied: Json,
)
    requires
        call_ensures(Json::as_str, (&value,), text),
        call_ensures(Json::as_i64, (&value,), number),
        call_ensures(Json::copy, (&value,), copied),
    ensures
        text is Some <==> value is Text,
        value matches Json::Text(t) ==> text->Some_0@ == t@,
        number is Some <==> value is Int,
        value matches Json::Int(n) ==> number == Some(n),
        copied.tree() == value.tree(),
{
}

/// A field of an object is found by its name.
pub proof fn lemma_field_is_found(value: Json, key: &str, found: Option<&Json>, at: int)
    requires
        call_ensures(Json::field, (&value, key), found),
    ensures
        found is Some ==> value is Object,
        value matches Json::Object(fields) ==> (0 <= at < fields@.len() && fields@[at].0@ == key@
            && (forall|i: int| 0 <= i < at ==> (#[trigger] fields@[i]).0@ != key@) ==> found is Some
            && found->Some_0.tree() == fields@[at].1.tree()),
{
    if let Json::Object(fields) = value {
        let tree = value.tree()->Object_0;
        if 0 <= at < fields@.len() && fields@[at].0@ == key@ && (forall|i: int|
            0 <= i < at ==> (#[trigger] fields@[i]).0@ != key@) {
            assert forall|i: int| 0 <= i < at implies (#[trigger] tree[i]).0 != tree[at].0 by {
                assert(fields@[i].0@ != key@);
            }
            lemma_find_entry(tree, at);
        }
    }
}

} // verus!
