//! Maps from strings to strings: tags and headers.
use vstd::prelude::*;
use vstd::string::*;

use crate::json::{all_text, text_entries, Json, JsonTree};
use crate::text::same_text;

verus! {

/// Whether no two entries share a key.
pub open spec fn distinct_keys(entries: Seq<(String, String)>) -> bool {
    forall|i: int, j: int|
        #![trigger entries[i], entries[j]]
        0 <= i < j < entries.len() ==> entries[i].0@ != entries[j].0@
}

/// The map that a list of entries stands for; of two entries with one key the
/// later one counts.
pub open spec fn entries_map(entries: Seq<(String, String)>) -> Map<Seq<char>, Seq<char>>
    decreases entries.len(),
{
    if entries.len() == 0 {
        Map::empty()
    } else {
        entries_map(entries.drop_last()).insert(entries.last().0@, entries.last().1@)
    }
}

/// With distinct keys, the map holds exactly the entries.
pub proof fn lemma_entries_map(entries: Seq<(String, String)>)
    requires
        distinct_keys(entries),
    ensures
        forall|i: int|
            #![trigger entries[i]]
            0 <= i < entries.len() ==> entries_map(entries).contains_key(entries[i].0@)
                && entries_map(entries)[entries[i].0@] == entries[i].1@,
        forall|key: Seq<char>| #[trigger]
            entries_map(entries).contains_key(key) ==> exists|i: int|
                0 <= i < entries.len() && (#[trigger] entries[i]).0@ == key,
    decreases entries.len(),
{
    if entries.len() > 0 {
        let init = entries.drop_last();
        assert forall|i: int, j: int|
            #![trigger init[i], init[j]]
            0 <= i < j < init.len() implies init[i].0@ != init[j].0@ by {
            assert(entries[i].0@ != entries[j].0@);
        }
        lemma_entries_map(init);
        assert forall|i: int| #![trigger entries[i]] 0 <= i < entries.len() implies entries_map(
            entries,
        ).contains_key(entries[i].0@) && entries_map(entries)[entries[i].0@] == entries[i].1@ by {
            if i < init.len() {
                assert(init[i] == entries[i]);
                assert(entries[i].0@ != entries[entries.len() - 1].0@);
            }
        }
        assert forall|key: Seq<char>| #[trigger]
            entries_map(entries).contains_key(key) implies exists|i: int|
            0 <= i < entries.len() && (#[trigger] entries[i]).0@ == key by {
            if key == entries.last().0@ {
                assert(entries[entries.len() - 1].0@ == key);
            } else {
                assert(entries_map(init).contains_key(key));
                let i = choose|i: int| 0 <= i < init.len() && (#[trigger] init[i]).0@ == key;
                assert(entries[i].0@ == key);
            }
        }
    }
}

/// A map from strings to strings, held as entries with distinct keys.
#[derive(Debug)]
pub struct StringMap {
    entries: Vec<(String, String)>,
}

impl View for StringMap {
    type V = Map<Seq<char>, Seq<char>>;

    closed spec fn view(&self) -> Map<Seq<char>, Seq<char>> {
        entries_map(self.entries@)
    }
}

impl StringMap {
    #[verifier::type_invariant]
    closed spec fn well_formed(self) -> bool {
        distinct_keys(self.entries@)
    }

    /// The map without entries.
    pub fn new() -> (map: StringMap)
        ensures
            map@ == Map::<Seq<char>, Seq<char>>::empty(),
    {
        StringMap { entries: Vec::new() }
    }

    /// The map of `pairs`; of two pairs with one key the later one counts.
    pub fn from_pairs(pairs: Vec<(String, String)>) -> (map: StringMap)
        ensures
            map@ == entries_map(pairs@),
    {
        let mut map = StringMap::new();
        let mut i: usize = 0;
        while i < pairs.len()
            invariant
                i <= pairs@.len(),
                map@ == entries_map(pairs@.take(i as int)),
            decreases pairs@.len() - i,
        {
            map.insert(pairs[i].0.clone(), pairs[i].1.clone());
            assert(pairs@.take(i + 1).drop_last() =~= pairs@.take(i as int));
            i = i + 1;
        }
        assert(pairs@.take(i as int) =~= pairs@);
        map
    }

    /// The position of the entry for `key`, if there is one.
    fn position(&self, key: &str) -> (at: Option<usize>)
        ensures
            at is Some <==> self@.contains_key(key@),
            at matches Some(i) ==> i < self.entries@.len() && self.entries@[i as int].0@ == key@
                && self.entries@[i as int].1@ == self@[key@],
    {
        proof {
            use_type_invariant(self);
            lemma_entries_map(self.entries@);
        }
        let mut i: usize = 0;
        while i < self.entries.len()
            invariant
                i <= self.entries@.len(),
                distinct_keys(self.entries@),
                forall|k: int| 0 <= k < i ==> (#[trigger] self.entries@[k]).0@ != key@,
            decreases self.entries@.len() - i,
        {
            if same_text(self.entries[i].0.as_str(), key) {
                proof {
                    lemma_entries_map(self.entries@);
                }
                return Some(i);
            }
            i = i + 1;
        }
        None
    }

    /// The value for `key`, if there is one.
    pub fn get(&self, key: &str) -> (value: Option<&str>)
        ensures
            match value {
                Some(v) => self@.contains_key(key@) && v@ == self@[key@],
                None => !self@.contains_key(key@),
            },
    {
        match self.position(key) {
            Some(i) => Some(self.entries[i].1.as_str()),
            None => None,
        }
    }

    /// Whether there is a value for `key`.
    pub fn contains_key(&self, key: &str) -> (found: bool)
        ensures
            found == self@.contains_key(key@),
    {
        self.position(key).is_some()
    }

    /// Set the value for `key`.
    pub fn insert(&mut self, key: String, value: String)
        ensures
            final(self)@ == old(self)@.insert(key@, value@),
    {
        proof {
            use_type_invariant(&*self);
            lemma_entries_map(self.entries@);
        }
        let mut entries: Vec<(String, String)> = Vec::new();
        let mut i: usize = 0;
        while i < self.entries.len()
            invariant
                i <= self.entries@.len(),
                distinct_keys(self.entries@),
                distinct_keys(entries@),
                forall|k: int|
                    0 <= k < entries@.len() ==> (#[trigger] entries@[k]).0@ != key@,
                forall|k: int|
                    0 <= k < entries@.len() ==> exists|j: int|
                        0 <= j < i && (#[trigger] self.entries@[j]).0@ == (
                        #[trigger] entries@[k]).0@,
                entries_map(entries@) == entries_map(self.entries@.take(i as int)).remove(key@),
            decreases self.entries@.len() - i,
        {
            let ghost kept = entries@;
            assert(self.entries@.take(i + 1).drop_last() =~= self.entries@.take(i as int));
            if !same_text(self.entries[i].0.as_str(), key.as_str()) {
                entries.push((self.entries[i].0.clone(), self.entries[i].1.clone()));
                assert(entries@.drop_last() =~= kept);
                assert forall|a: int, b: int|
                    #![trigger entries@[a], entries@[b]]
                    0 <= a < b < entries@.len() implies entries@[a].0@ != entries@[b].0@ by {
                    if b == kept.len() {
                        let j = choose|j: int|
                            0 <= j < i && (#[trigger] self.entries@[j]).0@ == kept[a].0@;
                        assert(self.entries@[j].0@ != self.entries@[i as int].0@);
                    }
                }
                assert forall|k: int| 0 <= k < entries@.len() implies exists|j: int|
                    0 <= j < i + 1 && (#[trigger] self.entries@[j]).0@ == (
                    #[trigger] entries@[k]).0@ by {
                    if k == kept.len() {
                        assert(self.entries@[i as int].0@ == entries@[k].0@);
                    } else {
                        let j = choose|j: int|
                            0 <= j < i && (#[trigger] self.entries@[j]).0@ == kept[k].0@;
                        assert(self.entries@[j].0@ == entries@[k].0@);
                    }
                }
            }
            assert(entries_map(entries@) =~= entries_map(self.entries@.take(i + 1)).remove(key@));
            i = i + 1;
        }
        assert(self.entries@.take(i as int) =~= self.entries@);
        let ghost kept = entries@;
        entries.push((key, value));
        assert(entries@.drop_last() =~= kept);
        assert(entries_map(entries@) =~= entries_map(self.entries@).insert(key@, value@));
        self.entries = entries;
    }

    /// The number of entries.
    pub fn len(&self) -> (n: usize)
        ensures
            self@.dom().finite(),
            n == self@.dom().len(),
    {
        proof {
            use_type_invariant(self);
            lemma_entries_count(self.entries@);
        }
        self.entries.len()
    }

    /// Whether there is no entry.
    pub fn is_empty(&self) -> (empty: bool)
        ensures
            empty == (self@ == Map::<Seq<char>, Seq<char>>::empty()),
    {
        proof {
            use_type_invariant(self);
            lemma_entries_map(self.entries@);
            if self.entries@.len() > 0 {
                assert(self@.contains_key(self.entries@[0].0@));
            }
        }
        self.entries.len() == 0
    }

    /// The entries, in no particular order, each key once.
    pub fn entries(&self) -> (entries: &Vec<(String, String)>)
        ensures
            distinct_keys(entries@),
            entries_map(entries@) == self@,
    {
        proof {
            use_type_invariant(self);
        }
        &self.entries
    }

    /// Whether every entry of this map is one of `other`.
    fn within(&self, other: &StringMap) -> (inside: bool)
        ensures
            inside == (forall|key: Seq<char>| #[trigger]
                self@.contains_key(key) ==> other@.contains_key(key) && other@[key] == self@[key]),
    {
        proof {
            use_type_invariant(self);
            lemma_entries_map(self.entries@);
        }
        let mut i: usize = 0;
        while i < self.entries.len()
            invariant
                i <= self.entries@.len(),
                distinct_keys(self.entries@),
                forall|k: int|
                    0 <= k < i ==> other@.contains_key((#[trigger] self.entries@[k]).0@)
                        && other@[self.entries@[k].0@] == self.entries@[k].1@,
            decreases self.entries@.len() - i,
        {
            let found = match other.get(self.entries[i].0.as_str()) {
                Some(value) => same_text(value, self.entries[i].1.as_str()),
                None => false,
            };
            if !found {
                proof {
                    lemma_entries_map(self.entries@);
                    assert(self@.contains_key(self.entries@[i as int].0@));
                }
                return false;
            }
            i = i + 1;
        }
        true
    }

    /// A copy of the map.
    pub fn copy(&self) -> (map: StringMap)
        ensures
            map@ == self@,
    {
        let mut pairs: Vec<(String, String)> = Vec::new();
        let mut i: usize = 0;
        while i < self.entries.len()
            invariant
                i <= self.entries@.len(),
                pairs@ == self.entries@.take(i as int),
            decreases self.entries@.len() - i,
        {
            pairs.push((self.entries[i].0.clone(), self.entries[i].1.clone()));
            i = i + 1;
        }
        assert(pairs@ =~= self.entries@);
        proof {
            use_type_invariant(self);
        }
        StringMap { entries: pairs }
    }
}

impl PartialEq for StringMap {
    /// Whether both maps hold the same entries, in whatever order.
    fn eq(&self, other: &StringMap) -> (same: bool) {
        let same = self.within(other) && other.within(self);
        assert(same ==> self@ =~= other@);
        same
    }
}

impl vstd::std_specs::cmp::PartialEqSpecImpl for StringMap {
    open spec fn obeys_eq_spec() -> bool {
        true
    }

    open spec fn eq_spec(&self, other: &StringMap) -> bool {
        self@ == other@
    }
}

/// The JSON object that `serde_json` writes for a map from strings to strings,
/// its keys in ascending order.
pub uninterp spec fn map_json(map: Map<Seq<char>, Seq<char>>) -> Seq<char>;

/// Write entries with distinct keys as a JSON object with
/// `serde_json::to_string`, which never fails on a map from strings to strings.
/// The entries are put in ascending order of their keys first, so the text
/// depends on the map alone.
#[verifier::external_body]
fn entries_json(entries: &Vec<(String, String)>) -> (text: String)
    requires
        distinct_keys(entries@),
    ensures
        text@ == map_json(entries_map(entries@)),
{
    let map: std::collections::BTreeMap<&str, &str> =
        entries.iter().map(|e| (e.0.as_str(), e.1.as_str())).collect();
    serde_json::to_string(&map).unwrap()
}

impl StringMap {
    /// The map as a JSON object.
    pub fn to_json(&self) -> (text: String)
        ensures
            text@ == map_json(self@),
    {
        proof {
            use_type_invariant(self);
        }
        entries_json(&self.entries)
    }
}

impl StringMap {
    /// The map as a JSON value: an object of strings, its fields in no particular
    /// order.
    pub fn to_object(&self) -> (value: Json)
        ensures
            value.tree() is Object,
            value.tree().string_map() == Some(self@),
    {
        let mut fields: Vec<(String, Json)> = Vec::new();
        let count: usize = self.entries.len();
        let mut i: usize = 0;
        while i < count
            invariant
                i <= count == self.entries@.len(),
                fields@.len() == i,
                forall|k: int|
                    0 <= k < i ==> (#[trigger] fields@[k]).0@ == self.entries@[k].0@
                        && fields@[k].1.tree() == JsonTree::Text(self.entries@[k].1@),
            decreases count - i,
        {
            let text = Json::Text(self.entries[i].1.clone());
            assert(text.tree() == JsonTree::Text(self.entries@[i as int].1@));
            fields.push((self.entries[i].0.clone(), text));
            i = i + 1;
        }
        let value = Json::Object(fields);
        proof {
            let tree = value.tree()->Object_0;
            assert forall|k: int| 0 <= k < tree.len() implies #[trigger] tree[k] == (
                self.entries@[k].0@,
                JsonTree::Text(self.entries@[k].1@),
            ) by {
                assert(fields@[k].0@ == self.entries@[k].0@);
            }
            assert(all_text(tree));
            lemma_text_entries(self.entries@, tree);
        }
        value
    }
}

/// An object of the entries of a map holds that map.
proof fn lemma_text_entries(entries: Seq<(String, String)>, tree: Seq<(Seq<char>, JsonTree)>)
    requires
        tree.len() == entries.len(),
        forall|k: int|
            0 <= k < tree.len() ==> #[trigger] tree[k] == (
                entries[k].0@,
                JsonTree::Text(entries[k].1@),
            ),
    ensures
        text_entries(tree) == entries_map(entries),
    decreases entries.len(),
{
    if entries.len() > 0 {
        let init = entries.drop_last();
        let start = tree.drop_last();
        assert forall|k: int| 0 <= k < start.len() implies #[trigger] start[k] == (
            init[k].0@,
            JsonTree::Text(init[k].1@),
        ) by {
            assert(start[k] == tree[k]);
        }
        lemma_text_entries(init, start);
        assert(tree.last() == tree[tree.len() - 1]);
    }
}

/// The JSON object for an optional map, where it is there.
pub open spec fn optional_map_json(map: Option<StringMap>) -> Option<Seq<char>> {
    match map {
        Some(m) => Some(map_json(m@)),
        None => None,
    }
}

/// The optional map as a JSON object.
pub fn optional_json(map: &Option<StringMap>) -> (text: Option<String>)
    ensures
        crate::text::optional_text(text) == optional_map_json(*map),
{
    match map {
        Some(m) => Some(m.to_json()),
        None => None,
    }
}

/// With distinct keys, the map has as many entries as the list.
proof fn lemma_entries_count(entries: Seq<(String, String)>)
    requires
        distinct_keys(entries),
    ensures
        entries_map(entries).dom().finite(),
        entries_map(entries).dom().len() == entries.len(),
    decreases entries.len(),
{
    if entries.len() > 0 {
        let init = entries.drop_last();
        assert forall|i: int, j: int|
            #![trigger init[i], init[j]]
            0 <= i < j < init.len() implies init[i].0@ != init[j].0@ by {
            assert(entries[i].0@ != entries[j].0@);
        }
        lemma_entries_count(init);
        lemma_entries_map(init);
        let last = entries.last().0@;
        if entries_map(init).contains_key(last) {
            let i = choose|i: int| 0 <= i < init.len() && (#[trigger] init[i]).0@ == last;
            assert(entries[i].0@ != entries[entries.len() - 1].0@);
        }
        assert(entries_map(entries).dom() =~= entries_map(init).dom().insert(last));
    }
}

/// Of the pairs with one key the last one counts, and no other key is there.
pub proof fn lemma_last_pair_counts(pairs: Vec<(String, String)>, map: StringMap, at: int)
    requires
        call_ensures(StringMap::from_pairs, (pairs,), map),
        0 <= at < pairs@.len(),
        forall|i: int| at < i < pairs@.len() ==> (#[trigger] pairs@[i]).0@ != pairs@[at].0@,
    ensures
        map@.contains_pair(pairs@[at].0@, pairs@[at].1@),
{
    lemma_entry_counts(pairs@, at);
}

/// An entry counts where no later one has its key.
proof fn lemma_entry_counts(entries: Seq<(String, String)>, at: int)
    requires
        0 <= at < entries.len(),
        forall|i: int| at < i < entries.len() ==> (#[trigger] entries[i]).0@ != entries[at].0@,
    ensures
        entries_map(entries).contains_pair(entries[at].0@, entries[at].1@),
    decreases entries.len(),
{
    let init = entries.drop_last();
    if at < init.len() {
        assert(init[at] == entries[at]);
        assert(entries[entries.len() - 1].0@ != entries[at].0@);
        assert forall|i: int| at < i < init.len() implies (#[trigger] init[i]).0@
            != init[at].0@ by {
            assert(init[i] == entries[i]);
        }
        lemma_entry_counts(init, at);
    }
}

/// Looking up a key gives what the map holds under it, and only that.
pub proof fn lemma_looked_up(map: StringMap, key: &str, value: Option<&str>, found: bool)
    requires
        call_ensures(StringMap::get, (&map, key), value),
        call_ensures(StringMap::contains_key, (&map, key), found),
    ensures
        found <==> map@.contains_key(key@),
        value is Some <==> found,
        value matches Some(v) ==> v@ == map@[key@],
{
}

/// An insertion sets one key, and leaves all others as they are.
pub proof fn lemma_inserted(map: &mut StringMap, key: String, value: String, other: Seq<char>)
    requires
        call_ensures(StringMap::insert, (map, key, value), ()),
    ensures
        final(map)@.contains_pair(key@, value@),
        other != key@ ==> (final(map)@.contains_key(other) <==> old(map)@.contains_key(other)),
        other != key@ && old(map)@.contains_key(other) ==> final(map)@[other] == old(map)@[other],
{
}

/// The ways to look at a map agree: it is empty where it has no entries, its entries are as
/// many as its keys, each of them once, and a copy holds the same.
pub proof fn lemma_views_agree(
    map: StringMap,
    count: usize,
    empty: bool,
    entries: &Vec<(String, String)>,
    copied: StringMap,
    at: int,
)
    requires
        call_ensures(StringMap::len, (&map,), count),
        call_ensures(StringMap::is_empty, (&map,), empty),
        call_ensures(StringMap::entries, (&map,), entries),
        call_ensures(StringMap::copy, (&map,), copied),
    ensures
        empty <==> count == 0,
        count == entries@.len(),
        0 <= at < entries@.len() ==> map@.contains_pair(entries@[at].0@, entries@[at].1@),
        copied@ == map@,
{
    lemma_entries_count(entries@);
    lemma_entries_map(entries@);
    if count == 0 {
        assert(map@.dom() =~= Set::<Seq<char>>::empty());
        assert(map@ =~= Map::<Seq<char>, Seq<char>>::empty());
    }
}

} // verus!
