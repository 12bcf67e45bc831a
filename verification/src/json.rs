//! JSON documents as plain values.

use vstd::prelude::*;

use crate::outside::{
    error_text, map_insert, map_into_entries, new_map, number_from_i64, parse_value, value_display,
    value_from_layer, value_into_layer, value_text, Layer,
};

verus! {

/// What a JSON document says.
pub ghost enum Tree {
    Null,
    Bool(bool),
    Number(serde_json::Number),
    Str(Seq<char>),
    Array(Seq<Tree>),
    Object(Map<Seq<char>, Tree>),
}

/// A JSON document. Of two members of an object with one key, the last
/// counts.
#[derive(Debug, PartialEq)]
pub enum Json {
    Null,
    Bool(bool),
    Number(serde_json::Number),
    Str(String),
    Array(Vec<Json>),
    Object(Vec<(String, Json)>),
}

/// The members that a list of keys and values stands for.
pub open spec fn last_of_each(pairs: Seq<(Seq<char>, Tree)>) -> Map<Seq<char>, Tree>
    decreases pairs.len(),
{
    if pairs.len() == 0 {
        Map::empty()
    } else {
        last_of_each(pairs.drop_last()).insert(pairs.last().0, pairs.last().1)
    }
}

impl View for Json {
    type V = Tree;

    open spec fn view(&self) -> Tree
        decreases self,
    {
        match self {
            Json::Null => Tree::Null,
            Json::Bool(b) => Tree::Bool(*b),
            Json::Number(n) => Tree::Number(*n),
            Json::Str(s) => Tree::Str(s@),
            Json::Array(items) => Tree::Array(items_view(items@)),
            Json::Object(members) => Tree::Object(last_of_each(members_view(members@))),
        }
    }
}

pub open spec fn items_view(items: Seq<Json>) -> Seq<Tree>
    decreases items,
{
    if items.len() == 0 {
        Seq::empty()
    } else {
        items_view(items.drop_last()).push(items.last().view())
    }
}

pub open spec fn members_view(members: Seq<(String, Json)>) -> Seq<(Seq<char>, Tree)>
    decreases members,
{
    if members.len() == 0 {
        Seq::empty()
    } else {
        members_view(members.drop_last()).push((members.last().0@, members.last().1.view()))
    }
}

/// No key occurs twice.
pub open spec fn distinct_keys(pairs: Seq<(Seq<char>, Tree)>) -> bool {
    forall|i: int, j: int| 0 <= i < j < pairs.len() ==> pairs[i].0 != pairs[j].0
}

/// Each member comes from the last pair that has its key.
proof fn lemma_last_of_each(pairs: Seq<(Seq<char>, Tree)>)
    ensures
        last_of_each(pairs).dom().finite(),
        forall|i: int|
            0 <= i < pairs.len() ==> last_of_each(pairs).contains_key((#[trigger] pairs[i]).0),
        forall|k: Seq<char>| #[trigger]
            last_of_each(pairs).contains_key(k) ==> exists|i: int|
                last_at(pairs, i, k) && last_of_each(pairs)[k] == pairs[i].1,
    decreases pairs.len(),
{
    if pairs.len() > 0 {
        let shorter = pairs.drop_last();
        let end = pairs.len() - 1;
        lemma_last_of_each(shorter);
        assert forall|i: int| 0 <= i < pairs.len() implies last_of_each(pairs).contains_key(
            (#[trigger] pairs[i]).0,
        ) by {
            if i < end {
                assert(shorter[i] == pairs[i]);
            }
        }
        assert forall|k: Seq<char>| #[trigger] last_of_each(pairs).contains_key(k) implies exists|
            i: int,
        | last_at(pairs, i, k) && last_of_each(pairs)[k] == pairs[i].1 by {
            if k == pairs[end].0 {
                assert(last_at(pairs, end, k));
            } else {
                let i = choose|i: int|
                    last_at(shorter, i, k) && last_of_each(shorter)[k] == shorter[i].1;
                assert forall|j: int| i < j < pairs.len() implies (#[trigger] pairs[j]).0 != k by {
                    if j < end {
                        assert(shorter[j] == pairs[j]);
                    }
                }
                assert(last_at(pairs, i, k));
            }
        }
    }
}

/// `i` is the last place where `k` stands.
spec fn last_at(pairs: Seq<(Seq<char>, Tree)>, i: int, k: Seq<char>) -> bool {
    &&& 0 <= i < pairs.len()
    &&& pairs[i].0 == k
    &&& forall|j: int| i < j < pairs.len() ==> (#[trigger] pairs[j]).0 != k
}

/// With distinct keys, each pair is a member.
proof fn lemma_distinct(pairs: Seq<(Seq<char>, Tree)>, i: int)
    requires
        distinct_keys(pairs),
        0 <= i < pairs.len(),
    ensures
        last_of_each(pairs).contains_key(pairs[i].0),
        last_of_each(pairs)[pairs[i].0] == pairs[i].1,
{
    lemma_last_of_each(pairs);
    let k = pairs[i].0;
    assert(last_of_each(pairs).contains_key(k));
    let j = choose|j: int| last_at(pairs, j, k) && last_of_each(pairs)[k] == pairs[j].1;
    assert(i == j);
}

/// The last member of a list overrides what stands before it.
proof fn lemma_last_member(members: Seq<(String, Json)>)
    requires
        members.len() > 0,
    ensures
        last_of_each(members_view(members)) == last_of_each(
            members_view(members.drop_last()),
        ).insert(members.last().0@, members.last().1@),
{
    let before = members_view(members.drop_last());
    assert(members_view(members) == before.push((members.last().0@, members.last().1@)));
    assert(members_view(members).drop_last() == before);
}

impl Json {
    /// The document in the library's form.
    pub fn from_value(value: serde_json::Value) -> (json: Json)
        ensures
            json@ == crate::outside::value_tree(value),
        decreases crate::outside::value_tree(value),
    {
        let ghost whole = crate::outside::value_tree(value);
        match value_into_layer(value) {
            Layer::Null => Json::Null,
            Layer::Bool(b) => Json::Bool(b),
            Layer::Number(n) => Json::Number(n),
            Layer::Str(s) => Json::Str(s),
            Layer::Array(values) => {
                let mut items: Vec<Json> = Vec::new();
                let ghost trees = crate::outside::values_view(values@);
                for v in it: values.into_iter()
                    invariant
                        whole == crate::outside::value_tree(value),
                        whole == Tree::Array(trees),
                        trees == crate::outside::values_view(it.seq()),
                        items_view(items@) == trees.take(it.index()),
                {
                    let ghost i = it.index();
                    assert(decreases_to!(whole => whole->Array_0));
                    assert(decreases_to!(trees => trees[i]));
                    assert(trees[i] == crate::outside::value_tree(v));
                    let ghost before = items@;
                    items.push(Json::from_value(v));
                    assert(items@.drop_last() == before);
                    assert(trees.take(i + 1) == trees.take(i).push(trees[i]));
                }
                assert(trees.take(trees.len() as int) == trees);
                Json::Array(items)
            },
            Layer::Object(map) => {
                let entries = map_into_entries(map);
                let mut members: Vec<(String, Json)> = Vec::new();
                let ghost pairs = crate::outside::entries_view(entries@);
                for entry in it: entries.into_iter()
                    invariant
                        whole == crate::outside::value_tree(value),
                        whole == Tree::Object(last_of_each(pairs)),
                        distinct_keys(pairs),
                        pairs == crate::outside::entries_view(it.seq()),
                        members_view(members@) == pairs.take(it.index()),
                {
                    let ghost i = it.index();
                    proof {
                        lemma_last_of_each(pairs);
                        lemma_distinct(pairs, i);
                        let all = whole->Object_0;
                        assert(decreases_to!(whole => whole->Object_0));
                        assert(decreases_to!(all => all[pairs[i].0]));
                        assert(pairs[i] == (entry.0@, crate::outside::value_tree(entry.1)));
                    }
                    let ghost before = members@;
                    let (key, below) = entry;
                    members.push((key, Json::from_value(below)));
                    assert(members@.drop_last() == before);
                    assert(pairs.take(i + 1) == pairs.take(i).push(pairs[i]));
                }
                assert(pairs.take(pairs.len() as int) == pairs);
                Json::Object(members)
            },
        }
    }

    /// The document in `serde_json`'s form.
    pub fn to_value(&self) -> (value: serde_json::Value)
        ensures
            crate::outside::value_tree(value) == self@,
        decreases self,
    {
        match self {
            Json::Null => value_from_layer(Layer::Null),
            Json::Bool(b) => value_from_layer(Layer::Bool(*b)),
            Json::Number(n) => value_from_layer(Layer::Number(n.clone())),
            Json::Str(s) => value_from_layer(Layer::Str(s.clone())),
            Json::Array(items) => {
                let mut values: Vec<serde_json::Value> = Vec::new();
                let mut i: usize = 0;
                while i < items.len()
                    invariant
                        i <= items@.len(),
                        self == Json::Array(*items),
                        crate::outside::values_view(values@) == items_view(items@.take(i as int)),
                    decreases items@.len() - i,
                {
                    assert(decreases_to!(self => self->Array_0));
                    assert(decreases_to!(self->Array_0 => self->Array_0@[i as int]));
                    let ghost before = values@;
                    values.push(items[i].to_value());
                    assert(items@.take(i + 1).drop_last() == items@.take(i as int));
                    assert(crate::outside::values_view(values@) == crate::outside::values_view(before).push(items@[i as int]@));
                    i = i + 1;
                }
                assert(items@.take(i as int) == items@);
                value_from_layer(Layer::Array(values))
            },
            Json::Object(members) => {
                let mut map = new_map();
                let mut i: usize = 0;
                while i < members.len()
                    invariant
                        i <= members@.len(),
                        self == Json::Object(*members),
                        crate::outside::map_members(map) == last_of_each(members_view(members@.take(i as int))),
                    decreases members@.len() - i,
                {
                    proof {
                        assert(decreases_to!(self => self->Object_0));
                        assert(decreases_to!(self->Object_0 => self->Object_0@[i as int]));
                        assert(decreases_to!(members@[i as int] => members@[i as int].1));
                        assert(members@.take(i + 1).drop_last() == members@.take(i as int));
                        lemma_last_member(members@.take(i + 1));
                    }
                    map_insert(&mut map, members[i].0.clone(), members[i].1.to_value());
                    i = i + 1;
                }
                assert(members@.take(i as int) == members@);
                value_from_layer(Layer::Object(map))
            },
        }
    }

    /// Reads a document. What makes a text none is told in words.
    pub fn parse(text: &str) -> (result: Result<Json, String>)
        ensures
            match result {
                Ok(json) => crate::outside::json_parse(text@) == Ok::<Tree, Seq<char>>(json@),
                Err(reason) => crate::outside::json_parse(text@) == Err::<Tree, Seq<char>>(reason@),
            },
    {
        match parse_value(text) {
            Ok(value) => Ok(Json::from_value(value)),
            Err(e) => Err(error_text(&e)),
        }
    }

    /// Writes the document, on one line.
    pub fn to_text(&self) -> (result: Result<String, String>)
        ensures
            match result {
                Ok(text) => text@ == crate::outside::json_text(self@) && !text@.contains('\n'),
                Err(_) => false,
            },
    {
        match value_text(&self.to_value()) {
            Ok(text) => Ok(text),
            Err(e) => Err(error_text(&e)),
        }
    }

    /// The document as it appears in messages.
    pub fn display(&self) -> (text: String)
        ensures
            text@ == crate::outside::json_display(self@),
    {
        value_display(&self.to_value())
    }

    /// The member of an object, or nothing where this is no object or has no
    /// such member.
    pub fn get(&self, key: &str) -> (member: Option<&Json>)
        ensures
            match member {
                Some(json) => self@.member(key@) == Some(json@),
                None => self@.member(key@) is None,
            },
    {
        match self {
            Json::Object(members) => {
                let mut i: usize = members.len();
                let wanted = key.to_owned();
                assert(members@.take(i as int) == members@);
                while i > 0
                    invariant
                        i <= members@.len(),
                        wanted@ == key@,
                        self == Json::Object(*members),
                        self@.member(key@) == Tree::Object(
                            last_of_each(members_view(members@.take(i as int))),
                        ).member(key@),
                    decreases i,
                {
                    i = i - 1;
                    proof {
                        assert(members@.take(i + 1).drop_last() == members@.take(i as int));
                        lemma_last_member(members@.take(i + 1));
                    }
                    if members[i].0 == wanted {
                        return Some(&members[i].1);
                    }
                }
                assert(members@.take(0) == Seq::<(String, Json)>::empty());
                None
            },
            _ => None,
        }
    }

    /// The text of a string.
    pub fn as_str(&self) -> (text: Option<&str>)
        ensures
            match text {
                Some(text) => self@ == Tree::Str(text@),
                None => !(self@ is Str),
            },
    {
        match self {
            Json::Str(s) => Some(s.as_str()),
            _ => None,
        }
    }

    /// The text of a member that is a string.
    pub fn text_of(&self, key: &str) -> (text: Option<&str>)
        ensures
            match text {
                Some(text) => self@.text_of(key@) == Some(text@),
                None => self@.text_of(key@) is None,
            },
    {
        match self.get(key) {
            Some(member) => member.as_str(),
            None => None,
        }
    }

    /// A string.
    pub fn string(text: &str) -> (json: Json)
        ensures
            json@ == Tree::Str(text@),
    {
        Json::Str(text.to_owned())
    }

    /// A whole number.
    pub fn integer(value: i64) -> (json: Json)
        ensures
            json@ == Tree::Number(crate::outside::whole_number(value)),
    {
        Json::Number(number_from_i64(value))
    }

    /// An object without members.
    pub fn object() -> (json: Json)
        ensures
            json is Object,
            json@ == Tree::Object(Map::empty()),
    {
        Json::Object(Vec::new())
    }

    /// An object with one more member.
    pub fn with(self, key: &str, value: Json) -> (json: Json)
        requires
            self is Object,
        ensures
            json is Object,
            json@ == Tree::Object((self@->Object_0).insert(key@, value@)),
    {
        match self {
            Json::Object(old_members) => {
                let mut members = old_members;
                members.push((key.to_owned(), value));
                proof {
                    assert(members@.drop_last() == old_members@);
                    lemma_last_member(members@);
                }
                Json::Object(members)
            },
            other => other,
        }
    }

    /// An array without items.
    pub fn array() -> (json: Json)
        ensures
            json is Array,
            json@ == Tree::Array(Seq::empty()),
    {
        let items: Vec<Json> = Vec::new();
        assert(items_view(items@) =~= Seq::empty());
        Json::Array(items)
    }

    /// An array with one more item.
    pub fn and(self, item: Json) -> (json: Json)
        requires
            self is Array,
        ensures
            json is Array,
            json@ == Tree::Array((self@->Array_0).push(item@)),
    {
        match self {
            Json::Array(old_items) => {
                let mut items = old_items;
                items.push(item);
                assert(items@.drop_last() == old_items@);
                Json::Array(items)
            },
            other => other,
        }
    }

    /// An array of strings.
    pub fn strings(texts: &[String]) -> (json: Json)
        ensures
            json@ == Tree::Array(strings_tree(texts@)),
    {
        let mut items: Vec<Json> = Vec::new();
        let mut i: usize = 0;
        while i < texts.len()
            invariant
                i <= texts@.len(),
                items_view(items@) == strings_tree(texts@.take(i as int)),
            decreases texts@.len() - i,
        {
            let ghost before = items@;
            items.push(Json::string(texts[i].as_str()));
            assert(items@.drop_last() == before);
            assert(strings_tree(texts@.take(i + 1)) == strings_tree(texts@.take(i as int)).push(
                Tree::Str(texts@[i as int]@),
            ));
            i = i + 1;
        }
        assert(texts@.take(i as int) == texts@);
        Json::Array(items)
    }
}

/// An array's items, of texts.
pub open spec fn strings_tree(texts: Seq<String>) -> Seq<Tree> {
    texts.map_values(|t: String| Tree::Str(t@))
}

impl Tree {
    /// The member of an object.
    pub open spec fn member(self, key: Seq<char>) -> Option<Tree> {
        match self {
            Tree::Object(members) => if members.contains_key(key) {
                Some(members[key])
            } else {
                None
            },
            _ => None,
        }
    }

    /// The text of a member that is a string.
    pub open spec fn text_of(self, key: Seq<char>) -> Option<Seq<char>> {
        match self.member(key) {
            Some(Tree::Str(text)) => Some(text),
            _ => None,
        }
    }
}

proof fn lemma_items(items: Seq<Json>)
    ensures
        items_view(items).len() == items.len(),
        forall|i: int| 0 <= i < items.len() ==> #[trigger] items_view(items)[i] == items[i]@,
    decreases items.len(),
{
    if items.len() > 0 {
        lemma_items(items.drop_last());
        assert(items_view(items) == items_view(items.drop_last()).push(items.last()@));
        assert forall|i: int| 0 <= i < items.len() implies #[trigger] items_view(items)[i]
            == items[i]@ by {
            if i < items.len() - 1 {
                assert(items_view(items)[i] == items_view(items.drop_last())[i]);
            }
        }
    }
}

proof fn lemma_members(members: Seq<(String, Json)>)
    ensures
        members_view(members).len() == members.len(),
        forall|i: int|
            0 <= i < members.len() ==> #[trigger] members_view(members)[i] == (
                members[i].0@,
                members[i].1@,
            ),
    decreases members.len(),
{
    if members.len() > 0 {
        lemma_members(members.drop_last());
        assert(members_view(members) == members_view(members.drop_last()).push(
            (members.last().0@, members.last().1@),
        ));
        assert forall|i: int| 0 <= i < members.len() implies #[trigger] members_view(members)[i]
            == (members[i].0@, members[i].1@) by {
            if i < members.len() - 1 {
                assert(members_view(members)[i] == members_view(members.drop_last())[i]);
            }
        }
    }
}

/// A document says what it was built of: a text, a flag and a number are kept as
/// they are, and an array has the same items in the same places.
pub proof fn law_document(json: Json)
    ensures
        json is Null <==> json@ is Null,
        json matches Json::Bool(b) ==> json@ == Tree::Bool(b),
        json matches Json::Number(n) ==> json@ == Tree::Number(n),
        json matches Json::Str(text) ==> json@ == Tree::Str(text@),
        json matches Json::Array(items) ==> (json@ matches Tree::Array(trees) && {
            &&& trees.len() == items@.len()
            &&& forall|i: int| 0 <= i < trees.len() ==> #[trigger] trees[i] == items@[i]@
        }),
{
    if let Json::Array(items) = json {
        lemma_items(items@);
    }
}

/// An object has a member for each of its keys and for no other, and the member
/// is what stands last under its key.
pub proof fn law_object_members(members: Vec<(String, Json)>, key: Seq<char>)
    ensures
        Json::Object(members)@ matches Tree::Object(held) && {
            &&& held.contains_key(key) <==> exists|i: int|
                0 <= i < members@.len() && (#[trigger] members@[i]).0@ == key
            &&& forall|i: int|
                0 <= i < members@.len() && (#[trigger] members@[i]).0@ == key && (forall|j: int|
                    i < j < members@.len() ==> (#[trigger] members@[j]).0@ != key) ==> held[key]
                    == members@[i].1@
        },
{
    let pairs = members_view(members@);
    lemma_members(members@);
    lemma_last_of_each(pairs);
    let held = last_of_each(pairs);
    if held.contains_key(key) {
        let i = choose|i: int| last_at(pairs, i, key) && held[key] == pairs[i].1;
        assert(members@[i].0@ == key);
        assert forall|k: int|
            0 <= k < members@.len() && (#[trigger] members@[k]).0@ == key && (forall|j: int|
                k < j < members@.len() ==> (#[trigger] members@[j]).0@ != key) implies held[key]
            == members@[k].1@ by {
            assert(pairs[k].0 == key);
            assert(i >= k);
            if i > k {
                assert(members@[i].0@ != key);
            }
        }
    } else {
        assert forall|i: int| 0 <= i < members@.len() implies (#[trigger] members@[i]).0@ != key by {
            assert(held.contains_key(pairs[i].0));
        }
    }
}

/// The items made of texts are those texts, each in its place.
pub proof fn law_strings(texts: Seq<String>)
    ensures
        strings_tree(texts).len() == texts.len(),
        forall|i: int|
            0 <= i < texts.len() ==> #[trigger] strings_tree(texts)[i] == Tree::Str(texts[i]@),
{
}

/// What is found under a key is what an object holds under it, and nothing is
/// found elsewhere; it is a text where it is a string, empty or not.
pub proof fn law_member(members: Map<Seq<char>, Tree>, key: Seq<char>, other: Tree)
    requires
        !(other is Object),
    ensures
        members.contains_key(key) ==> Tree::Object(members).member(key) == Some(members[key]),
        !members.contains_key(key) ==> Tree::Object(members).member(key) is None
            && Tree::Object(members).text_of(key) is None,
        members.contains_key(key) && !(members[key] is Str) ==> Tree::Object(members).text_of(
            key,
        ) is None,
        forall|text: Seq<char>|
            members.contains_key(key) && members[key] == Tree::Str(text)
                ==> #[trigger] Tree::Object(members).text_of(key) == Some(text),
        other.member(key) is None,
        other.text_of(key) is None,
{
}

} // verus!
