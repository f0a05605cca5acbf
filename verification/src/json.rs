//! A dynamic value: the loosely typed tree in which the timetable provider
//! answers, with access operations that expect a shape and yield nothing
//! where the value has another.

use vstd::prelude::*;

use crate::scan::{first_true, lemma_first_true_at, lemma_first_true_none};
use crate::text::same_text;

verus! {

/// A value of the provider's answer.
#[derive(Debug, PartialEq, Eq)]
pub enum Json {
    Null,
    Bool(bool),
    /// A number, kept as the text in which it was written.
    Number(String),
    Str(String),
    Array(Vec<Json>),
    /// The members of an object, in the order in which they were written.
    Object(Vec<Member>),
}

/// A member of an object: a key and the value under it.
#[derive(Debug, PartialEq, Eq)]
pub struct Member {
    pub key: String,
    pub value: Json,
}

/// The mathematical value that a [`Json`] stands for.
pub ghost enum JsonView {
    Null,
    Bool(bool),
    Number(Seq<char>),
    Str(Seq<char>),
    Array(Seq<JsonView>),
    Object(Seq<(Seq<char>, JsonView)>),
}

impl Json {
    /// The tree of plain values below this one: strings by their characters,
    /// arrays and objects by the trees of their parts.
    pub open spec fn tree(self) -> JsonView
        decreases self,
    {
        match self {
            Json::Null => JsonView::Null,
            Json::Bool(b) => JsonView::Bool(b),
            Json::Number(n) => JsonView::Number(n@),
            Json::Str(s) => JsonView::Str(s@),
            Json::Array(items) => JsonView::Array(
                Seq::new(
                    items@.len(),
                    |i: int|
                        if 0 <= i < items@.len() {
                            items@[i].tree()
                        } else {
                            JsonView::Null
                        },
                ),
            ),
            Json::Object(members) => JsonView::Object(
                Seq::new(
                    members@.len(),
                    |i: int|
                        if 0 <= i < members@.len() {
                            (members@[i].key@, members@[i].value.tree())
                        } else {
                            (Seq::empty(), JsonView::Null)
                        },
                ),
            ),
        }
    }
}

impl View for Json {
    type V = JsonView;

    open spec fn view(&self) -> JsonView {
        self.tree()
    }
}

/// For each member of an object, whether its key is `key`.
pub open spec fn key_hits(members: Seq<(Seq<char>, JsonView)>, key: Seq<char>) -> Seq<bool> {
    Seq::new(members.len(), |i: int| members[i].0 == key)
}

impl JsonView {
    /// The value of the first member named `key`, where this is an object
    /// that has one.
    pub open spec fn field(self, key: Seq<char>) -> Option<JsonView> {
        match self {
            JsonView::Object(members) => match first_true(key_hits(members, key)) {
                Some(i) => Some(members[i].1),
                None => None,
            },
            _ => None,
        }
    }

    /// The element at `index`, where this is an array that reaches so far.
    pub open spec fn item(self, index: int) -> Option<JsonView> {
        match self {
            JsonView::Array(items) => if 0 <= index < items.len() {
                Some(items[index])
            } else {
                None
            },
            _ => None,
        }
    }

    /// The characters, where this is a string.
    pub open spec fn text(self) -> Option<Seq<char>> {
        match self {
            JsonView::Str(s) => Some(s),
            _ => None,
        }
    }

    /// The elements, where this is an array.
    pub open spec fn items(self) -> Option<Seq<JsonView>> {
        match self {
            JsonView::Array(items) => Some(items),
            _ => None,
        }
    }

    /// The characters of the member named `key`, where there is one and it is
    /// a string.
    pub open spec fn text_field(self, key: Seq<char>) -> Option<Seq<char>> {
        match self.field(key) {
            Some(value) => value.text(),
            None => None,
        }
    }
}

/// The views of the elements of `items`, in their order.
pub open spec fn views(items: Seq<Json>) -> Seq<JsonView> {
    Seq::new(items.len(), |i: int| items[i]@)
}

impl Json {
    /// Looks up the member `key` of an object: the first of that name.
    /// Nothing is found in a value that is no object or has no such member.
    pub fn get(&self, key: &str) -> (found: Option<&Json>)
        ensures
            match found {
                Some(value) => self@.field(key@) == Some(value@),
                None => self@.field(key@) is None,
            },
    {
        match self {
            Json::Object(members) => {
                let ghost seen = self@->Object_0;
                let ghost hits = key_hits(seen, key@);
                let mut i: usize = 0;
                while i < members.len()
                    invariant
                        i <= members.len(),
                        self@ == JsonView::Object(seen),
                        seen.len() == members@.len(),
                        forall|j: int|
                            0 <= j < seen.len() ==> seen[j] == (members@[j].key@, members@[j].value@),
                        hits == key_hits(seen, key@),
                        forall|j: int| 0 <= j < i ==> !hits[j],
                    decreases members.len() - i,
                {
                    if same_text(members[i].key.as_str(), key) {
                        proof {
                            lemma_first_true_at(hits, i as int);
                        }
                        return Some(&members[i].value);
                    }
                    i += 1;
                }
                proof {
                    lemma_first_true_none(hits);
                }
                None
            },
            _ => None,
        }
    }

    /// The element at `index` of an array. Nothing is found in a value that
    /// is no array or is shorter.
    pub fn at(&self, index: usize) -> (found: Option<&Json>)
        ensures
            match found {
                Some(value) => self@.item(index as int) == Some(value@),
                None => self@.item(index as int) is None,
            },
    {
        match self {
            Json::Array(items) => if index < items.len() {
                Some(&items[index])
            } else {
                None
            },
            _ => None,
        }
    }

    /// The text of a string; nothing for any other value.
    pub fn as_str(&self) -> (found: Option<&str>)
        ensures
            match found {
                Some(s) => self@.text() == Some(s@),
                None => self@.text() is None,
            },
    {
        match self {
            Json::Str(s) => Some(s.as_str()),
            _ => None,
        }
    }

    /// The elements of an array; nothing for any other value.
    pub fn as_array(&self) -> (found: Option<&Vec<Json>>)
        ensures
            match found {
                Some(items) => self@.items() == Some(views(items@)),
                None => self@.items() is None,
            },
    {
        match self {
            Json::Array(items) => Some(items),
            _ => None,
        }
    }

    /// The text of the member `key`: present where the value is an object
    /// whose first member of that name is a string.
    pub fn str_at(&self, key: &str) -> (found: Option<&str>)
        ensures
            match found {
                Some(s) => self@.text_field(key@) == Some(s@),
                None => self@.text_field(key@) is None,
            },
    {
        match self.get(key) {
            Some(value) => value.as_str(),
            None => None,
        }
    }
}

} // verus!
