//! JSON objects, one level at a time: the shape of every document the
//! library reads or writes (token payloads, provider replies, the
//! session cookie, key sets). A member that is itself an array or an
//! object is kept as JSON text, to be read in turn where it is needed.
//!
//! Reading and writing JSON text is left to `serde_json`; what the text
//! means is named by [`json_object_parsed`], [`json_array_parsed`] and
//! [`json_object_rendered`].

use vstd::prelude::*;
use vstd::string::*;
use crate::text::str_eq;

verus! {

/// One member value of a JSON object, as far as the library looks into it.
#[derive(Debug, Clone, PartialEq, Eq)]
pub enum JsonField {
    /// `null`.
    Null,
    /// `true` or `false`.
    Bool(bool),
    /// A number; `Some` where it is an integer within `i64`.
    Number(Option<i64>),
    /// A string.
    Text(String),
    /// An array or an object, as JSON text.
    Nested(String),
}

/// The mathematical value of a [`JsonField`].
pub enum JsonFieldView {
    Null,
    Bool(bool),
    Number(Option<i64>),
    Text(Seq<char>),
    Nested(Seq<char>),
}

impl View for JsonField {
    type V = JsonFieldView;

    open spec fn view(&self) -> JsonFieldView {
        match self {
            JsonField::Null => JsonFieldView::Null,
            JsonField::Bool(b) => JsonFieldView::Bool(*b),
            JsonField::Number(n) => JsonFieldView::Number(*n),
            JsonField::Text(s) => JsonFieldView::Text(s@),
            JsonField::Nested(text) => JsonFieldView::Nested(text@),
        }
    }
}

impl JsonFieldView {
    /// Whether the value can be written out again without loss.
    pub open spec fn exact(self) -> bool {
        match self {
            JsonFieldView::Number(None) => false,
            JsonFieldView::Nested(_) => false,
            _ => true,
        }
    }
}

/// A JSON object as a list of members; a later member of the same name
/// replaces an earlier one.
#[derive(Debug, Clone, PartialEq, Eq)]
pub struct JsonObject {
    pub members: Vec<(String, JsonField)>,
}

/// The members of a list, by name.
pub open spec fn members_by_name(entries: Seq<(Seq<char>, JsonFieldView)>) -> Map<
    Seq<char>,
    JsonFieldView,
>
    decreases entries.len(),
{
    if entries.len() == 0 {
        Map::empty()
    } else {
        members_by_name(entries.drop_last()).insert(entries.last().0, entries.last().1)
    }
}

/// Whether every value in the list can be written out without loss.
pub open spec fn all_exact(entries: Seq<(Seq<char>, JsonFieldView)>) -> bool {
    forall|i: int| 0 <= i < entries.len() ==> (#[trigger] entries[i]).1.exact()
}

impl View for JsonObject {
    type V = Map<Seq<char>, JsonFieldView>;

    open spec fn view(&self) -> Map<Seq<char>, JsonFieldView> {
        members_by_name(self.entries())
    }
}

/// What `serde_json::from_str` reads from `text` as a JSON object: its
/// members by name, or `None` where the text is no JSON object.
pub uninterp spec fn json_object_parsed(text: Seq<char>) -> Option<Map<Seq<char>, JsonFieldView>>;

/// What `serde_json::from_str` reads from `text` as a JSON array: the
/// JSON text of each of its items, or `None` where the text is no JSON
/// array.
pub uninterp spec fn json_array_parsed(text: Seq<char>) -> Option<Seq<Seq<char>>>;

/// Reads a JSON array from `text` and hands out its items as JSON text.
///
/// Trusted: calls `serde_json::from_str` for a `Vec` of `serde_json::Value`
/// and hands each item out as the text that its `Display` impl gives. The
/// contract claims that the result holds the items that
/// [`json_array_parsed`] names for this text, and is `None` exactly where
/// that is `None`.
#[verifier::external_body]
pub(crate) fn parse_array(text: &str) -> (items: Option<Vec<String>>)
    ensures
        items.deep_view() == json_array_parsed(text@),
{
    let read: Result<Vec<serde_json::Value>, _> = serde_json::from_str(text);
    read.ok().map(|items| items.iter().map(|item| item.to_string()).collect())
}

/// The text that `serde_json::to_string` writes for an object with these
/// members, inserted in this order.
pub uninterp spec fn json_object_rendered(entries: Seq<(Seq<char>, JsonFieldView)>) -> Seq<char>;

impl JsonObject {
    /// The members in the order in which they were added.
    pub open spec fn entries(&self) -> Seq<(Seq<char>, JsonFieldView)> {
        Seq::new(self.members@.len(), |i: int| (self.members@[i].0@, self.members@[i].1@))
    }

    /// An object without members.
    pub fn new() -> (obj: JsonObject)
        ensures
            obj@ == Map::<Seq<char>, JsonFieldView>::empty(),
            obj.entries() == Seq::<(Seq<char>, JsonFieldView)>::empty(),
    {
        let obj = JsonObject { members: Vec::new() };
        assert(obj.entries() =~= Seq::<(Seq<char>, JsonFieldView)>::empty());
        obj
    }

    /// Adds a member, replacing any member of the same name.
    pub fn put(&mut self, name: &str, value: JsonField)
        ensures
            final(self).entries() == old(self).entries().push((name@, value@)),
            final(self)@ == old(self)@.insert(name@, value@),
    {
        self.members.push((String::from_str(name), value));
        proof {
            let before = old(self).entries();
            let after = self.entries();
            assert(after =~= before.push((name@, value@)));
            assert(after.drop_last() =~= before);
        }
    }

    /// The member called `name`, if there is one.
    pub fn get(&self, name: &str) -> (found: Option<&JsonField>)
        ensures
            match found {
                Some(value) => self@.contains_key(name@) && self@[name@] == value@,
                None => !self@.contains_key(name@),
            },
    {
        let mut i: usize = self.members.len();
        while i > 0
            invariant
                i <= self.members@.len(),
                forall|j: int| i <= j < self.members@.len() ==> self.members@[j].0@ != name@,
            decreases i,
        {
            i -= 1;
            if str_eq(self.members[i].0.as_str(), name) {
                proof {
                    lemma_last_match(self.entries(), i as int, name@);
                }
                return Some(&self.members[i].1);
            }
        }
        proof {
            lemma_no_match(self.entries(), name@);
        }
        None
    }

    /// Reads a JSON object from `text`.
    ///
    /// Trusted: calls `serde_json::from_str` for a `serde_json::Map` and hands
    /// each member out with its value reduced to a [`JsonField`], an array
    /// or an object as the text that its `Display` impl gives. The contract
    /// claims that the result holds the members that [`json_object_parsed`]
    /// names for this text, and is `None` exactly where that is `None`.
    #[verifier::external_body]
    pub(crate) fn parse(text: &str) -> (parsed: Option<JsonObject>)
        ensures
            match parsed {
                Some(obj) => json_object_parsed(text@) == Some(obj@),
                None => json_object_parsed(text@) is None,
            },
    {
        let read: Result<serde_json::Map<String, serde_json::Value>, _> =
            serde_json::from_str(text);
        read.ok().map(|map| JsonObject {
            members: map.into_iter().map(|(name, value)| (name, match value {
                serde_json::Value::Null => JsonField::Null,
                serde_json::Value::Bool(b) => JsonField::Bool(b),
                serde_json::Value::Number(n) => JsonField::Number(n.as_i64()),
                serde_json::Value::String(s) => JsonField::Text(s),
                nested => JsonField::Nested(nested.to_string()),
            })).collect(),
        })
    }

    /// Writes the object as JSON text.
    ///
    /// Trusted: fills a `serde_json::Map` with the members in order and calls
    /// `serde_json::to_string` on it. The contract claims that the text is the
    /// one [`json_object_rendered`] names, and that reading it back gives the
    /// same members by name.
    #[verifier::external_body]
    pub(crate) fn render(&self) -> (text: String)
        requires
            all_exact(self.entries()),
        ensures
            text@ == json_object_rendered(self.entries()),
            json_object_parsed(text@) == Some(self@),
    {
        let mut map = serde_json::Map::new();
        for (name, value) in self.members.iter() {
            map.insert(name.clone(), match value {
                JsonField::Bool(b) => serde_json::Value::Bool(*b),
                JsonField::Number(Some(n)) => serde_json::Value::from(*n),
                JsonField::Text(s) => serde_json::Value::String(s.clone()),
                _ => serde_json::Value::Null,
            });
        }
        serde_json::to_string(&map).unwrap_or_default()
    }
}

/// The string under `name`, where there is one.
pub open spec fn required_text(members: Map<Seq<char>, JsonFieldView>, name: Seq<char>) -> Option<
    Seq<char>,
> {
    if members.contains_key(name) {
        match members[name] {
            JsonFieldView::Text(s) => Some(s),
            _ => None,
        }
    } else {
        None
    }
}

/// The string under `name` where there is one, `Some(None)` where the member
/// is missing or `null`, and `None` where it holds anything else.
pub open spec fn optional_text(members: Map<Seq<char>, JsonFieldView>, name: Seq<char>) -> Option<
    Option<Seq<char>>,
> {
    if members.contains_key(name) {
        match members[name] {
            JsonFieldView::Text(s) => Some(Some(s)),
            JsonFieldView::Null => Some(None),
            _ => None,
        }
    } else {
        Some(None)
    }
}

/// The JSON text of the array or object under `name`, where there is one.
pub open spec fn nested_text(members: Map<Seq<char>, JsonFieldView>, name: Seq<char>) -> Option<
    Seq<char>,
> {
    if members.contains_key(name) {
        match members[name] {
            JsonFieldView::Nested(text) => Some(text),
            _ => None,
        }
    } else {
        None
    }
}

/// The integer under `name`, where there is one within `i64`.
pub open spec fn required_int(members: Map<Seq<char>, JsonFieldView>, name: Seq<char>) -> Option<
    i64,
> {
    if members.contains_key(name) {
        match members[name] {
            JsonFieldView::Number(Some(n)) => Some(n),
            _ => None,
        }
    } else {
        None
    }
}

/// The value to write for a string that may be absent: `null` where it is.
pub open spec fn text_or_null(text: Option<Seq<char>>) -> JsonFieldView {
    match text {
        Some(s) => JsonFieldView::Text(s),
        None => JsonFieldView::Null,
    }
}

impl JsonObject {
    /// Reads a JSON object from `text`; `None` where the text is no JSON
    /// object.
    pub fn from_text(text: &str) -> (parsed: Option<JsonObject>)
        ensures
            match parsed {
                Some(obj) => json_object_parsed(text@) == Some(obj@),
                None => json_object_parsed(text@) is None,
            },
    {
        JsonObject::parse(text)
    }

    /// Whether every member can be written out without loss.
    pub fn is_exact(&self) -> (yes: bool)
        ensures
            yes == all_exact(self.entries()),
    {
        let mut i: usize = 0;
        while i < self.members.len()
            invariant
                i <= self.members@.len(),
                forall|k: int| 0 <= k < i ==> (#[trigger] self.entries()[k]).1.exact(),
            decreases self.members@.len() - i,
        {
            let exact = match &self.members[i].1 {
                JsonField::Number(None) => false,
                JsonField::Nested(_) => false,
                _ => true,
            };
            if !exact {
                assert(!self.entries()[i as int].1.exact());
                return false;
            }
            i += 1;
        }
        true
    }

    /// Writes the object as JSON text; `None` where a member cannot be
    /// written out without loss. Reading the text back gives the same
    /// members by name.
    pub fn to_text(&self) -> (text: Option<String>)
        ensures
            text is Some <==> all_exact(self.entries()),
            text matches Some(t) ==> t@ == json_object_rendered(self.entries())
                && json_object_parsed(t@) == Some(self@),
    {
        if self.is_exact() {
            Some(self.render())
        } else {
            None
        }
    }

    /// The string member `name`.
    pub fn text_of(&self, name: &str) -> (text: Option<String>)
        ensures
            text.deep_view() == required_text(self@, name@),
    {
        match self.get(name) {
            Some(JsonField::Text(s)) => Some(s.clone()),
            _ => None,
        }
    }

    /// The string member `name`, which may be missing or `null`; `Err` where
    /// the member holds something that is neither a string nor `null`.
    pub fn optional_text_of(&self, name: &str) -> (text: Result<Option<String>, ()>)
        ensures
            match text {
                Ok(found) => optional_text(self@, name@) == Some(found.deep_view()),
                Err(_) => optional_text(self@, name@) is None,
            },
    {
        match self.get(name) {
            None => Ok(None),
            Some(JsonField::Null) => Ok(None),
            Some(JsonField::Text(s)) => Ok(Some(s.clone())),
            Some(_) => Err(()),
        }
    }

    /// The array or object member `name`, as JSON text.
    pub fn nested_of(&self, name: &str) -> (text: Option<String>)
        ensures
            text.deep_view() == nested_text(self@, name@),
    {
        match self.get(name) {
            Some(JsonField::Nested(text)) => Some(text.clone()),
            _ => None,
        }
    }

    /// The integer member `name`.
    pub fn int_of(&self, name: &str) -> (value: Option<i64>)
        ensures
            value == required_int(self@, name@),
    {
        match self.get(name) {
            Some(JsonField::Number(Some(n))) => Some(*n),
            _ => None,
        }
    }

    /// Adds a string member.
    pub fn put_text(&mut self, name: &str, text: &str)
        ensures
            final(self).entries() == old(self).entries().push((name@, JsonFieldView::Text(text@))),
            final(self)@ == old(self)@.insert(name@, JsonFieldView::Text(text@)),
    {
        self.put(name, JsonField::Text(String::from_str(text)));
    }

    /// Adds a string member, or `null` where there is no string.
    pub fn put_optional_text(&mut self, name: &str, text: &Option<String>)
        ensures
            final(self).entries() == old(self).entries().push(
                (name@, text_or_null(text.deep_view())),
            ),
            final(self)@ == old(self)@.insert(name@, text_or_null(text.deep_view())),
    {
        match text {
            Some(s) => self.put(name, JsonField::Text(s.clone())),
            None => self.put(name, JsonField::Null),
        }
    }

    /// Adds an integer member.
    pub fn put_int(&mut self, name: &str, value: i64)
        ensures
            final(self).entries() == old(self).entries().push(
                (name@, JsonFieldView::Number(Some(value))),
            ),
            final(self)@ == old(self)@.insert(name@, JsonFieldView::Number(Some(value))),
    {
        self.put(name, JsonField::Number(Some(value)));
    }
}

/// A name that matches at `at` and nowhere behind it is in the map, with the
/// value found there.
proof fn lemma_last_match(entries: Seq<(Seq<char>, JsonFieldView)>, at: int, name: Seq<char>)
    requires
        0 <= at < entries.len(),
        entries[at].0 == name,
        forall|j: int| at < j < entries.len() ==> entries[j].0 != name,
    ensures
        members_by_name(entries).contains_key(name),
        members_by_name(entries)[name] == entries[at].1,
    decreases entries.len(),
{
    if at == entries.len() - 1 {
    } else {
        lemma_last_match(entries.drop_last(), at, name);
    }
}

/// A name that matches nowhere is not in the map.
proof fn lemma_no_match(entries: Seq<(Seq<char>, JsonFieldView)>, name: Seq<char>)
    requires
        forall|j: int| 0 <= j < entries.len() ==> entries[j].0 != name,
    ensures
        !members_by_name(entries).contains_key(name),
    decreases entries.len(),
{
    if entries.len() > 0 {
        lemma_no_match(entries.drop_last(), name);
    }
}

} // verus!
