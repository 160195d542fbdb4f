//! JSON values as plain data.
use serde_json::Value;
use vstd::prelude::*;

use crate::text;

verus! {

/// A JSON number: its text, and its value where that is an unsigned integer.
#[derive(Clone, Debug, PartialEq, Eq)]
pub struct Number {
    pub unsigned: Option<u64>,
    pub text: String,
}

/// A JSON value.
#[derive(Debug, PartialEq, Eq)]
pub enum Json {
    Null,
    Bool(bool),
    Number(Number),
    Text(String),
    Array(Vec<Json>),
    Object(Vec<(String, Json)>),
}

/// The mathematical content of a [`Number`].
#[verifier::ext_equal]
pub struct NumberView {
    pub unsigned: Option<u64>,
    pub text: Seq<char>,
}

/// The mathematical content of a [`Json`] value.
#[verifier::ext_equal]
pub enum JsonView {
    Null,
    Bool(bool),
    Number(NumberView),
    Text(Seq<char>),
    Array(Seq<JsonView>),
    Object(Seq<(Seq<char>, JsonView)>),
}

impl View for Number {
    type V = NumberView;

    open spec fn view(&self) -> NumberView {
        NumberView { unsigned: self.unsigned, text: self.text@ }
    }
}

/// The content of `value`.
pub open spec fn json_view(value: Json) -> JsonView
    decreases value,
{
    match value {
        Json::Null => JsonView::Null,
        Json::Bool(b) => JsonView::Bool(b),
        Json::Number(n) => JsonView::Number(n@),
        Json::Text(s) => JsonView::Text(s@),
        Json::Array(items) => JsonView::Array(
            Seq::new(
                items@.len(),
                |i: int|
                    if 0 <= i < items@.len() {
                        json_view(items@[i])
                    } else {
                        JsonView::Null
                    },
            ),
        ),
        Json::Object(fields) => JsonView::Object(
            Seq::new(
                fields@.len(),
                |i: int|
                    if 0 <= i < fields@.len() {
                        (fields@[i].0@, json_view(fields@[i].1))
                    } else {
                        (Seq::empty(), JsonView::Null)
                    },
            ),
        ),
    }
}

/// The contents of each value in a list.
pub open spec fn views(items: Seq<Json>) -> Seq<JsonView> {
    items.map_values(|item: Json| item@)
}

/// The names and contents of the members of an object.
pub open spec fn member_views(fields: Seq<(String, Json)>) -> Seq<(Seq<char>, JsonView)> {
    fields.map_values(|field: (String, Json)| (field.0@, field.1@))
}

/// The content of an array is made of the contents of its items.
pub proof fn lemma_array_view(items: Vec<Json>)
    ensures
        Json::Array(items)@ == JsonView::Array(views(items@)),
{
    let value = Json::Array(items);
    assert(value@->Array_0 =~= views(items@));
}

/// The content of an object is made of the names and contents of its members.
pub proof fn lemma_object_view(fields: Vec<(String, Json)>)
    ensures
        Json::Object(fields)@ == JsonView::Object(member_views(fields@)),
{
    let value = Json::Object(fields);
    assert(value@->Object_0 =~= member_views(fields@));
}

impl View for Json {
    type V = JsonView;

    open spec fn view(&self) -> JsonView {
        json_view(*self)
    }
}

impl Json {
    /// A copy of the value.
    pub fn duplicate(&self) -> (copy: Json)
        ensures
            copy@ == self@,
        decreases self,
    {
        match self {
            Json::Null => Json::Null,
            Json::Bool(b) => Json::Bool(*b),
            Json::Number(n) => Json::Number(Number { unsigned: n.unsigned, text: n.text.clone() }),
            Json::Text(s) => Json::Text(s.clone()),
            Json::Array(items) => {
                let mut copies: Vec<Json> = Vec::new();
                let mut i: usize = 0;
                while i < items.len()
                    invariant
                        *self is Array,
                        *items == self->Array_0,
                        i <= items@.len(),
                        copies@.len() == i,
                        forall|j: int| 0 <= j < i ==> (#[trigger] copies@[j])@ == items@[j]@,
                    decreases items@.len() - i,
                {
                    assert(decreases_to!(self => self->Array_0));
                    assert(decreases_to!(items => items[i as int]));
                    let item = items[i].duplicate();
                    copies.push(item);
                    i += 1;
                }
                proof {
                    lemma_array_view(copies);
                    lemma_array_view(*items);
                }
                assert(views(copies@) =~= views(items@));
                Json::Array(copies)
            },
            Json::Object(fields) => {
                let mut copies: Vec<(String, Json)> = Vec::new();
                let mut i: usize = 0;
                while i < fields.len()
                    invariant
                        *self is Object,
                        *fields == self->Object_0,
                        i <= fields@.len(),
                        copies@.len() == i,
                        forall|j: int|
                            0 <= j < i ==> (#[trigger] copies@[j]).0@ == fields@[j].0@
                                && copies@[j].1@ == fields@[j].1@,
                    decreases fields@.len() - i,
                {
                    assert(decreases_to!(self => self->Object_0));
                    assert(decreases_to!(fields => fields[i as int]));
                    assert(decreases_to!(fields[i as int] => fields[i as int].1));
                    let value = fields[i].1.duplicate();
                    copies.push((fields[i].0.clone(), value));
                    i += 1;
                }
                proof {
                    lemma_object_view(copies);
                    lemma_object_view(*fields);
                }
                assert(member_views(copies@) =~= member_views(fields@));
                Json::Object(copies)
            },
        }
    }
}

impl Clone for Json {
    fn clone(&self) -> (copy: Json)
        ensures
            copy@ == self@,
    {
        self.duplicate()
    }
}

// ---------------------------------------------------------------------------
// Reading members
// ---------------------------------------------------------------------------

/// The value of the first member called `name`.
pub open spec fn lookup(fields: Seq<(Seq<char>, JsonView)>, name: Seq<char>) -> Option<JsonView>
    decreases fields.len(),
{
    if fields.len() == 0 {
        None
    } else if fields[0].0 == name {
        Some(fields[0].1)
    } else {
        lookup(fields.drop_first(), name)
    }
}

/// The first field of the given name is found.
pub proof fn lemma_lookup_first(fields: Seq<(Seq<char>, JsonView)>, i: int)
    requires
        0 <= i < fields.len(),
        forall|j: int| 0 <= j < i ==> (#[trigger] fields[j]).0 != fields[i].0,
    ensures
        lookup(fields, fields[i].0) == Some(fields[i].1),
    decreases i,
{
    if i > 0 {
        let rest = fields.drop_first();
        assert(fields[0].0 != fields[i].0);
        assert forall|j: int| 0 <= j < i - 1 implies (#[trigger] rest[j]).0 != rest[i - 1].0 by {
            assert(rest[j] == fields[j + 1]);
        }
        lemma_lookup_first(rest, i - 1);
    }
}

/// A name that no field has is not found.
pub proof fn lemma_lookup_none(fields: Seq<(Seq<char>, JsonView)>, name: Seq<char>)
    requires
        forall|j: int| 0 <= j < fields.len() ==> (#[trigger] fields[j]).0 != name,
    ensures
        lookup(fields, name) is None,
    decreases fields.len(),
{
    if fields.len() > 0 {
        let rest = fields.drop_first();
        assert(fields[0].0 != name);
        assert forall|j: int| 0 <= j < rest.len() implies (#[trigger] rest[j]).0 != name by {
            assert(rest[j] == fields[j + 1]);
        }
        lemma_lookup_none(rest, name);
    }
}

impl JsonView {
    /// The member `name` of an object.
    pub open spec fn get(self, name: Seq<char>) -> Option<JsonView> {
        match self {
            JsonView::Object(fields) => lookup(fields, name),
            _ => None,
        }
    }

    /// The content of a text.
    pub open spec fn as_text(self) -> Option<Seq<char>> {
        match self {
            JsonView::Text(content) => Some(content),
            _ => None,
        }
    }

    /// The value of an unsigned integer.
    pub open spec fn as_u64(self) -> Option<u64> {
        match self {
            JsonView::Number(number) => number.unsigned,
            _ => None,
        }
    }

    /// The member `name`, if it is a text.
    pub open spec fn text_at(self, name: Seq<char>) -> Option<Seq<char>> {
        match self.get(name) {
            Some(value) => value.as_text(),
            None => None,
        }
    }
}

/// The content of an optional value.
pub open spec fn opt_view(value: Option<Json>) -> Option<JsonView> {
    match value {
        Some(inner) => Some(inner@),
        None => None,
    }
}

impl Json {
    /// The member `name` of an object.
    pub fn get(&self, name: &str) -> (member: Option<&Json>)
        ensures
            match member {
                Some(value) => self@.get(name@) == Some(value@),
                None => self@.get(name@) is None,
            },
    {
        match self {
            Json::Object(fields) => {
                proof {
                    lemma_object_view(*fields);
                }
                let ghost all = member_views(fields@);
                let mut i: usize = 0;
                assert(all.skip(0) =~= all);
                while i < fields.len()
                    invariant
                        all == member_views(fields@),
                        self@.get(name@) == lookup(all, name@),
                        i <= fields@.len(),
                        lookup(all, name@) == lookup(all.skip(i as int), name@),
                    decreases fields@.len() - i,
                {
                    assert(all.skip(i as int)[0] == (fields@[i as int].0@, fields@[i as int].1@));
                    if text::same_text(fields[i].0.as_str(), name) {
                        return Some(&fields[i].1);
                    }
                    assert(all.skip(i as int).drop_first() =~= all.skip(i + 1));
                    i += 1;
                }
                None
            },
            _ => None,
        }
    }

    /// The content of a text.
    pub fn as_text(&self) -> (content: Option<&str>)
        ensures
            match content {
                Some(inner) => self@.as_text() == Some(inner@),
                None => self@.as_text() is None,
            },
    {
        match self {
            Json::Text(content) => Some(content.as_str()),
            _ => None,
        }
    }

    /// The value of an unsigned integer.
    pub fn as_u64(&self) -> (value: Option<u64>)
        ensures
            value == self@.as_u64(),
    {
        match self {
            Json::Number(number) => number.unsigned,
            _ => None,
        }
    }

    /// The member `name`, if it is a text.
    pub fn text_at(&self, name: &str) -> (content: Option<&str>)
        ensures
            match content {
                Some(inner) => self@.text_at(name@) == Some(inner@),
                None => self@.text_at(name@) is None,
            },
    {
        match self.get(name) {
            Some(value) => value.as_text(),
            None => None,
        }
    }
}

// ---------------------------------------------------------------------------
// Building values
// ---------------------------------------------------------------------------

/// The number `n`.
pub open spec fn number_view(n: u64) -> JsonView {
    JsonView::Number(NumberView { unsigned: Some(n), text: text::decimal(n as nat) })
}

impl Json {
    /// The number `n`.
    pub fn number(n: u64) -> (value: Json)
        ensures
            value@ == number_view(n),
    {
        Json::Number(Number { unsigned: Some(n), text: text::numeral(n) })
    }

    /// A text.
    pub fn text(content: &str) -> (value: Json)
        ensures
            value@ == JsonView::Text(content@),
    {
        Json::Text(content.to_owned())
    }

    /// An object without members.
    pub fn empty_object() -> (value: Json)
        ensures
            value@ == JsonView::Object(seq![]),
    {
        let fields: Vec<(String, Json)> = Vec::new();
        proof {
            lemma_object_view(fields);
            assert(member_views(fields@) =~= seq![]);
        }
        Json::Object(fields)
    }

    /// An object with one member.
    pub fn object1(name: &str, value: Json) -> (object: Json)
        ensures
            object@ == JsonView::Object(seq![(name@, value@)]),
    {
        let mut fields: Vec<(String, Json)> = Vec::new();
        let ghost content = value@;
        fields.push((name.to_owned(), value));
        proof {
            lemma_object_view(fields);
            assert(member_views(fields@) =~= seq![(name@, content)]);
        }
        Json::Object(fields)
    }

    /// An object with two members.
    pub fn object2(name: &str, value: Json, other_name: &str, other_value: Json) -> (object: Json)
        ensures
            object@ == JsonView::Object(seq![(name@, value@), (other_name@, other_value@)]),
    {
        let mut fields: Vec<(String, Json)> = Vec::new();
        let ghost content = value@;
        let ghost other_content = other_value@;
        fields.push((name.to_owned(), value));
        fields.push((other_name.to_owned(), other_value));
        proof {
            lemma_object_view(fields);
            assert(member_views(fields@) =~= seq![(name@, content), (other_name@, other_content)]);
        }
        Json::Object(fields)
    }
}

// ---------------------------------------------------------------------------
// Reading JSON text
// ---------------------------------------------------------------------------

/// One level of a JSON document: the members and items are still JSON text.
pub enum Node {
    Null,
    Bool(bool),
    Number(Number),
    Text(String),
    Array(Vec<String>),
    Object(Vec<(String, String)>),
}

/// The mathematical content of a [`Node`].
#[verifier::ext_equal]
pub enum NodeView {
    Null,
    Bool(bool),
    Number(NumberView),
    Text(Seq<char>),
    Array(Seq<Seq<char>>),
    Object(Seq<(Seq<char>, Seq<char>)>),
}

/// The names and texts of members that are still JSON text.
pub open spec fn pair_views(fields: Seq<(String, String)>) -> Seq<(Seq<char>, Seq<char>)> {
    fields.map_values(|field: (String, String)| (field.0@, field.1@))
}

impl View for Node {
    type V = NodeView;

    open spec fn view(&self) -> NodeView {
        match *self {
            Node::Null => NodeView::Null,
            Node::Bool(b) => NodeView::Bool(b),
            Node::Number(n) => NodeView::Number(n@),
            Node::Text(s) => NodeView::Text(s@),
            Node::Array(items) => NodeView::Array(text::texts(items@)),
            Node::Object(fields) => NodeView::Object(pair_views(fields@)),
        }
    }
}

/// What `serde_json::from_str` makes of `document`: its outermost level, with every item
/// and member value printed back as JSON text, or the text of the error.
pub uninterp spec fn json_node(document: Seq<char>) -> Result<NodeView, Seq<char>>;

/// The content of a node or of an error.
pub open spec fn node_view(node: Result<Node, String>) -> Result<NodeView, Seq<char>> {
    match node {
        Ok(inner) => Ok(inner@),
        Err(reason) => Err(reason@),
    }
}

/// Reads the outermost level of `document` with `serde_json::from_str` into a
/// `serde_json::Value`. The result is a function of the document alone, and is named
/// [`json_node`]; nothing more is claimed of it.
#[verifier::external_body]
fn read_node(document: &str) -> (node: Result<Node, String>)
    ensures
        node_view(node) == json_node(document@),
{
    let value = match serde_json::from_str(document) {
        Ok(value) => value,
        Err(error) => return Err(error.to_string()),
    };
    Ok(match value {
        Value::Null => Node::Null,
        Value::Bool(b) => Node::Bool(b),
        Value::Number(n) => Node::Number(Number { unsigned: n.as_u64(), text: n.to_string() }),
        Value::String(s) => Node::Text(s),
        Value::Array(a) => Node::Array(a.iter().map(|v| v.to_string()).collect()),
        Value::Object(m) => {
            Node::Object(m.iter().map(|(k, v)| (k.clone(), v.to_string())).collect())
        },
    })
}

/// How deeply arrays and objects may nest.
pub const MAX_DEPTH: u8 = 128;

/// The value that `document` stands for, down to `depth` levels.
pub open spec fn tree(document: Seq<char>, depth: nat) -> Result<JsonView, Seq<char>>
    decreases depth, 0nat,
{
    match json_node(document) {
        Err(reason) => Err(reason),
        Ok(NodeView::Null) => Ok(JsonView::Null),
        Ok(NodeView::Bool(b)) => Ok(JsonView::Bool(b)),
        Ok(NodeView::Number(n)) => Ok(JsonView::Number(n)),
        Ok(NodeView::Text(s)) => Ok(JsonView::Text(s)),
        Ok(NodeView::Array(items)) => {
            if depth == 0 {
                Err("recursion limit exceeded"@)
            } else {
                match tree_items(items, (depth - 1) as nat) {
                    Ok(values) => Ok(JsonView::Array(values)),
                    Err(reason) => Err(reason),
                }
            }
        },
        Ok(NodeView::Object(fields)) => {
            if depth == 0 {
                Err("recursion limit exceeded"@)
            } else {
                match tree_fields(fields, (depth - 1) as nat) {
                    Ok(values) => Ok(JsonView::Object(values)),
                    Err(reason) => Err(reason),
                }
            }
        },
    }
}

/// The values of a list of documents, or the first error among them.
pub open spec fn tree_items(items: Seq<Seq<char>>, depth: nat) -> Result<Seq<JsonView>, Seq<char>>
    decreases depth, items.len(),
{
    if items.len() == 0 {
        Ok(seq![])
    } else {
        match tree_items(items.drop_last(), depth) {
            Err(reason) => Err(reason),
            Ok(front) => match tree(items.last(), depth) {
                Err(reason) => Err(reason),
                Ok(value) => Ok(front.push(value)),
            },
        }
    }
}

/// The values of a list of named documents, or the first error among them.
pub open spec fn tree_fields(fields: Seq<(Seq<char>, Seq<char>)>, depth: nat) -> Result<
    Seq<(Seq<char>, JsonView)>,
    Seq<char>,
>
    decreases depth, fields.len(),
{
    if fields.len() == 0 {
        Ok(seq![])
    } else {
        match tree_fields(fields.drop_last(), depth) {
            Err(reason) => Err(reason),
            Ok(front) => match tree(fields.last().1, depth) {
                Err(reason) => Err(reason),
                Ok(value) => Ok(front.push((fields.last().0, value))),
            },
        }
    }
}

/// The content of a value or of an error.
pub open spec fn parsed_view(value: Result<Json, String>) -> Result<JsonView, Seq<char>> {
    match value {
        Ok(inner) => Ok(inner@),
        Err(reason) => Err(reason@),
    }
}

/// A failure among the first `k` documents is the failure of the list.
proof fn lemma_items_error(items: Seq<Seq<char>>, depth: nat, k: int)
    requires
        0 <= k <= items.len(),
        tree_items(items.take(k), depth) is Err,
    ensures
        tree_items(items, depth) == tree_items(items.take(k), depth),
    decreases items.len() - k,
{
    if k < items.len() {
        assert(items.take(k + 1).drop_last() =~= items.take(k));
        lemma_items_error(items, depth, k + 1);
    } else {
        assert(items.take(k) =~= items);
    }
}

/// A failure among the first `k` members is the failure of the object.
proof fn lemma_fields_error(fields: Seq<(Seq<char>, Seq<char>)>, depth: nat, k: int)
    requires
        0 <= k <= fields.len(),
        tree_fields(fields.take(k), depth) is Err,
    ensures
        tree_fields(fields, depth) == tree_fields(fields.take(k), depth),
    decreases fields.len() - k,
{
    if k < fields.len() {
        assert(fields.take(k + 1).drop_last() =~= fields.take(k));
        lemma_fields_error(fields, depth, k + 1);
    } else {
        assert(fields.take(k) =~= fields);
    }
}

/// Reads `document` down to `depth` levels.
fn parse_levels(document: &str, depth: u8) -> (value: Result<Json, String>)
    ensures
        parsed_view(value) == tree(document@, depth as nat),
    decreases depth,
{
    match read_node(document) {
        Err(reason) => Err(reason),
        Ok(Node::Null) => Ok(Json::Null),
        Ok(Node::Bool(b)) => Ok(Json::Bool(b)),
        Ok(Node::Number(n)) => Ok(Json::Number(n)),
        Ok(Node::Text(s)) => Ok(Json::Text(s)),
        Ok(Node::Array(items)) => {
            if depth == 0 {
                return Err("recursion limit exceeded".to_owned());
            }
            let ghost below = (depth - 1) as nat;
            let ghost all = text::texts(items@);
            let mut values: Vec<Json> = Vec::new();
            let mut i: usize = 0;
            assert(all.take(0) =~= seq![]);
            assert(views(values@) =~= seq![]);
            while i < items.len()
                invariant
                    depth > 0,
                    below == depth - 1,
                    all == text::texts(items@),
                    i <= items@.len(),
                    tree_items(all.take(i as int), below) == Ok::<_, Seq<char>>(views(values@)),
                    tree(document@, depth as nat) == (match tree_items(all, below) {
                        Ok(content) => Ok(JsonView::Array(content)),
                        Err(reason) => Err(reason),
                    }),
                decreases items@.len() - i,
            {
                proof {
                    assert(all.take(i + 1).drop_last() =~= all.take(i as int));
                    assert(all.take(i + 1).last() == items@[i as int]@);
                }
                match parse_levels(items[i].as_str(), depth - 1) {
                    Ok(value) => {
                        let ghost before = values@;
                        values.push(value);
                        assert(views(values@) =~= views(before).push(value@));
                    },
                    Err(reason) => {
                        proof {
                            lemma_items_error(all, below, i + 1);
                        }
                        return Err(reason);
                    },
                }
                i += 1;
            }
            proof {
                assert(all.take(i as int) =~= all);
                lemma_array_view(values);
            }
            Ok(Json::Array(values))
        },
        Ok(Node::Object(fields)) => {
            if depth == 0 {
                return Err("recursion limit exceeded".to_owned());
            }
            let ghost below = (depth - 1) as nat;
            let ghost all = pair_views(fields@);
            let mut values: Vec<(String, Json)> = Vec::new();
            let mut i: usize = 0;
            assert(all.take(0) =~= seq![]);
            assert(member_views(values@) =~= seq![]);
            while i < fields.len()
                invariant
                    depth > 0,
                    below == depth - 1,
                    all == pair_views(fields@),
                    i <= fields@.len(),
                    tree_fields(all.take(i as int), below) == Ok::<_, Seq<char>>(
                        member_views(values@),
                    ),
                    tree(document@, depth as nat) == (match tree_fields(all, below) {
                        Ok(content) => Ok(JsonView::Object(content)),
                        Err(reason) => Err(reason),
                    }),
                decreases fields@.len() - i,
            {
                proof {
                    assert(all.take(i + 1).drop_last() =~= all.take(i as int));
                    assert(all.take(i + 1).last() == (fields@[i as int].0@, fields@[i as int].1@));
                }
                match parse_levels(fields[i].1.as_str(), depth - 1) {
                    Ok(value) => {
                        let ghost before = values@;
                        values.push((fields[i].0.clone(), value));
                        assert(member_views(values@) =~= member_views(before).push(
                            (fields@[i as int].0@, value@),
                        ));
                    },
                    Err(reason) => {
                        proof {
                            lemma_fields_error(all, below, i + 1);
                        }
                        return Err(reason);
                    },
                }
                i += 1;
            }
            proof {
                assert(all.take(i as int) =~= all);
                lemma_object_view(values);
            }
            Ok(Json::Object(values))
        },
    }
}

/// Reads a JSON document.
pub fn parse_json(document: &str) -> (value: Result<Json, String>)
    ensures
        parsed_view(value) == tree(document@, MAX_DEPTH as nat),
{
    parse_levels(document, MAX_DEPTH)
}

} // verus!
