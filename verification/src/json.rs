//! JSON documents as trees.
//!
//! Reading and writing JSON text is left to `serde_json`. This module gives
//! the documents it handles a mathematical value, [`JsonValue`], and the few
//! operations the wire model needs on them: taking one level of a document
//! apart, putting one level together, and finding a member of an object.
//! Everything that is believed of `serde_json` rather than proved is in this
//! file.
use vstd::prelude::*;

verus! {

/// `serde_json::Value`, a parsed JSON document. Nothing inside it is visible
/// to the verifier; what it holds is named by [`value_tree`].
#[verifier::external_type_specification]
#[verifier::external_body]
pub struct ExValue(serde_json::Value);

/// `serde_json::Number`, a JSON number. It is only carried along, for numbers
/// that are not unsigned 64-bit integers.
#[verifier::external_type_specification]
#[verifier::external_body]
pub struct ExNumber(serde_json::Number);

/// `serde_json::Error`, the failure of reading a JSON text.
#[verifier::external_type_specification]
#[verifier::external_body]
pub struct ExError(serde_json::Error);

/// The mathematical value of a JSON document.
///
/// The members of an object keep the order in which they stand in the
/// document. A number that is an unsigned 64-bit integer is held as that
/// integer; any other number (negative, fractional, out of range) is held as
/// the JSON library represents it.
pub enum JsonValue {
    Null,
    Bool(bool),
    Number(u64),
    OtherNumber(serde_json::Number),
    Str(Seq<char>),
    Array(Seq<JsonValue>),
    Object(Seq<(Seq<char>, JsonValue)>),
}

/// The value of the first member named `key` among `members[start..]`.
pub open spec fn member_from(
    members: Seq<(Seq<char>, JsonValue)>,
    key: Seq<char>,
    start: int,
) -> Option<JsonValue>
    decreases members.len() - start,
{
    if start < 0 || start >= members.len() {
        None
    } else if members[start].0 == key {
        Some(members[start].1)
    } else {
        member_from(members, key, start + 1)
    }
}

/// No two members have the same name.
pub(crate) open spec fn distinct_keys(members: Seq<(Seq<char>, JsonValue)>) -> bool {
    forall|i: int, j: int|
        0 <= i < j < members.len() ==> (#[trigger] members[i]).0 != (#[trigger] members[j]).0
}

impl JsonValue {
    /// The value of the member named `key`: the first one, should the object
    /// hold several. `None` for an object without such a member and for
    /// anything that is not an object.
    pub open spec fn get(self, key: Seq<char>) -> Option<JsonValue> {
        match self {
            JsonValue::Object(members) => member_from(members, key, 0),
            _ => None,
        }
    }

    /// The value of the member named `key`, where there is one and it is not
    /// `null`: an absent member and a `null` one both stand for no value.
    pub open spec fn present(self, key: Seq<char>) -> Option<JsonValue> {
        match self.get(key) {
            Some(JsonValue::Null) => None,
            found => found,
        }
    }

    /// The document is an object with a member named `key`.
    pub open spec fn has_key(self, key: Seq<char>) -> bool {
        match self {
            JsonValue::Object(members) => exists|i: int|
                0 <= i < members.len() && (#[trigger] members[i]).0 == key,
            _ => false,
        }
    }
}

/// No `null` stands anywhere in the document.
pub open spec fn null_free(doc: JsonValue) -> bool
    decreases doc,
{
    match doc {
        JsonValue::Null => false,
        JsonValue::Array(items) => forall|i: int|
            0 <= i < items.len() ==> null_free(#[trigger] items[i]),
        JsonValue::Object(members) => forall|i: int|
            0 <= i < members.len() ==> null_free((#[trigger] members[i]).1),
        _ => true,
    }
}

/// The document that a `serde_json::Value` holds.
pub uninterp spec fn value_tree(value: serde_json::Value) -> JsonValue;

/// The compact JSON text that `serde_json::to_string` writes for a document.
pub uninterp spec fn json_text(doc: JsonValue) -> Seq<char>;

/// The document that `serde_json::from_str` reads from a text, `None` where
/// it rejects the text.
pub uninterp spec fn text_json(text: Seq<char>) -> Option<JsonValue>;

/// The documents held by a sequence of values.
pub open spec fn item_trees(items: Seq<serde_json::Value>) -> Seq<JsonValue> {
    Seq::new(items.len(), |i: int| value_tree(items[i]))
}

/// The named documents held by a sequence of named values.
pub open spec fn member_trees(members: Seq<(String, serde_json::Value)>) -> Seq<
    (Seq<char>, JsonValue),
> {
    Seq::new(members.len(), |i: int| (members[i].0@, value_tree(members[i].1)))
}

/// One level of a JSON document: what kind of value it is, with the values
/// below it left whole.
pub(crate) enum Node {
    Null,
    Bool(bool),
    Number(u64),
    OtherNumber(serde_json::Number),
    Str(String),
    Array(Vec<serde_json::Value>),
    Object(Vec<(String, serde_json::Value)>),
}

impl Node {
    /// The document that this level and the values below it make up.
    pub(crate) open spec fn tree(self) -> JsonValue {
        match self {
            Node::Null => JsonValue::Null,
            Node::Bool(b) => JsonValue::Bool(b),
            Node::Number(n) => JsonValue::Number(n),
            Node::OtherNumber(n) => JsonValue::OtherNumber(n),
            Node::Str(s) => JsonValue::Str(s@),
            Node::Array(items) => JsonValue::Array(item_trees(items@)),
            Node::Object(members) => JsonValue::Object(member_trees(members@)),
        }
    }

    /// What [`assemble`] can build exactly: an unsigned integer where it is
    /// a number, and an object only with members of different names.
    pub(crate) open spec fn buildable(self) -> bool {
        match self {
            Node::OtherNumber(_) => false,
            Node::Object(members) => distinct_keys(member_trees(members@)),
            _ => true,
        }
    }
}

/// Builds a `serde_json::Value` from one level and the values below it, with
/// the variant constructors of `serde_json::Value`, `From<u64>` for the
/// number and `FromIterator` for the object's map. The contract claims that
/// the value holds exactly the document handed in. For an object this rests
/// on the map keeping its entries in insertion order (the crate's
/// `preserve_order` feature) and on the names being different: a repeated
/// name would overwrite the earlier entry.
#[verifier::external_body]
pub(crate) fn assemble(node: Node) -> (value: serde_json::Value)
    requires
        node.buildable(),
    ensures
        value_tree(value) == node.tree(),
{
    match node {
        Node::Null => serde_json::Value::Null,
        Node::Bool(b) => serde_json::Value::Bool(b),
        Node::Number(n) => serde_json::Value::Number(serde_json::Number::from(n)),
        Node::OtherNumber(n) => serde_json::Value::Number(n),
        Node::Str(s) => serde_json::Value::String(s),
        Node::Array(items) => serde_json::Value::Array(items),
        Node::Object(members) => serde_json::Value::Object(members.into_iter().collect()),
    }
}

/// Takes the top level of a `serde_json::Value` apart, one arm for each of
/// its variants; a number is told apart with `serde_json::Number::as_u64`.
/// The contract claims that the level handed out, with the values below it,
/// is the document that the value holds: this is what [`value_tree`] means.
#[verifier::external_body]
pub(crate) fn inspect(value: &serde_json::Value) -> (node: Node)
    ensures
        node.tree() == value_tree(*value),
{
    match value {
        serde_json::Value::Null => Node::Null,
        serde_json::Value::Bool(b) => Node::Bool(*b),
        serde_json::Value::Number(n) => match n.as_u64() {
            Some(u) => Node::Number(u),
            None => Node::OtherNumber(n.clone()),
        },
        serde_json::Value::String(s) => Node::Str(s.clone()),
        serde_json::Value::Array(items) => Node::Array(items.clone()),
        serde_json::Value::Object(map) => Node::Object(
            map.iter().map(|(k, v)| (k.clone(), v.clone())).collect(),
        ),
    }
}

/// Calls `serde_json::to_string` on a value. The contract claims that the
/// text depends on the document alone and names it [`json_text`]. Writing a
/// `serde_json::Value` into a string has no failing path in the crate's
/// source, so the empty default is never taken.
#[verifier::external_body]
pub(crate) fn write_text(value: &serde_json::Value) -> (text: String)
    ensures
        text@ == json_text(value_tree(*value)),
{
    serde_json::to_string(value).unwrap_or_default()
}

/// Calls `serde_json::from_str` for a `serde_json::Value`. The contract
/// claims that acceptance and the document read depend on the text alone,
/// and names the outcome [`text_json`].
#[verifier::external_body]
pub(crate) fn read_text(text: &str) -> (outcome: Result<serde_json::Value, serde_json::Error>)
    ensures
        match outcome {
            Ok(value) => text_json(text@) == Some(value_tree(value)),
            Err(_) => text_json(text@) is None,
        },
{
    serde_json::from_str::<serde_json::Value>(text)
}

/// The message of a `serde_json::Error`, as its `Display` writes it. Nothing
/// is claimed of the wording.
#[verifier::external_body]
pub(crate) fn error_detail(error: &serde_json::Error) -> (detail: String) {
    error.to_string()
}

/// The document held by an optional value.
pub open spec fn tree_of(value: Option<serde_json::Value>) -> Option<JsonValue> {
    match value {
        Some(inner) => Some(value_tree(inner)),
        None => None,
    }
}

/// No two members have the same name.
pub(crate) open spec fn distinct_names(members: Seq<(String, serde_json::Value)>) -> bool {
    forall|i: int, j: int|
        0 <= i < j < members.len() ==> (#[trigger] members[i]).0@ != (#[trigger] members[j]).0@
}

/// A JSON string.
pub fn text_value(text: &str) -> (value: serde_json::Value)
    ensures
        value_tree(value) == JsonValue::Str(text@),
{
    assemble(Node::Str(String::from_str(text)))
}

/// A JSON number that is an unsigned integer.
pub fn unsigned_value(number: u64) -> (value: serde_json::Value)
    ensures
        value_tree(value) == JsonValue::Number(number),
{
    assemble(Node::Number(number))
}

/// A JSON boolean.
pub fn bool_value(flag: bool) -> (value: serde_json::Value)
    ensures
        value_tree(value) == JsonValue::Bool(flag),
{
    assemble(Node::Bool(flag))
}

/// A JSON array of the given values, in their order.
pub fn array_value(items: Vec<serde_json::Value>) -> (value: serde_json::Value)
    ensures
        value_tree(value) == JsonValue::Array(item_trees(items@)),
{
    assemble(Node::Array(items))
}

/// A JSON object of the given members, in their order.
pub(crate) fn object_value(members: Vec<(String, serde_json::Value)>) -> (value: serde_json::Value)
    requires
        distinct_names(members@),
    ensures
        value_tree(value) == JsonValue::Object(member_trees(members@)),
{
    proof {
        let trees = member_trees(members@);
        assert forall|i: int, j: int| 0 <= i < j < trees.len() implies (#[trigger] trees[i]).0
            != (#[trigger] trees[j]).0 by {
            assert(trees[i].0 == members@[i].0@);
            assert(trees[j].0 == members@[j].0@);
        }
    }
    assemble(Node::Object(members))
}

/// The text of a JSON string, `None` for any other value.
pub fn as_text(value: &serde_json::Value) -> (text: Option<String>)
    ensures
        match text {
            Some(s) => value_tree(*value) == JsonValue::Str(s@),
            None => !(value_tree(*value) is Str),
        },
{
    match inspect(value) {
        Node::Str(s) => Some(s),
        _ => None,
    }
}

/// The number of a JSON number that is an unsigned 64-bit integer, `None`
/// for any other value.
pub fn as_unsigned(value: &serde_json::Value) -> (number: Option<u64>)
    ensures
        match number {
            Some(n) => value_tree(*value) == JsonValue::Number(n),
            None => !(value_tree(*value) is Number),
        },
{
    match inspect(value) {
        Node::Number(n) => Some(n),
        _ => None,
    }
}

/// The flag of a JSON boolean, `None` for any other value.
pub fn as_bool(value: &serde_json::Value) -> (flag: Option<bool>)
    ensures
        match flag {
            Some(b) => value_tree(*value) == JsonValue::Bool(b),
            None => !(value_tree(*value) is Bool),
        },
{
    match inspect(value) {
        Node::Bool(b) => Some(b),
        _ => None,
    }
}

/// The items of a JSON array, `None` for any other value.
pub fn as_items(value: &serde_json::Value) -> (items: Option<Vec<serde_json::Value>>)
    ensures
        match items {
            Some(list) => value_tree(*value) == JsonValue::Array(item_trees(list@)),
            None => !(value_tree(*value) is Array),
        },
{
    match inspect(value) {
        Node::Array(list) => Some(list),
        _ => None,
    }
}

/// The member named `key` of a JSON object.
pub fn member(value: &serde_json::Value, key: &str) -> (found: Option<serde_json::Value>)
    ensures
        tree_of(found) == value_tree(*value).get(key@),
{
    match inspect(value) {
        Node::Object(mut members) => match find_member(&members, key) {
            Some(i) => {
                let entry = members.remove(i);
                Some(entry.1)
            },
            None => None,
        },
        _ => None,
    }
}

/// The member named `key` of a JSON object, where the object has one and it
/// is not `null`.
pub fn present_member(value: &serde_json::Value, key: &str) -> (found: Option<serde_json::Value>)
    ensures
        tree_of(found) == value_tree(*value).present(key@),
{
    match member(value, key) {
        Some(inner) => match inspect(&inner) {
            Node::Null => None,
            _ => Some(inner),
        },
        None => None,
    }
}

/// The position of the first member named `key`, or `None` if there is none.
pub fn find_member(members: &Vec<(String, serde_json::Value)>, key: &str) -> (found: Option<usize>)
    ensures
        match found {
            Some(i) => {
                &&& i < members.len()
                &&& members[i as int].0@ == key@
                &&& forall|k: int| 0 <= k < i ==> (#[trigger] members[k]).0@ != key@
                &&& member_from(member_trees(members@), key@, 0) == Some(
                    value_tree(members[i as int].1),
                )
            },
            None => {
                &&& forall|k: int| 0 <= k < members.len() ==> (#[trigger] members[k]).0@ != key@
                &&& member_from(member_trees(members@), key@, 0) is None
            },
        },
{
    let wanted = String::from_str(key);
    let ghost trees = member_trees(members@);
    let mut i: usize = 0;
    while i < members.len()
        invariant
            i <= members.len(),
            wanted@ == key@,
            trees == member_trees(members@),
            forall|k: int| 0 <= k < i ==> (#[trigger] members[k]).0@ != key@,
            member_from(trees, key@, 0) == member_from(trees, key@, i as int),
        decreases members.len() - i,
    {
        if members[i].0 == wanted {
            return Some(i);
        }
        i += 1;
    }
    None
}

/// `members[i]` is the first member named `key` at or after `start`.
pub open spec fn first_named(
    members: Seq<(Seq<char>, JsonValue)>,
    key: Seq<char>,
    start: int,
    i: int,
) -> bool {
    &&& start <= i < members.len()
    &&& members[i].0 == key
    &&& forall|k: int| start <= k < i ==> (#[trigger] members[k]).0 != key
}

/// A member is found by its name exactly where the object has a member of
/// that name, and what is found is the value of the first such member.
pub proof fn get_finds_the_first_member(doc: JsonValue, key: Seq<char>)
    ensures
        doc.get(key) is Some <==> doc.has_key(key),
        doc.get(key) matches Some(found) ==> doc matches JsonValue::Object(members) && exists|i: int|
            #[trigger] first_named(members, key, 0, i) && members[i].1 == found,
{
    match doc {
        JsonValue::Object(members) => {
            member_from_finds_the_first(members, key, 0);
            if member_from(members, key, 0) is Some {
                let found = member_from(members, key, 0)->0;
                let i = choose|i: int|
                    #[trigger] first_named(members, key, 0, i) && members[i].1 == found;
                assert(members[i].0 == key);
            }
        },
        _ => {},
    }
}

/// What [`member_from`] finds is the value of the first member of that name
/// at or after `start`; it finds nothing exactly where there is no such
/// member.
pub proof fn member_from_finds_the_first(
    members: Seq<(Seq<char>, JsonValue)>,
    key: Seq<char>,
    start: int,
)
    requires
        0 <= start,
    ensures
        member_from(members, key, start) matches Some(found) ==> exists|i: int|
            #[trigger] first_named(members, key, start, i) && members[i].1 == found,
        member_from(members, key, start) is None ==> forall|k: int|
            start <= k < members.len() ==> (#[trigger] members[k]).0 != key,
    decreases members.len() - start,
{
    if start < members.len() {
        if members[start].0 == key {
            assert(first_named(members, key, start, start));
        } else {
            member_from_finds_the_first(members, key, start + 1);
            if member_from(members, key, start + 1) is Some {
                let found = member_from(members, key, start + 1)->0;
                let i = choose|i: int|
                    #[trigger] first_named(members, key, start + 1, i) && members[i].1 == found;
                assert(first_named(members, key, start, i));
            }
        }
    }
}

/// A member of another name, put anywhere into an object, does not change
/// what is found under `key`.
pub proof fn other_member_changes_nothing(
    members: Seq<(Seq<char>, JsonValue)>,
    at: int,
    extra: (Seq<char>, JsonValue),
    key: Seq<char>,
)
    requires
        0 <= at <= members.len(),
        extra.0 != key,
    ensures
        JsonValue::Object(members.insert(at, extra)).get(key) == JsonValue::Object(members).get(
            key,
        ),
        JsonValue::Object(members.insert(at, extra)).present(key) == JsonValue::Object(
            members,
        ).present(key),
{
    member_from_skips_other_member(members, at, extra, key, 0);
}

/// [`member_from`] passes over a member of another name.
proof fn member_from_skips_other_member(
    members: Seq<(Seq<char>, JsonValue)>,
    at: int,
    extra: (Seq<char>, JsonValue),
    key: Seq<char>,
    start: int,
)
    requires
        0 <= at <= members.len(),
        extra.0 != key,
        0 <= start <= members.len() + 1,
    ensures
        start <= at ==> member_from(members.insert(at, extra), key, start) == member_from(
            members,
            key,
            start,
        ),
        start > at ==> member_from(members.insert(at, extra), key, start) == member_from(
            members,
            key,
            start - 1,
        ),
    decreases members.len() + 1 - start,
{
    let longer = members.insert(at, extra);
    if start < longer.len() {
        member_from_skips_other_member(members, at, extra, key, start + 1);
        if start < at {
            assert(longer[start] == members[start]);
        } else if start == at {
            assert(longer[start] == extra);
        } else {
            assert(longer[start] == members[start - 1]);
        }
    }
}

} // verus!
