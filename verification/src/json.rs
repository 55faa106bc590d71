//! JSON documents: the tree that the configuration is read into, its
//! mathematical model, and the lookups and updates that the reset makes.
//!
//! Reading and writing JSON text is the work of `serde_json`; the tree here
//! holds what that crate's `Value` holds, so that the rules of the reset can
//! be stated and proved on it.

use vstd::prelude::*;

verus! {

/// A number of a JSON document, as `serde_json` holds it: carried through,
/// never looked into.
#[verifier::external_type_specification]
#[verifier::external_body]
pub struct ExNumber(serde_json::Number);

/// A JSON document as `serde_json` holds it.
#[verifier::external_type_specification]
#[verifier::external_body]
pub struct ExValue(serde_json::Value);

/// A JSON value. The members of an object stand in a list; where a name
/// occurs more than once, the last member of that name counts.
#[derive(Debug, PartialEq, Eq)]
pub enum Json {
    Null,
    Bool(bool),
    Number(serde_json::Number),
    Text(String),
    Array(Vec<Json>),
    Object(Vec<(String, Json)>),
}

/// The mathematical model of a JSON value: an object is a map from names
/// to values.
pub enum JsonView {
    Null,
    Bool(bool),
    Number(serde_json::Number),
    Text(Seq<char>),
    Array(Seq<JsonView>),
    Object(Map<Seq<char>, JsonView>),
}

/// The model of a JSON value.
pub open spec fn json_view(j: Json) -> JsonView
    decreases j,
{
    match j {
        Json::Null => JsonView::Null,
        Json::Bool(b) => JsonView::Bool(b),
        Json::Number(n) => JsonView::Number(n),
        Json::Text(s) => JsonView::Text(s@),
        Json::Array(items) => JsonView::Array(items_view(items@)),
        Json::Object(members) => JsonView::Object(members_view(members@)),
    }
}

/// The models of the items of an array, in order.
pub open spec fn items_view(items: Seq<Json>) -> Seq<JsonView>
    decreases items,
{
    if items.len() == 0 {
        Seq::empty()
    } else {
        items_view(items.drop_last()).push(json_view(items.last()))
    }
}

/// The map that a list of members stands for: each member in turn sets the
/// value of its name, so that a later member overrides an earlier one.
pub open spec fn members_view(members: Seq<(String, Json)>) -> Map<Seq<char>, JsonView>
    decreases members,
{
    if members.len() == 0 {
        Map::empty()
    } else {
        members_view(members.drop_last()).insert(members.last().0@, json_view(members.last().1))
    }
}

impl View for Json {
    type V = JsonView;

    open spec fn view(&self) -> JsonView {
        json_view(*self)
    }
}

/// Member `i` is the last one of `members` that is called `name`.
pub open spec fn is_last_named(members: Seq<(String, Json)>, i: int, name: Seq<char>) -> bool {
    &&& 0 <= i < members.len()
    &&& members[i].0@ == name
    &&& forall|j: int| i < j < members.len() ==> (#[trigger] members[j]).0@ != name
}

/// No member of `members` is called `name`.
pub open spec fn has_no_member(members: Seq<(String, Json)>, name: Seq<char>) -> bool {
    forall|j: int| 0 <= j < members.len() ==> (#[trigger] members[j]).0@ != name
}

/// A name that no member carries is not in the map.
pub proof fn lemma_absent_member(members: Seq<(String, Json)>, name: Seq<char>)
    requires
        has_no_member(members, name),
    ensures
        !members_view(members).contains_key(name),
    decreases members.len(),
{
    if members.len() > 0 {
        let front = members.drop_last();
        assert(members.last() == members[members.len() - 1]);
        assert forall|j: int| 0 <= j < front.len() implies (#[trigger] front[j]).0@ != name by {
            assert(front[j] == members[j]);
        }
        lemma_absent_member(front, name);
    }
}

/// The map gives a name the value of the last member that carries it.
pub proof fn lemma_last_member(members: Seq<(String, Json)>, i: int, name: Seq<char>)
    requires
        is_last_named(members, i, name),
    ensures
        members_view(members).contains_key(name),
        members_view(members)[name] == json_view(members[i].1),
    decreases members.len(),
{
    let front = members.drop_last();
    assert(members.last() == members[members.len() - 1]);
    if i < members.len() - 1 {
        assert(front[i] == members[i]);
        assert forall|j: int| i < j < front.len() implies (#[trigger] front[j]).0@ != name by {
            assert(front[j] == members[j]);
        }
        lemma_last_member(front, i, name);
    }
}

/// Replacing the last member of a name sets the value of that name.
pub proof fn lemma_replace_member(
    members: Seq<(String, Json)>,
    i: int,
    name: Seq<char>,
    member: (String, Json),
)
    requires
        is_last_named(members, i, name),
        member.0@ == name,
    ensures
        members_view(members.update(i, member)) == members_view(members).insert(
            name,
            json_view(member.1),
        ),
    decreases members.len(),
{
    let front = members.drop_last();
    let changed = members.update(i, member);
    assert(members.last() == members[members.len() - 1]);
    if i == members.len() - 1 {
        assert(changed.drop_last() =~= front);
        assert(members_view(changed) =~= members_view(members).insert(name, json_view(member.1)));
    } else {
        assert(front[i] == members[i]);
        assert forall|j: int| i < j < front.len() implies (#[trigger] front[j]).0@ != name by {
            assert(front[j] == members[j]);
        }
        lemma_replace_member(front, i, name, member);
        assert(changed.drop_last() =~= front.update(i, member));
        assert(members_view(changed) =~= members_view(members).insert(name, json_view(member.1)));
    }
}

/// Adding a member at the end sets the value of its name.
pub proof fn lemma_append_member(members: Seq<(String, Json)>, member: (String, Json))
    ensures
        members_view(members.push(member)) == members_view(members).insert(
            member.0@,
            json_view(member.1),
        ),
{
    assert(members.push(member).drop_last() =~= members);
}

/// The position of the last member called `name`, if there is one.
pub fn find_member(members: &Vec<(String, Json)>, name: &str) -> (at: Option<usize>)
    ensures
        match at {
            Some(i) => is_last_named(members@, i as int, name@),
            None => has_no_member(members@, name@),
        },
{
    let wanted = String::from_str(name);
    let mut i: usize = members.len();
    while i > 0
        invariant
            i <= members.len(),
            wanted@ == name@,
            forall|j: int| i <= j < members.len() ==> (#[trigger] members@[j]).0@ != name@,
        decreases i,
    {
        i -= 1;
        if members[i].0 == wanted {
            return Some(i);
        }
    }
    None
}

/// Gives `name` the value `value`: the last member of that name is
/// replaced, or a new member is added at the end.
pub fn set_member(members: &mut Vec<(String, Json)>, name: &str, value: Json)
    ensures
        members_view(final(members)@) == members_view(old(members)@).insert(name@, value@),
{
    let member = (String::from_str(name), value);
    match find_member(members, name) {
        Some(i) => {
            proof {
                lemma_replace_member(members@, i as int, name@, member);
            }
            members.set(i, member);
        },
        None => {
            proof {
                lemma_append_member(members@, member);
            }
            members.push(member);
        },
    }
}

impl Json {
    /// The value is an object.
    pub fn is_object(&self) -> (yes: bool)
        ensures
            yes == (self@ is Object),
    {
        match self {
            Json::Object(_) => true,
            _ => false,
        }
    }

    /// The value of the member `name` of an object; `None` where the value
    /// is no object or has no such member.
    pub fn get(&self, name: &str) -> (found: Option<&Json>)
        ensures
            match found {
                Some(value) => self@ matches JsonView::Object(fields) && fields.contains_key(name@)
                    && fields[name@] == value@,
                None => self@ matches JsonView::Object(fields) ==> !fields.contains_key(name@),
            },
    {
        match self {
            Json::Object(members) => match find_member(members, name) {
                Some(i) => {
                    proof {
                        lemma_last_member(members@, i as int, name@);
                    }
                    Some(&members[i].1)
                },
                None => {
                    proof {
                        lemma_absent_member(members@, name@);
                    }
                    None
                },
            },
            _ => None,
        }
    }

    /// The text of a string value; `None` for any other value.
    pub fn as_text(&self) -> (text: Option<&str>)
        ensures
            match text {
                Some(t) => self@ == JsonView::Text(t@),
                None => !(self@ is Text),
            },
    {
        match self {
            Json::Text(s) => Some(s.as_str()),
            _ => None,
        }
    }
}

/// What the JSON value `v` of `serde_json` holds.
pub uninterp spec fn value_view(v: serde_json::Value) -> JsonView;

/// What `serde_json::from_str` makes of a text: the document, or the
/// message of the error.
pub uninterp spec fn parsed_json(text: Seq<char>) -> Result<JsonView, Seq<char>>;

/// What `serde_json::to_string_pretty` makes of a document: the text, or
/// the message of the error.
pub uninterp spec fn rendered_json(doc: JsonView) -> Result<Seq<char>, Seq<char>>;

/// The outcome of parsing as plain values.
pub open spec fn value_result_view(r: Result<serde_json::Value, String>) -> Result<
    JsonView,
    Seq<char>,
> {
    match r {
        Ok(v) => Ok(value_view(v)),
        Err(message) => Err(message@),
    }
}

/// The outcome of parsing as plain values.
pub open spec fn json_result_view(r: Result<Json, String>) -> Result<JsonView, Seq<char>> {
    match r {
        Ok(doc) => Ok(doc@),
        Err(message) => Err(message@),
    }
}

/// The outcome of rendering as plain values.
pub open spec fn text_result_view(r: Result<String, String>) -> Result<Seq<char>, Seq<char>> {
    match r {
        Ok(text) => Ok(text@),
        Err(message) => Err(message@),
    }
}

/// `serde_json::from_str` for a `serde_json::Value`: the document that the
/// text denotes, or the error's message as its `Display` writes it. The
/// outcome depends on the text alone.
#[verifier::external_body]
fn parse_value(text: &str) -> (r: Result<serde_json::Value, String>)
    ensures
        value_result_view(r) == parsed_json(text@),
{
    match serde_json::from_str::<serde_json::Value>(text) {
        Ok(v) => Ok(v),
        Err(e) => Err(e.to_string()),
    }
}

/// Takes a `serde_json::Value` apart, variant by variant: the tree that
/// comes out holds what the value holds. The members of an object come in
/// the order in which its map hands them out.
#[verifier::external_body]
fn json_of_value(v: serde_json::Value) -> (j: Json)
    ensures
        json_view(j) == value_view(v),
{
    match v {
        serde_json::Value::Null => Json::Null,
        serde_json::Value::Bool(b) => Json::Bool(b),
        serde_json::Value::Number(n) => Json::Number(n),
        serde_json::Value::String(s) => Json::Text(s),
        serde_json::Value::Array(items) => Json::Array(
            items.into_iter().map(json_of_value).collect(),
        ),
        serde_json::Value::Object(members) => Json::Object(
            members.into_iter().map(|(name, value)| (name, json_of_value(value))).collect(),
        ),
    }
}

/// Builds the `serde_json::Value` that holds what the tree holds. The
/// members of an object go into its map one by one with
/// `serde_json::Map::insert`, which lets a later value replace an earlier
/// one of the same name.
#[verifier::external_body]
fn value_of_json(j: &Json) -> (v: serde_json::Value)
    ensures
        value_view(v) == json_view(*j),
{
    match j {
        Json::Null => serde_json::Value::Null,
        Json::Bool(b) => serde_json::Value::Bool(*b),
        Json::Number(n) => serde_json::Value::Number(n.clone()),
        Json::Text(s) => serde_json::Value::String(s.clone()),
        Json::Array(items) => serde_json::Value::Array(items.iter().map(value_of_json).collect()),
        Json::Object(members) => {
            let mut map = serde_json::Map::new();
            for (name, value) in members {
                map.insert(name.clone(), value_of_json(value));
            }
            serde_json::Value::Object(map)
        },
    }
}

/// `serde_json::to_string_pretty` for a `serde_json::Value`: the indented
/// text of the document, or the error's message as its `Display` writes it.
/// The outcome depends on what the value holds alone.
#[verifier::external_body]
fn render_value(v: &serde_json::Value) -> (r: Result<String, String>)
    ensures
        text_result_view(r) == rendered_json(value_view(*v)),
{
    match serde_json::to_string_pretty(v) {
        Ok(text) => Ok(text),
        Err(e) => Err(e.to_string()),
    }
}

/// Reads a JSON document from its text.
pub fn parse_json(text: &str) -> (r: Result<Json, String>)
    ensures
        json_result_view(r) == parsed_json(text@),
{
    match parse_value(text) {
        Ok(v) => Ok(json_of_value(v)),
        Err(message) => Err(message),
    }
}

/// Writes a JSON document as indented text.
pub fn render_json(doc: &Json) -> (r: Result<String, String>)
    ensures
        text_result_view(r) == rendered_json(doc@),
{
    let v = value_of_json(doc);
    render_value(&v)
}

} // verus!
