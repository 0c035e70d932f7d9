//! JSON values as the transport holds them.

use serde_json::Value;
use vstd::prelude::*;
use crate::text::{decimal, digit, same_text, single_line};

verus! {

/// The error of a text that is not JSON.
#[verifier::external_type_specification]
#[verifier::external_body]
pub struct ExJsonError(serde_json::Error);

/// A JSON value of `serde_json`, which can nest as deeply as memory allows.
#[verifier::external_type_specification]
#[verifier::external_body]
pub struct ExJsonValue(serde_json::Value);

/// One member of a JSON object: its name, and its value in compact JSON text.
#[derive(Debug)]
pub struct Member {
    pub name: String,
    pub text: String,
}

/// The outermost level of a JSON value. What is nested in it is compact JSON
/// text.
#[derive(Debug)]
pub enum Node {
    Null,
    Bool(bool),
    Number { text: String, integer: Option<i64> },
    Text(String),
    Array(Vec<String>),
    Object(Vec<Member>),
}

/// A JSON value.
#[derive(Debug)]
pub struct Json {
    value: serde_json::Value,
}

/// One member of a JSON object that is to be written.
#[derive(Debug)]
pub struct Entry {
    pub name: String,
    pub value: Json,
}

/// A JSON text that was read: its value and the outermost level of it.
#[derive(Debug)]
pub struct Document {
    pub value: Json,
    pub node: Node,
}

/// A member of an object in contracts.
pub struct MemberView {
    pub name: Seq<char>,
    pub text: Seq<char>,
}

/// The outermost level of a JSON value in contracts.
pub enum NodeView {
    Null,
    Bool(bool),
    Number { text: Seq<char>, integer: Option<i64> },
    Text(Seq<char>),
    Array(Seq<Seq<char>>),
    Object(Seq<MemberView>),
}

/// A JSON text that was read, in contracts.
pub struct DocumentView {
    pub text: Seq<char>,
    pub node: NodeView,
}

impl View for Member {
    type V = MemberView;

    open spec fn view(&self) -> MemberView {
        MemberView { name: self.name@, text: self.text@ }
    }
}

/// The compact JSON text that `serde_json` prints a value as.
pub uninterp spec fn printed(value: serde_json::Value) -> Seq<char>;

impl View for Json {
    type V = Seq<char>;

    /// The compact JSON text of the value.
    closed spec fn view(&self) -> Seq<char> {
        printed(self.value)
    }
}

impl View for Entry {
    type V = MemberView;

    open spec fn view(&self) -> MemberView {
        MemberView { name: self.name@, text: self.value@ }
    }
}

/// What entries are in contracts.
pub open spec fn entry_views(entries: Seq<Entry>) -> Seq<MemberView> {
    entries.map_values(|e: Entry| e@)
}

/// What texts are in contracts.
pub open spec fn text_views(texts: Seq<String>) -> Seq<Seq<char>> {
    texts.map_values(|t: String| t@)
}

/// What members are in contracts.
pub open spec fn member_views(members: Seq<Member>) -> Seq<MemberView> {
    members.map_values(|m: Member| m@)
}

impl View for Node {
    type V = NodeView;

    open spec fn view(&self) -> NodeView {
        match self {
            Node::Null => NodeView::Null,
            Node::Bool(b) => NodeView::Bool(*b),
            Node::Number { text, integer } => NodeView::Number { text: text@, integer: *integer },
            Node::Text(s) => NodeView::Text(s@),
            Node::Array(items) => NodeView::Array(text_views(items@)),
            Node::Object(members) => NodeView::Object(member_views(members@)),
        }
    }
}

impl View for Document {
    type V = DocumentView;

    open spec fn view(&self) -> DocumentView {
        DocumentView { text: self.value@, node: self.node@ }
    }
}

/// What `serde_json` reads a text as; `None` where it is not JSON.
pub uninterp spec fn json_document(text: Seq<char>) -> Option<DocumentView>;

/// The text is JSON, in the compact form in which JSON is printed.
pub open spec fn is_json(text: Seq<char>) -> bool {
    json_document(text) matches Some(d) && d.text == text
}

/// What is nested directly in a JSON value is JSON itself.
pub open spec fn holds_json(node: NodeView) -> bool {
    match node {
        NodeView::Array(items) => forall|i: int|
            0 <= i < items.len() ==> is_json(#[trigger] items[i]),
        NodeView::Object(members) => all_json(members),
        _ => true,
    }
}

/// The value of every member is JSON.
pub open spec fn all_json(members: Seq<MemberView>) -> bool {
    forall|i: int| 0 <= i < members.len() ==> is_json((#[trigger] members[i]).text)
}

/// No two members have the same name.
pub open spec fn names_differ(members: Seq<MemberView>) -> bool {
    forall|i: int, j: int|
        0 <= i < j < members.len() ==> (#[trigger] members[i]).name != (#[trigger] members[j]).name
}

/// The text is JSON with at most that many arrays and objects inside each other.
pub open spec fn nests_at_most(text: Seq<char>, levels: nat) -> bool
    decreases levels,
{
    match json_document(text) {
        None => false,
        Some(d) => match d.node {
            NodeView::Array(items) => levels > 0 && forall|i: int|
                0 <= i < items.len() ==> nests_at_most(#[trigger] items[i], (levels - 1) as nat),
            NodeView::Object(members) => levels > 0 && forall|i: int|
                0 <= i < members.len() ==> nests_at_most(
                    (#[trigger] members[i]).text,
                    (levels - 1) as nat,
                ),
            _ => true,
        },
    }
}

/// The value of every member nests at most that many levels.
pub open spec fn members_nest_at_most(members: Seq<MemberView>, levels: nat) -> bool {
    forall|i: int|
        0 <= i < members.len() ==> nests_at_most((#[trigger] members[i]).text, levels)
}

/// How many levels of arrays and objects inside each other are read.
pub const DEPTH_LIMIT: u8 = 127;

/// The hexadecimal digit of a number below sixteen.
pub open spec fn hex_digit(n: nat) -> char {
    if n < 10 {
        digit(n)
    } else {
        ('a' as int + n - 10) as char
    }
}

/// How a character stands in a JSON string.
pub open spec fn escaped_char(c: char) -> Seq<char> {
    if c == '"' || c == '\\' {
        seq!['\\', c]
    } else if c == '\u{8}' {
        seq!['\\', 'b']
    } else if c == '\t' {
        seq!['\\', 't']
    } else if c == '\n' {
        seq!['\\', 'n']
    } else if c == '\u{c}' {
        seq!['\\', 'f']
    } else if c == '\r' {
        seq!['\\', 'r']
    } else if c <= '\u{1f}' {
        seq!['\\', 'u', '0', '0', hex_digit(c as nat / 16), hex_digit(c as nat % 16)]
    } else {
        seq![c]
    }
}

/// How the characters of a text stand in a JSON string.
pub open spec fn escaped(s: Seq<char>) -> Seq<char>
    decreases s.len(),
{
    if s.len() == 0 {
        Seq::empty()
    } else {
        escaped(s.drop_last()) + escaped_char(s.last())
    }
}

/// The JSON text of a string.
pub open spec fn json_quoted(s: Seq<char>) -> Seq<char> {
    seq!['"'] + escaped(s) + seq!['"']
}

/// The JSON text of members, one after the other.
pub open spec fn members_text(members: Seq<MemberView>) -> Seq<char>
    decreases members.len(),
{
    if members.len() == 0 {
        Seq::empty()
    } else {
        let member = json_quoted(members.last().name) + seq![':'] + members.last().text;
        if members.len() == 1 {
            member
        } else {
            members_text(members.drop_last()) + seq![','] + member
        }
    }
}

/// The JSON text of an object.
pub open spec fn object_text(members: Seq<MemberView>) -> Seq<char> {
    seq!['{'] + members_text(members) + seq!['}']
}

/// Calls `serde_json::from_str` for a `serde_json::Value`, prints what is nested
/// directly in the value with the compact `Display` of `Value`, and takes the
/// number of a numeric value with `Number::to_string` and `Number::as_i64`.
///
/// Claimed: the outcome depends on the text alone. What the value is printed as
/// reads back as the value, and what is nested in it is printed as JSON of its
/// own.
#[verifier::external_body]
pub(crate) fn read_document(text: &str) -> (read: Result<Document, serde_json::Error>)
    ensures
        match read {
            Ok(d) => {
                &&& json_document(text@) == Some(d@)
                &&& json_document(d@.text) == Some(d@)
                &&& holds_json(d@.node)
            },
            Err(_) => json_document(text@) is None,
        },
{
    let value: Value = serde_json::from_str(text)?;
    let node: Node = match &value {
        Value::Null => Node::Null,
        Value::Bool(b) => Node::Bool(*b),
        Value::Number(n) => Node::Number { text: n.to_string(), integer: n.as_i64() },
        Value::String(s) => Node::Text(s.clone()),
        Value::Array(a) => Node::Array(a.iter().map(Value::to_string).collect()),
        Value::Object(o) => Node::Object(
            o.iter().map(|(k, v)| Member { name: k.clone(), text: v.to_string() }).collect(),
        ),
    };
    Ok(Document { value: Json { value }, node })
}

/// Calls the compact `Display` of a `serde_json::Value`, which goes down into the
/// value as deeply as it nests.
///
/// Claimed: the text depends on the value alone. It holds no line break, since
/// control characters are escaped and no white space is added. Where it can be
/// read, what is read is printed as that text again.
#[verifier::external_body]
fn print_value(value: &serde_json::Value) -> (text: String)
    ensures
        text@ == printed(*value),
        single_line(text@),
        json_document(text@) matches Some(d) ==> d.text == text@,
{
    value.to_string()
}

/// Calls `serde_json::Value::from` for a string.
///
/// Claimed: the value is printed as the string between quotation marks with its
/// characters escaped, and that text reads back as the string.
#[verifier::external_body]
fn string_value(s: &str) -> (value: serde_json::Value)
    ensures
        printed(value) == json_quoted(s@),
        json_document(printed(value)) == Some(
            (DocumentView { text: printed(value), node: NodeView::Text(s@) }),
        ),
{
    Value::from(s)
}

/// Calls `serde_json::Value::from` for an integer.
///
/// Claimed: the value is printed in decimal notation, and that text reads back as
/// the integer.
#[verifier::external_body]
fn integer_value(n: i64) -> (value: serde_json::Value)
    ensures
        printed(value) == decimal(n as int),
        json_document(printed(value)) == Some(
            (DocumentView {
                text: printed(value),
                node: NodeView::Number { text: printed(value), integer: Some(n) },
            }),
        ),
{
    Value::from(n)
}

/// Calls `serde_json::Map::insert` for each member, in a map that keeps the order
/// of its entries, and holds the map in a `serde_json::Value`.
///
/// Claimed: the value is printed as the object with its members in order. Where
/// that text can be read, it reads back as just that, and it can be read unless it
/// nests deeper than the reader goes.
#[verifier::external_body]
fn object_value(entries: Vec<Entry>) -> (value: serde_json::Value)
    requires
        names_differ(entry_views(entries@)),
    ensures
        printed(value) == object_text(entry_views(entries@)),
        json_document(printed(value)) matches Some(d) ==> d == (DocumentView {
            text: printed(value),
            node: NodeView::Object(entry_views(entries@)),
        }),
        members_nest_at_most(entry_views(entries@), (DEPTH_LIMIT - 1) as nat) ==> json_document(
            printed(value),
        ) is Some,
{
    let mut object: serde_json::Map<String, Value> = serde_json::Map::new();
    for entry in entries {
        object.insert(entry.name, entry.value.value);
    }
    Value::Object(object)
}

/// What nests few levels nests no more than more levels.
pub proof fn lemma_nests_less(text: Seq<char>, few: nat, more: nat)
    requires
        nests_at_most(text, few),
        few <= more,
    ensures
        nests_at_most(text, more),
    decreases few,
{
    match json_document(text)->0.node {
        NodeView::Array(items) => {
            assert forall|i: int| 0 <= i < items.len() implies nests_at_most(
                #[trigger] items[i],
                (more - 1) as nat,
            ) by {
                lemma_nests_less(items[i], (few - 1) as nat, (more - 1) as nat);
            }
        },
        NodeView::Object(members) => {
            assert forall|i: int| 0 <= i < members.len() implies nests_at_most(
                (#[trigger] members[i]).text,
                (more - 1) as nat,
            ) by {
                lemma_nests_less(members[i].text, (few - 1) as nat, (more - 1) as nat);
            }
        },
        _ => {},
    }
}

impl Json {
    /// A value that a caller supplies, however deeply it nests.
    pub fn from_value(value: serde_json::Value) -> (v: Json)
        ensures
            v@ == printed(value),
    {
        Json { value }
    }

    /// Reads a JSON text.
    pub fn parse(text: &str) -> (read: Result<Json, serde_json::Error>)
        ensures
            match read {
                Ok(v) => {
                    &&& json_document(text@) matches Some(d) && v@ == d.text
                    &&& json_document(v@) == json_document(text@)
                },
                Err(_) => json_document(text@) is None,
            },
    {
        match read_document(text) {
            Ok(d) => Ok(d.value),
            Err(e) => Err(e),
        }
    }

    /// The JSON value that is a string.
    pub fn string(s: &str) -> (v: Json)
        ensures
            v@ == json_quoted(s@),
            json_document(v@) == Some((DocumentView { text: v@, node: NodeView::Text(s@) })),
    {
        Json { value: string_value(s) }
    }

    /// The JSON value that is an integer.
    pub fn integer(n: i64) -> (v: Json)
        ensures
            v@ == decimal(n as int),
            json_document(v@) == Some(
                (DocumentView { text: v@, node: NodeView::Number { text: v@, integer: Some(n) } }),
            ),
    {
        Json { value: integer_value(n) }
    }

    /// The JSON value that is an object with these members.
    pub(crate) fn object(entries: Vec<Entry>) -> (v: Json)
        requires
            names_differ(entry_views(entries@)),
        ensures
            v@ == object_text(entry_views(entries@)),
            json_document(v@) matches Some(d) ==> d == (DocumentView {
                text: v@,
                node: NodeView::Object(entry_views(entries@)),
            }),
            members_nest_at_most(entry_views(entries@), (DEPTH_LIMIT - 1) as nat)
                ==> json_document(v@) is Some,
    {
        Json { value: object_value(entries) }
    }

    /// The compact JSON text of the value, which stands on one line.
    pub fn to_text(&self) -> (text: String)
        ensures
            text@ == self@,
            single_line(text@),
            json_document(text@) matches Some(d) ==> d.text == text@,
    {
        print_value(&self.value)
    }
}

/// The view of what an option holds.
pub open spec fn opt_view<T: View>(o: Option<T>) -> Option<T::V> {
    match o {
        Some(v) => Some(v@),
        None => None,
    }
}

/// The text of the member of that name; `None` where there is none.
pub open spec fn member_text(members: Seq<MemberView>, name: Seq<char>) -> Option<Seq<char>>
    decreases members.len(),
{
    if members.len() == 0 {
        None
    } else if members[0].name == name {
        Some(members[0].text)
    } else {
        member_text(members.drop_first(), name)
    }
}

/// The member of that name of a JSON value; `None` where the value is no object
/// or has no such member.
pub open spec fn field_of(node: NodeView, name: Seq<char>) -> Option<DocumentView> {
    match node {
        NodeView::Object(members) => match member_text(members, name) {
            Some(text) => json_document(text),
            None => None,
        },
        _ => None,
    }
}

/// The text is a JSON object that has a member of that name.
pub open spec fn has_member(text: Seq<char>, name: Seq<char>) -> bool {
    match json_document(text) {
        Some(d) => match d.node {
            NodeView::Object(members) => member_text(members, name) is Some,
            _ => false,
        },
        None => false,
    }
}

/// A member that is there can be read, where the members of the object are JSON.
pub proof fn lemma_member_is_read(members: Seq<MemberView>, name: Seq<char>)
    requires
        all_json(members),
        member_text(members, name) is Some,
    ensures
        field_of(NodeView::Object(members), name) is Some,
    decreases members.len(),
{
    assert(is_json(members[0].text));
    if members[0].name != name {
        assert forall|i: int| 0 <= i < members.drop_first().len() implies is_json(
            (#[trigger] members.drop_first()[i]).text,
        ) by {
            assert(members.drop_first()[i] == members[i + 1]);
        }
        lemma_member_is_read(members.drop_first(), name);
    }
}

/// The member at a place is the one that its name finds, where no member before
/// it has that name.
pub proof fn lemma_member_at(members: Seq<MemberView>, i: int)
    requires
        0 <= i < members.len(),
        forall|j: int| 0 <= j < i ==> (#[trigger] members[j]).name != members[i].name,
    ensures
        member_text(members, members[i].name) == Some(members[i].text),
    decreases i,
{
    if i > 0 {
        assert(members[0].name != members[i].name);
        assert forall|j: int| 0 <= j < i - 1 implies (#[trigger] members.drop_first()[j]).name
            != members[i].name by {
            assert(members.drop_first()[j] == members[j + 1]);
        }
        assert(members.drop_first()[i - 1] == members[i]);
        lemma_member_at(members.drop_first(), i - 1);
    }
}

/// A name that no member has finds nothing.
pub proof fn lemma_no_member(members: Seq<MemberView>, name: Seq<char>)
    requires
        forall|j: int| 0 <= j < members.len() ==> (#[trigger] members[j]).name != name,
    ensures
        member_text(members, name) is None,
    decreases members.len(),
{
    if members.len() > 0 {
        assert(members[0].name != name);
        assert forall|j: int| 0 <= j < members.drop_first().len() implies (
        #[trigger] members.drop_first()[j]).name != name by {
            assert(members.drop_first()[j] == members[j + 1]);
        }
        lemma_no_member(members.drop_first(), name);
    }
}

/// Looks a member up by its name and reads it.
pub fn read_field(node: &Node, name: &str) -> (field: Option<Document>)
    ensures
        opt_view(field) == field_of(node@, name@),
{
    match node {
        Node::Object(members) => {
            let mut i: usize = 0;
            let ghost all = member_views(members@);
            assert(all.skip(0) == all);
            while i < members.len()
                invariant
                    i <= members.len(),
                    all == member_views(members@),
                    node@ == NodeView::Object(all),
                    member_text(all, name@) == member_text(all.skip(i as int), name@),
                decreases members.len() - i,
            {
                assert(all.skip(i as int).drop_first() == all.skip(i + 1));
                assert(all.skip(i as int)[0] == members[i as int]@);
                if same_text(members[i].name.as_str(), name) {
                    return match read_document(members[i].text.as_str()) {
                        Ok(d) => Some(d),
                        Err(_) => None,
                    };
                }
                i += 1;
            }
            None
        },
        _ => None,
    }
}

} // verus!
