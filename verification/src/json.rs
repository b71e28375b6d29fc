//! JSON, as far as the playground speaks it.
//!
//! A JSON object is held as the list of its members, each with its name and
//! its [`Value`]. The records of the library are written to and read from
//! such lists by [`ToJson`] and [`FromJson`], and all their rules are stated
//! over the lists alone.
//!
//! Between a list and its text stands `serde_json`: it reads the grammar and
//! escapes the strings. Each question the library asks of it is one trusted
//! function below. What it answers is stated where a few lines can state it,
//! and has a name that the contracts use where they cannot.

use vstd::prelude::*;
use vstd::string::StringExecFns;
use crate::error::DecodeError;
use crate::text::same_text;

verus! {

/// What `serde_json::from_str::<BTreeMap<String, Box<RawValue>>>` makes of
/// `text`: the members of a JSON object, each as its name and the JSON text
/// of its value, in ascending order of name, a name that stands more than
/// once with its last value; `None` where that call fails.
pub uninterp spec fn json_members(text: Seq<char>) -> Option<Seq<(Seq<char>, Seq<char>)>>;

/// What `serde_json::from_str::<Vec<Box<RawValue>>>` makes of `text`: the
/// JSON text of each element of a JSON array; `None` where that call fails.
pub uninterp spec fn json_elements(text: Seq<char>) -> Option<Seq<Seq<char>>>;

/// What `serde_json::from_str::<String>` makes of `text`: the characters that
/// a JSON string denotes; `None` where that call fails.
pub uninterp spec fn json_string(text: Seq<char>) -> Option<Seq<char>>;

/// Whether a character is white space to JSON: a space, a tab, a line feed or
/// a carriage return.
pub open spec fn json_space(c: char) -> bool {
    c == ' ' || c == '\t' || c == '\n' || c == '\r'
}

/// Whether `text` is `word`, with nothing but JSON white space before and
/// after it.
pub open spec fn spaced(text: Seq<char>, word: Seq<char>) -> bool {
    exists|start: int|
        {
            &&& 0 <= start
            &&& start + word.len() <= text.len()
            &&& #[trigger] text.subrange(start, start + word.len()) == word
            &&& forall|i: int| 0 <= i < start ==> json_space(#[trigger] text[i])
            &&& forall|i: int| start + word.len() <= i < text.len() ==> json_space(#[trigger] text[i])
        }
}

/// The boolean that `text` is as JSON: `true` or `false` between white space;
/// `None` for any other text. It is what `serde_json::from_str::<bool>`
/// accepts.
pub open spec fn json_bool(text: Seq<char>) -> Option<bool> {
    if spaced(text, "true"@) {
        Some(true)
    } else if spaced(text, "false"@) {
        Some(false)
    } else {
        None
    }
}

/// Whether `text` is the JSON value `null`, between white space. It is what
/// `serde_json::from_str::<()>` accepts.
pub open spec fn json_null(text: Seq<char>) -> bool {
    spaced(text, "null"@)
}

/// The JSON text that `serde_json::Value::String` holding `text` is displayed
/// as: `text` as a JSON string literal, in quotes and with what needs it
/// escaped.
pub uninterp spec fn json_quote(text: Seq<char>) -> Seq<char>;

/// Calls `serde_json::from_str` for a map from member names to raw values.
/// Claims only that the outcome is a function of `text`.
#[verifier::external_body]
fn read_members(text: &str) -> (r: Option<Vec<(String, String)>>)
    ensures
        r matches Some(members) ==> json_members(text@) == Some(members.deep_view()),
        r is None ==> json_members(text@) is None,
{
    match serde_json::from_str::<
        std::collections::BTreeMap<String, Box<serde_json::value::RawValue>>,
    >(text) {
        Ok(map) => Some(map.into_iter().map(|(k, v)| (k, String::from(v.get()))).collect()),
        Err(_) => None,
    }
}

/// Calls `serde_json::from_str` for a list of raw values.
/// Claims only that the outcome is a function of `text`.
#[verifier::external_body]
fn read_elements(text: &str) -> (r: Option<Vec<String>>)
    ensures
        r matches Some(elements) ==> json_elements(text@) == Some(elements.deep_view()),
        r is None ==> json_elements(text@) is None,
{
    match serde_json::from_str::<Vec<Box<serde_json::value::RawValue>>>(text) {
        Ok(list) => Some(list.into_iter().map(|v| String::from(v.get())).collect()),
        Err(_) => None,
    }
}

/// Calls `serde_json::from_str` for a `String`.
/// Claims only that the outcome is a function of `text`.
#[verifier::external_body]
fn read_string(text: &str) -> (r: Option<String>)
    ensures
        r matches Some(denoted) ==> json_string(text@) == Some(denoted@),
        r is None ==> json_string(text@) is None,
{
    serde_json::from_str::<String>(text).ok()
}

/// Calls `serde_json::from_str` for a `bool`, which skips white space, reads
/// the word `true` or `false`, and turns down whatever follows but white
/// space. Claims that this is all it accepts.
#[verifier::external_body]
fn read_bool(text: &str) -> (r: Option<bool>)
    ensures
        r == json_bool(text@),
{
    serde_json::from_str::<bool>(text).ok()
}

/// Calls `serde_json::from_str` for `()`, which skips white space, reads the
/// word `null`, and turns down whatever follows but white space. Claims that
/// this is all it accepts.
#[verifier::external_body]
fn read_null(text: &str) -> (r: bool)
    ensures
        r == json_null(text@),
{
    serde_json::from_str::<()>(text).is_ok()
}

/// Displays `serde_json::Value::String` holding `text`, which writes the
/// compact JSON text of the value.
/// Claims only that the outcome is a function of `text`.
#[verifier::external_body]
fn quote(text: &str) -> (r: String)
    ensures
        r@ == json_quote(text@),
{
    serde_json::Value::String(text.to_owned()).to_string()
}

/// The value of one member of a JSON object.
#[derive(Debug, Clone, PartialEq, Eq)]
pub enum Value {
    /// `null`.
    Null,
    /// `true` or `false`.
    Bool(bool),
    /// A string, held as the characters it denotes.
    Text(String),
    /// Anything else, a number, an array or an object, held as its JSON text.
    Other(String),
}

/// A [`Value`] with its strings taken by their characters.
pub enum ValueView {
    Null,
    Bool(bool),
    Text(Seq<char>),
    Other(Seq<char>),
}

impl View for Value {
    type V = ValueView;

    open spec fn view(&self) -> ValueView {
        match self {
            Value::Null => ValueView::Null,
            Value::Bool(b) => ValueView::Bool(*b),
            Value::Text(text) => ValueView::Text(text@),
            Value::Other(text) => ValueView::Other(text@),
        }
    }
}

impl DeepView for Value {
    type V = ValueView;

    open spec fn deep_view(&self) -> ValueView {
        self@
    }
}

/// The members of a JSON object, in order, each with its name and value.
pub type Fields = Vec<(String, Value)>;

/// The members of a JSON object as contracts speak of them: what the deep
/// view of [`Fields`] is.
pub type Object = Seq<(Seq<char>, ValueView)>;

/// The value of the first member called `name`, if there is one.
pub open spec fn member(object: Object, name: Seq<char>) -> Option<ValueView>
    decreases object.len(),
{
    if object.len() == 0 {
        None
    } else if object[0].0 == name {
        Some(object[0].1)
    } else {
        member(object.drop_first(), name)
    }
}

/// A member that no earlier member shares its name with is the one found under
/// that name.
pub proof fn member_found(object: Object, i: int)
    requires
        0 <= i < object.len(),
        forall|j: int| 0 <= j < i ==> (#[trigger] object[j]).0 != object[i].0,
    ensures
        member(object, object[i].0) == Some(object[i].1),
    decreases i,
{
    if i > 0 {
        let rest = object.drop_first();
        assert(rest[i - 1] == object[i]);
        assert forall|j: int| 0 <= j < i - 1 implies (#[trigger] rest[j]).0 != rest[i - 1].0 by {
            assert(rest[j] == object[j + 1]);
        }
        member_found(rest, i - 1);
        assert(object[0].0 != object[i].0);
    }
}

/// Under a name that no member has, nothing is found.
pub proof fn member_missing(object: Object, name: Seq<char>)
    requires
        forall|j: int| 0 <= j < object.len() ==> (#[trigger] object[j]).0 != name,
    ensures
        member(object, name) is None,
    decreases object.len(),
{
    if object.len() > 0 {
        let rest = object.drop_first();
        assert forall|j: int| 0 <= j < rest.len() implies (#[trigger] rest[j]).0 != name by {
            assert(rest[j] == object[j + 1]);
        }
        member_missing(rest, name);
        assert(object[0].0 != name);
    }
}

/// The string held by the member called `name`; `None` where there is no
/// such member or it holds no string.
pub open spec fn string_member(object: Object, name: Seq<char>) -> Option<Seq<char>> {
    match member(object, name) {
        Some(ValueView::Text(text)) => Some(text),
        _ => None,
    }
}

/// The boolean held by the member called `name`; `None` where there is no
/// such member or it holds no boolean.
pub open spec fn bool_member(object: Object, name: Seq<char>) -> Option<bool> {
    match member(object, name) {
        Some(ValueView::Bool(b)) => Some(b),
        _ => None,
    }
}

/// The JSON text held by the member called `name`; `None` where there is no
/// such member or it holds `null`, a boolean or a string.
pub open spec fn other_member(object: Object, name: Seq<char>) -> Option<Seq<char>> {
    match member(object, name) {
        Some(ValueView::Other(text)) => Some(text),
        _ => None,
    }
}

/// Whether the member called `name` is missing or holds `null`.
pub open spec fn absent_member(object: Object, name: Seq<char>) -> bool {
    match member(object, name) {
        Some(ValueView::Null) => true,
        Some(_) => false,
        None => true,
    }
}

/// What stands under `setting` on the wire: its string, or `null` where it
/// is left open.
pub open spec fn optional_value(setting: Option<Seq<char>>) -> ValueView {
    match setting {
        Some(text) => ValueView::Text(text),
        None => ValueView::Null,
    }
}

/// No members, to add to.
pub fn no_fields() -> (r: Fields)
    ensures
        r.deep_view() == Seq::<(Seq<char>, ValueView)>::empty(),
{
    let fields: Fields = Vec::new();
    proof {
        assert(fields.deep_view() =~= Seq::empty());
    }
    fields
}

/// Adds a member after those already there.
pub fn push_field(fields: &mut Fields, name: &str, value: Value)
    ensures
        final(fields).deep_view() == old(fields).deep_view().push((name@, value@)),
{
    fields.push((name.to_owned(), value));
    proof {
        assert(fields.deep_view() =~= old(fields).deep_view().push((name@, value@)));
    }
}

/// A string as a value.
pub fn text_value(text: &str) -> (r: Value)
    ensures
        r@ == ValueView::Text(text@),
{
    Value::Text(text.to_owned())
}

/// A string that may be left open as a value: `null` stands for none.
pub fn optional_text_value(text: Option<&str>) -> (r: Value)
    ensures
        r@ == optional_value(
            match text {
                Some(t) => Some(t@),
                None => None,
            },
        ),
{
    match text {
        Some(t) => Value::Text(t.to_owned()),
        None => Value::Null,
    }
}

/// Finds the value of the first member called `name`.
pub fn find_member<'a>(fields: &'a Fields, name: &str) -> (r: Option<&'a Value>)
    ensures
        match member(fields.deep_view(), name@) {
            Some(value) => r matches Some(found) && found@ == value,
            None => r is None,
        },
{
    let ghost all = fields.deep_view();
    let mut i: usize = 0;
    proof {
        assert(all.skip(0) =~= all);
    }
    while i < fields.len()
        invariant
            i <= fields.len(),
            all == fields.deep_view(),
            all.len() == fields.len(),
            member(all, name@) == member(all.skip(i as int), name@),
        decreases fields.len() - i,
    {
        proof {
            let rest = all.skip(i as int);
            assert(rest[0] == all[i as int]);
            assert(all[i as int] == fields@[i as int].deep_view());
            assert(rest.drop_first() =~= all.skip(i as int + 1));
        }
        if same_text(fields[i].0.as_str(), name) {
            return Some(&fields[i].1);
        }
        i = i + 1;
    }
    None
}

/// The string held by the member called `name`.
pub fn string_field(fields: &Fields, name: &str) -> (r: Option<String>)
    ensures
        match string_member(fields.deep_view(), name@) {
            Some(text) => r matches Some(found) && found@ == text,
            None => r is None,
        },
{
    match find_member(fields, name) {
        Some(Value::Text(text)) => Some(text.clone()),
        _ => None,
    }
}

/// The boolean held by the member called `name`.
pub fn bool_field(fields: &Fields, name: &str) -> (r: Option<bool>)
    ensures
        r == bool_member(fields.deep_view(), name@),
{
    match find_member(fields, name) {
        Some(Value::Bool(b)) => Some(*b),
        _ => None,
    }
}

/// The JSON text held by the member called `name`.
pub fn other_field<'a>(fields: &'a Fields, name: &str) -> (r: Option<&'a str>)
    ensures
        match other_member(fields.deep_view(), name@) {
            Some(text) => r matches Some(found) && found@ == text,
            None => r is None,
        },
{
    match find_member(fields, name) {
        Some(Value::Other(text)) => Some(text.as_str()),
        _ => None,
    }
}

/// Whether the member called `name` is missing or holds `null`.
pub fn is_absent(fields: &Fields, name: &str) -> (r: bool)
    ensures
        r == absent_member(fields.deep_view(), name@),
{
    match find_member(fields, name) {
        Some(Value::Null) => true,
        Some(_) => false,
        None => true,
    }
}

/// The JSON text of a boolean.
pub open spec fn bool_text(b: bool) -> Seq<char> {
    if b {
        "true"@
    } else {
        "false"@
    }
}

/// The JSON text of a value: strings are quoted, and what is held as text
/// stands as it is.
pub open spec fn value_text(value: ValueView) -> Seq<char> {
    match value {
        ValueView::Null => "null"@,
        ValueView::Bool(b) => bool_text(b),
        ValueView::Text(text) => json_quote(text),
        ValueView::Other(text) => text,
    }
}

/// One member as it stands in an object: the quoted name, a colon, the value.
pub open spec fn member_text(name: Seq<char>, value: ValueView) -> Seq<char> {
    json_quote(name) + seq![':'] + value_text(value)
}

/// The members as they stand between an object's braces: one after the other,
/// with a comma between each two.
pub open spec fn members_text(object: Object) -> Seq<char>
    decreases object.len(),
{
    if object.len() == 0 {
        Seq::empty()
    } else if object.len() == 1 {
        member_text(object[0].0, object[0].1)
    } else {
        members_text(object.drop_last()) + seq![','] + member_text(
            object.last().0,
            object.last().1,
        )
    }
}

/// The text of the JSON object with the given members, in the given order and
/// without white space.
pub open spec fn object_text(object: Object) -> Seq<char> {
    seq!['{'] + members_text(object) + seq!['}']
}

/// The elements as they stand between an array's brackets: one after the
/// other, with a comma between each two.
pub open spec fn elements_text(elements: Seq<Seq<char>>) -> Seq<char>
    decreases elements.len(),
{
    if elements.len() == 0 {
        Seq::empty()
    } else if elements.len() == 1 {
        elements[0]
    } else {
        elements_text(elements.drop_last()) + seq![','] + elements.last()
    }
}

/// The text of the JSON array with the given elements, in the given order and
/// without white space.
pub open spec fn array_text(elements: Seq<Seq<char>>) -> Seq<char> {
    seq!['['] + elements_text(elements) + seq![']']
}

/// Writes a value as JSON.
pub fn write_value(value: &Value) -> (r: String)
    ensures
        r@ == value_text(value@),
{
    match value {
        Value::Null => "null".to_owned(),
        Value::Bool(b) => if *b {
            "true".to_owned()
        } else {
            "false".to_owned()
        },
        Value::Text(text) => quote(text.as_str()),
        Value::Other(text) => text.clone(),
    }
}

/// Writes the members as one JSON object.
pub fn write_object(fields: &Fields) -> (r: String)
    ensures
        r@ == object_text(fields.deep_view()),
{
    let ghost all = fields.deep_view();
    let mut out = "{".to_owned();
    proof {
        reveal_strlit("{");
        assert(out@ =~= seq!['{'] + members_text(all.take(0)));
    }
    let mut i: usize = 0;
    while i < fields.len()
        invariant
            i <= fields.len(),
            all == fields.deep_view(),
            all.len() == fields.len(),
            out@ == seq!['{'] + members_text(all.take(i as int)),
        decreases fields.len() - i,
    {
        if i > 0 {
            out.append(",");
        }
        let name = quote(fields[i].0.as_str());
        let value = write_value(&fields[i].1);
        out.append(name.as_str());
        out.append(":");
        out.append(value.as_str());
        proof {
            reveal_strlit(",");
            reveal_strlit(":");
            let done = all.take(i as int + 1);
            assert(done.drop_last() =~= all.take(i as int));
            assert(done.last() == all[i as int]);
            assert(all[i as int] == fields@[i as int].deep_view());
            assert(out@ =~= seq!['{'] + members_text(done));
        }
        i = i + 1;
    }
    out.append("}");
    proof {
        reveal_strlit("}");
        assert(all.take(i as int) =~= all);
        assert(out@ =~= object_text(all));
    }
    out
}

/// Writes the elements, each already JSON text, as one JSON array.
pub fn write_array(elements: &Vec<String>) -> (r: String)
    ensures
        r@ == array_text(elements.deep_view()),
{
    let ghost all = elements.deep_view();
    let mut out = "[".to_owned();
    proof {
        reveal_strlit("[");
        assert(out@ =~= seq!['['] + elements_text(all.take(0)));
    }
    let mut i: usize = 0;
    while i < elements.len()
        invariant
            i <= elements.len(),
            all == elements.deep_view(),
            all.len() == elements.len(),
            out@ == seq!['['] + elements_text(all.take(i as int)),
        decreases elements.len() - i,
    {
        if i > 0 {
            out.append(",");
        }
        out.append(elements[i].as_str());
        proof {
            reveal_strlit(",");
            let done = all.take(i as int + 1);
            assert(done.drop_last() =~= all.take(i as int));
            assert(done.last() == all[i as int]);
            assert(all[i as int] == elements@[i as int]@);
            assert(out@ =~= seq!['['] + elements_text(done));
        }
        i = i + 1;
    }
    out.append("]");
    proof {
        reveal_strlit("]");
        assert(all.take(i as int) =~= all);
        assert(out@ =~= array_text(all));
    }
    out
}

/// The value that a JSON text is held as: `null`, a boolean or a string where
/// it reads as one, and else the text itself.
pub open spec fn value_of(text: Seq<char>) -> ValueView {
    if json_null(text) {
        ValueView::Null
    } else {
        match (json_bool(text), json_string(text)) {
            (Some(b), _) => ValueView::Bool(b),
            (None, Some(denoted)) => ValueView::Text(denoted),
            (None, None) => ValueView::Other(text),
        }
    }
}

/// The members of the JSON object `text`, each with its value; `None` where
/// `text` is no JSON object.
pub open spec fn object_of(text: Seq<char>) -> Option<Object> {
    match json_members(text) {
        Some(members) => Some(
            Seq::new(members.len(), |i: int| (members[i].0, value_of(members[i].1))),
        ),
        None => None,
    }
}

/// Reads a JSON text as a value.
pub fn read_value(text: &str) -> (r: Value)
    ensures
        r@ == value_of(text@),
{
    if read_null(text) {
        return Value::Null;
    }
    match read_bool(text) {
        Some(b) => Value::Bool(b),
        None => match read_string(text) {
            Some(denoted) => Value::Text(denoted),
            None => Value::Other(text.to_owned()),
        },
    }
}

/// Reads `text` as a JSON object.
pub fn read_object(text: &str) -> (r: Option<Fields>)
    ensures
        match object_of(text@) {
            Some(object) => r matches Some(fields) && fields.deep_view() == object,
            None => r is None,
        },
{
    let members = match read_members(text) {
        Some(members) => members,
        None => {
            return None;
        },
    };
    let ghost raw = members.deep_view();
    let mut fields: Fields = Vec::new();
    let mut i: usize = 0;
    while i < members.len()
        invariant
            i <= members.len(),
            raw == members.deep_view(),
            raw.len() == members.len(),
            fields@.len() == i,
            forall|k: int|
                0 <= k < i ==> (#[trigger] fields@[k]).deep_view() == (raw[k].0, value_of(raw[k].1)),
        decreases members.len() - i,
    {
        assert(raw[i as int] == members@[i as int].deep_view());
        let value = read_value(members[i].1.as_str());
        fields.push((members[i].0.clone(), value));
        i = i + 1;
    }
    proof {
        assert(fields.deep_view() =~= object_of(text@)->0);
    }
    Some(fields)
}

/// A record that goes out as a JSON object.
pub trait ToJson {
    /// The members of the record's JSON object, in the order in which they
    /// are written.
    spec fn fields(&self) -> Object;

    /// The members of the record's JSON object.
    fn to_fields(&self) -> (r: Fields)
        ensures
            r.deep_view() == self.fields(),
    ;

    /// The JSON text of the record.
    fn to_json(&self) -> (r: String)
        ensures
            r@ == object_text(self.fields()),
    {
        write_object(&self.to_fields())
    }
}

/// A record that comes in as a JSON object.
pub trait FromJson: Sized {
    /// The name of the first field of the record that `object` fails to
    /// supply; `None` where it supplies them all.
    spec fn fault(object: Object) -> Option<Seq<char>>;

    /// Whether the record holds, field by field, what `object` says.
    spec fn reads(&self, object: Object) -> bool;

    /// Reads the record from the members of its JSON object. Members that the
    /// record does not know are passed over; the first field that is missing
    /// or holds a value of the wrong kind is handed back by its name.
    fn from_fields(fields: &Fields) -> (r: Result<Self, String>)
        ensures
            match Self::fault(fields.deep_view()) {
                Some(field) => r matches Err(named) && named@ == field,
                None => r matches Ok(record) && record.reads(fields.deep_view()),
            },
    ;

    /// Reads the record from the text of its JSON object. An error names the
    /// field at fault, or no field where `text` is no JSON object, and
    /// carries `text`.
    fn from_json(text: &str) -> (r: Result<Self, DecodeError>)
        ensures
            match object_of(text@) {
                None => r matches Err(e) && e.tells(""@, text@),
                Some(object) => match Self::fault(object) {
                    Some(field) => r matches Err(e) && e.tells(field, text@),
                    None => r matches Ok(record) && record.reads(object),
                },
            },
    {
        let fields = match read_object(text) {
            Some(fields) => fields,
            None => {
                return Err(DecodeError::new("", text));
            },
        };
        match Self::from_fields(&fields) {
            Ok(record) => Ok(record),
            Err(field) => Err(DecodeError::new(field.as_str(), text)),
        }
    }
}

/// What is at fault in `text` for a `T`: the empty name where `text` is no
/// JSON object, else the first field that the object fails to supply.
pub open spec fn text_fault<T: FromJson>(text: Seq<char>) -> Option<Seq<char>> {
    match object_of(text) {
        Some(object) => T::fault(object),
        None => Some(""@),
    }
}

/// Whether `record` holds what the JSON object `text` says.
pub open spec fn text_reads<T: FromJson>(record: T, text: Seq<char>) -> bool {
    object_of(text) matches Some(object) && record.reads(object)
}

/// Whether the member called `name` is missing or holds no `T`.
pub open spec fn record_fault<T: FromJson>(object: Object, name: Seq<char>) -> bool {
    match other_member(object, name) {
        Some(text) => text_fault::<T>(text) is Some,
        None => true,
    }
}

/// Whether `record` holds what the member called `name` says.
pub open spec fn record_reads<T: FromJson>(record: T, object: Object, name: Seq<char>) -> bool {
    other_member(object, name) matches Some(text) && text_reads(record, text)
}

/// Whether the member called `name` is there, is not `null`, and holds no
/// `T`.
pub open spec fn optional_fault<T: FromJson>(object: Object, name: Seq<char>) -> bool {
    !absent_member(object, name) && record_fault::<T>(object, name)
}

/// Whether `record` holds what the member called `name` says, where a
/// missing member and `null` both say that there is none.
pub open spec fn optional_reads<T: FromJson>(
    record: Option<T>,
    object: Object,
    name: Seq<char>,
) -> bool {
    if absent_member(object, name) {
        record is None
    } else {
        record matches Some(r) && record_reads(r, object, name)
    }
}

/// Whether `text` is no JSON array, or has an element that is no `T`.
pub open spec fn list_fault<T: FromJson>(text: Seq<char>) -> bool {
    match json_elements(text) {
        Some(elements) => exists|i: int|
            0 <= i < elements.len() && (#[trigger] text_fault::<T>(elements[i])) is Some,
        None => true,
    }
}

/// Whether `records` hold, one by one and in order, what the elements of the
/// JSON array `text` say.
pub open spec fn list_reads<T: FromJson>(records: Seq<T>, text: Seq<char>) -> bool {
    json_elements(text) matches Some(elements) && elements.len() == records.len() && forall|
        i: int,
    |
        0 <= i < records.len() ==> text_reads(#[trigger] records[i], elements[i])
}

/// Whether the member called `name` is missing or holds no array of `T`s.
pub open spec fn list_member_fault<T: FromJson>(object: Object, name: Seq<char>) -> bool {
    match other_member(object, name) {
        Some(text) => list_fault::<T>(text),
        None => true,
    }
}

/// Whether `records` hold what the member called `name` lists.
pub open spec fn list_member_reads<T: FromJson>(
    records: Seq<T>,
    object: Object,
    name: Seq<char>,
) -> bool {
    other_member(object, name) matches Some(text) && list_reads(records, text)
}

/// Reads the member called `name` as a `T`.
pub fn record_field<T: FromJson>(fields: &Fields, name: &str) -> (r: Option<T>)
    ensures
        r is None <==> record_fault::<T>(fields.deep_view(), name@),
        r matches Some(record) ==> record_reads(record, fields.deep_view(), name@),
{
    match other_field(fields, name) {
        Some(text) => match T::from_json(text) {
            Ok(record) => Some(record),
            Err(_) => None,
        },
        None => None,
    }
}

/// Reads the member called `name` as a `T` that may be absent. The outer
/// `None` says that the member is there and holds no `T`.
pub fn optional_field<T: FromJson>(fields: &Fields, name: &str) -> (r: Option<Option<T>>)
    ensures
        r is None <==> optional_fault::<T>(fields.deep_view(), name@),
        r matches Some(record) ==> optional_reads(record, fields.deep_view(), name@),
{
    if is_absent(fields, name) {
        Some(None)
    } else {
        match record_field::<T>(fields, name) {
            Some(record) => Some(Some(record)),
            None => None,
        }
    }
}

/// Reads `text` as a JSON array of `T`s.
pub fn record_list<T: FromJson>(text: &str) -> (r: Option<Vec<T>>)
    ensures
        r is None <==> list_fault::<T>(text@),
        r matches Some(records) ==> list_reads(records@, text@),
{
    let elements = match read_elements(text) {
        Some(elements) => elements,
        None => {
            return None;
        },
    };
    let ghost texts = elements.deep_view();
    let mut records: Vec<T> = Vec::new();
    let mut i: usize = 0;
    while i < elements.len()
        invariant
            i <= elements.len(),
            texts == elements.deep_view(),
            texts.len() == elements.len(),
            json_elements(text@) == Some(texts),
            records@.len() == i,
            forall|k: int| 0 <= k < i ==> (#[trigger] text_fault::<T>(texts[k])) is None,
            forall|k: int| 0 <= k < i ==> text_reads(#[trigger] records@[k], texts[k]),
        decreases elements.len() - i,
    {
        assert(texts[i as int] == elements@[i as int]@);
        match T::from_json(elements[i].as_str()) {
            Ok(record) => {
                records.push(record);
            },
            Err(_) => {
                assert(text_fault::<T>(texts[i as int]) is Some);
                return None;
            },
        }
        i = i + 1;
    }
    Some(records)
}

/// Reads the member called `name` as a JSON array of `T`s.
pub fn list_field<T: FromJson>(fields: &Fields, name: &str) -> (r: Option<Vec<T>>)
    ensures
        r is None <==> list_member_fault::<T>(fields.deep_view(), name@),
        r matches Some(records) ==> list_member_reads(records@, fields.deep_view(), name@),
{
    match other_field(fields, name) {
        Some(text) => record_list::<T>(text),
        None => None,
    }
}

/// The JSON text of each of the records, in order.
pub open spec fn list_json<T: ToJson>(records: Seq<T>) -> Seq<Seq<char>> {
    Seq::new(records.len(), |i: int| object_text(records[i].fields()))
}

/// A record as the value of a member: its JSON text.
pub fn record_value<T: ToJson>(record: &T) -> (r: Value)
    ensures
        r@ == ValueView::Other(object_text(record.fields())),
{
    Value::Other(record.to_json())
}

/// A list of records as the value of a member: the text of their JSON array.
pub fn list_value<T: ToJson>(records: &Vec<T>) -> (r: Value)
    ensures
        r@ == ValueView::Other(array_text(list_json(records@))),
{
    let mut elements: Vec<String> = Vec::new();
    let mut i: usize = 0;
    while i < records.len()
        invariant
            i <= records.len(),
            elements@.len() == i,
            forall|k: int|
                0 <= k < i ==> (#[trigger] elements@[k])@ == object_text(records@[k].fields()),
        decreases records.len() - i,
    {
        elements.push(records[i].to_json());
        i = i + 1;
    }
    proof {
        assert(elements.deep_view() =~= list_json(records@));
    }
    Value::Other(write_array(&elements))
}

} // verus!
