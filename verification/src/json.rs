//! JSON as this crate needs it: string literals, and documents read one
//! level deep.

use crate::text::{decimal, decimal_string, same_text};
use vstd::prelude::*;

verus! {

/// The lower-case hexadecimal digit for `d`, for `d` below sixteen.
pub open spec fn hex_digit_char(d: nat) -> char {
    if d == 0 {
        '0'
    } else if d == 1 {
        '1'
    } else if d == 2 {
        '2'
    } else if d == 3 {
        '3'
    } else if d == 4 {
        '4'
    } else if d == 5 {
        '5'
    } else if d == 6 {
        '6'
    } else if d == 7 {
        '7'
    } else if d == 8 {
        '8'
    } else if d == 9 {
        '9'
    } else if d == 10 {
        'a'
    } else if d == 11 {
        'b'
    } else if d == 12 {
        'c'
    } else if d == 13 {
        'd'
    } else if d == 14 {
        'e'
    } else {
        'f'
    }
}

/// How one character stands inside a JSON string literal: the quote, the
/// backslash and the control characters below U+0020 are escaped, every
/// other character stands for itself.
pub open spec fn escaped_char(c: char) -> Seq<char> {
    if c == '"' {
        seq!['\\', '"']
    } else if c == '\\' {
        seq!['\\', '\\']
    } else if c == '\u{8}' {
        seq!['\\', 'b']
    } else if c == '\t' {
        seq!['\\', 't']
    } else if c == '\n' {
        seq!['\\', 'n']
    } else if c == '\u{c}' {
        seq!['\\', 'f']
    } else if c == '\r' {
        seq!['\\', 'r']
    } else if (c as u32) < 0x20 {
        seq!['\\', 'u', '0', '0', hex_digit_char((c as u32 / 16) as nat), hex_digit_char((c as u32 % 16) as nat)]
    } else {
        seq![c]
    }
}

/// The characters of `s`, each as it stands inside a JSON string literal.
pub open spec fn escaped(s: Seq<char>) -> Seq<char>
    decreases s.len(),
{
    if s.len() == 0 {
        Seq::empty()
    } else {
        escaped_char(s[0]) + escaped(s.drop_first())
    }
}

/// The JSON string literal that denotes `s`: the escaped characters
/// between two double quotes.
pub open spec fn string_literal(s: Seq<char>) -> Seq<char> {
    seq!['"'] + escaped(s) + seq!['"']
}

/// The value of the hexadecimal digit `c`, if it is one.
pub open spec fn hex_value(c: char) -> Option<int> {
    if '0' <= c <= '9' {
        Some(c as u32 - '0' as u32)
    } else if 'a' <= c <= 'f' {
        Some(c as u32 - 'a' as u32 + 10)
    } else if 'A' <= c <= 'F' {
        Some(c as u32 - 'A' as u32 + 10)
    } else {
        None
    }
}

/// The character that a backslash and `c` denote in a string literal,
/// for the escapes of two characters.
pub open spec fn short_escape(c: char) -> Option<char> {
    if c == '"' {
        Some('"')
    } else if c == '\\' {
        Some('\\')
    } else if c == '/' {
        Some('/')
    } else if c == 'b' {
        Some('\u{8}')
    } else if c == 't' {
        Some('\t')
    } else if c == 'n' {
        Some('\n')
    } else if c == 'f' {
        Some('\u{c}')
    } else if c == 'r' {
        Some('\r')
    } else {
        None
    }
}

/// The character that the four hexadecimal digits at `pos` denote, where
/// they are digits and their value lies below the surrogates.
pub open spec fn long_escape(text: Seq<char>, pos: int) -> Option<char> {
    if 0 <= pos && pos + 3 < text.len() {
        match (
            hex_value(text[pos]),
            hex_value(text[pos + 1]),
            hex_value(text[pos + 2]),
            hex_value(text[pos + 3]),
        ) {
            (Some(a), Some(b), Some(c), Some(d)) => {
                let code = ((a * 16 + b) * 16 + c) * 16 + d;
                if code < 0xD800 {
                    Some(code as char)
                } else {
                    None
                }
            },
            _ => None,
        }
    } else {
        None
    }
}

/// `c` in front of what was read, where something was read.
pub open spec fn read_after(c: char, rest: Option<(Seq<char>, int)>) -> Option<(Seq<char>, int)> {
    match rest {
        Some(read) => Some((seq![c] + read.0, read.1)),
        None => None,
    }
}

/// Reads the inside of a string literal as a script or JSON reader does,
/// from `pos` up to the first quote that no backslash escapes: the text
/// that the characters denote, and the position behind that quote.
/// Nothing is read where the literal does not end, holds a raw control
/// character, or holds an escape that is none.
pub open spec fn read_literal_body(text: Seq<char>, pos: int) -> Option<(Seq<char>, int)>
    decreases text.len() - pos,
{
    if pos < 0 || pos >= text.len() {
        None
    } else if text[pos] == '"' {
        Some((Seq::empty(), pos + 1))
    } else if text[pos] == '\\' {
        if pos + 1 >= text.len() {
            None
        } else if text[pos + 1] == 'u' {
            match long_escape(text, pos + 2) {
                Some(c) => read_after(c, read_literal_body(text, pos + 6)),
                None => None,
            }
        } else {
            match short_escape(text[pos + 1]) {
                Some(c) => read_after(c, read_literal_body(text, pos + 2)),
                None => None,
            }
        }
    } else if (text[pos] as u32) < 0x20 {
        None
    } else {
        read_after(text[pos], read_literal_body(text, pos + 1))
    }
}

/// Reads the string literal that `text` begins with: the text that it
/// denotes, and the position behind its closing quote.
pub open spec fn read_string_literal(text: Seq<char>) -> Option<(Seq<char>, int)> {
    if text.len() > 0 && text[0] == '"' {
        read_literal_body(text, 1)
    } else {
        None
    }
}

/// One escaped character is read back as that character.
proof fn lemma_escaped_char_reads_back(text: Seq<char>, pos: int, c: char)
    requires
        0 <= pos,
        pos + escaped_char(c).len() <= text.len(),
        text.subrange(pos, pos + escaped_char(c).len()) == escaped_char(c),
    ensures
        read_literal_body(text, pos) == read_after(
            c,
            read_literal_body(text, pos + escaped_char(c).len()),
        ),
{
    let e = escaped_char(c);
    assert forall|k: int| 0 <= k < e.len() implies text[pos + k] == e[k] by {
        assert(text.subrange(pos, pos + e.len())[k] == text[pos + k]);
    }
    if c == '"' || c == '\\' || c == '\u{8}' || c == '\t' || c == '\n' || c == '\u{c}' || c
        == '\r' {
        assert(text[pos] == e[0]);
        assert(text[pos + 1] == e[1]);
    } else if (c as u32) < 0x20 {
        assert(text[pos] == e[0]);
        assert(text[pos + 1] == e[1]);
        assert(text[pos + 2] == e[2]);
        assert(text[pos + 3] == e[3]);
        assert(text[pos + 4] == e[4]);
        assert(text[pos + 5] == e[5]);
        let high = (c as u32 / 16) as nat;
        let low = (c as u32 % 16) as nat;
        assert(hex_value(hex_digit_char(high)) == Some(high as int));
        assert(hex_value(hex_digit_char(low)) == Some(low as int));
        assert(hex_value('0') == Some(0int));
        assert(((0 * 16 + 0) * 16 + high) * 16 + low == c as u32);
        assert(long_escape(text, pos + 2) == Some(c));
    } else {
        assert(text[pos] == e[0]);
    }
}

/// The escaped characters of `s`, followed by a quote, are read back as `s`.
proof fn lemma_escaped_reads_back(text: Seq<char>, pos: int, s: Seq<char>)
    requires
        0 <= pos,
        pos + escaped(s).len() < text.len(),
        text.subrange(pos, pos + escaped(s).len()) == escaped(s),
        text[pos + escaped(s).len()] == '"',
    ensures
        read_literal_body(text, pos) == Some((s, pos + escaped(s).len() + 1)),
    decreases s.len(),
{
    if s.len() == 0 {
        assert(s =~= Seq::empty());
    } else {
        let head = escaped_char(s[0]);
        let rest = s.drop_first();
        let all = escaped(s);
        assert(all == head + escaped(rest));
        assert(text.subrange(pos, pos + head.len()) =~= head) by {
            assert forall|k: int| 0 <= k < head.len() implies text.subrange(
                pos,
                pos + head.len(),
            )[k] == head[k] by {
                assert(text.subrange(pos, pos + all.len())[k] == all[k]);
            }
        }
        assert(text.subrange(pos + head.len(), pos + head.len() + escaped(rest).len())
            =~= escaped(rest)) by {
            assert forall|k: int| 0 <= k < escaped(rest).len() implies text.subrange(
                pos + head.len(),
                pos + head.len() + escaped(rest).len(),
            )[k] == escaped(rest)[k] by {
                assert(text.subrange(pos, pos + all.len())[head.len() + k] == all[head.len()
                    + k]);
            }
        }
        lemma_escaped_char_reads_back(text, pos, s[0]);
        lemma_escaped_reads_back(text, pos + head.len(), rest);
        assert(seq![s[0]] + rest =~= s);
    }
}

/// A string literal made by `string_literal` is read back as the text it
/// was made from, and the reader stops at its closing quote whatever
/// follows: no character of the text can end the literal early or reach
/// the script around it.
pub proof fn law_literal_reads_back(s: Seq<char>, after: Seq<char>)
    ensures
        read_string_literal(string_literal(s) + after) == Some((s, string_literal(s).len() as int)),
{
    let text = string_literal(s) + after;
    let inner = escaped(s);
    assert(string_literal(s).len() == inner.len() + 2);
    assert(text[0] == '"');
    assert(text.subrange(1, 1 + inner.len() as int) =~= inner);
    assert(text[1 + inner.len() as int] == '"');
    lemma_escaped_reads_back(text, 1, s);
}

/// `serde_json::to_string` on a string slice. It cannot fail there: the
/// serializer writes into a `Vec<u8>`. The output is the compact JSON
/// string literal: an opening quote, each character as `escaped_char` says
/// (two-character escapes for `"`, `\`, backspace, tab, line feed, form feed
/// and carriage return, `\u00xx` in lower-case hex for the other characters
/// below U+0020, all else unchanged), and a closing quote.
#[verifier::external_body]
fn to_json_string(s: &str) -> (literal: String)
    ensures
        literal@ == string_literal(s@),
{
    match serde_json::to_string(s) {
        Ok(literal) => literal,
        Err(_) => String::new(),
    }
}

/// Encodes `s` as a JSON string literal, safe to splice into script or
/// JSON text.
pub fn quote(s: &str) -> (literal: String)
    ensures
        literal@ == string_literal(s@),
{
    to_json_string(s)
}

/// A JSON document as parsed by an outside parser; opaque here.
#[verifier::external_type_specification]
#[verifier::external_body]
pub struct ExValue(serde_json::Value);

/// What kind of JSON value stands somewhere, with its payload where that
/// is a truth value or a text.
pub enum JsonKind {
    Null,
    Bool(bool),
    Number,
    Text(String),
    Array,
    Object,
}

/// A `JsonKind` as a mathematical value.
pub enum JsonKindView {
    Null,
    Bool(bool),
    Number,
    Text(Seq<char>),
    Array,
    Object,
}

impl View for JsonKind {
    type V = JsonKindView;

    open spec fn view(&self) -> JsonKindView {
        match self {
            JsonKind::Null => JsonKindView::Null,
            JsonKind::Bool(b) => JsonKindView::Bool(*b),
            JsonKind::Number => JsonKindView::Number,
            JsonKind::Text(s) => JsonKindView::Text(s@),
            JsonKind::Array => JsonKindView::Array,
            JsonKind::Object => JsonKindView::Object,
        }
    }
}

/// One member of a JSON object: its name, the kind of its value, and the
/// value's compact JSON text.
pub struct JsonMember {
    pub name: String,
    pub kind: JsonKind,
    pub text: String,
}

/// A `JsonMember` as a mathematical value.
pub struct JsonMemberView {
    pub name: Seq<char>,
    pub kind: JsonKindView,
    pub text: Seq<char>,
}

impl View for JsonMember {
    type V = JsonMemberView;

    open spec fn view(&self) -> JsonMemberView {
        JsonMemberView { name: self.name@, kind: self.kind@, text: self.text@ }
    }
}

/// A JSON document read one level deep: the kind of its root, the root's
/// compact JSON text, and, where the root is an object, its members.
pub struct JsonDoc {
    pub kind: JsonKind,
    pub text: String,
    pub members: Vec<JsonMember>,
}

/// A `JsonDoc` as a mathematical value.
pub struct JsonDocView {
    pub kind: JsonKindView,
    pub text: Seq<char>,
    pub members: Seq<JsonMemberView>,
}

/// The members of `members`, each as a mathematical value.
pub open spec fn member_views(members: Seq<JsonMember>) -> Seq<JsonMemberView> {
    Seq::new(members.len(), |i: int| members[i]@)
}

impl View for JsonDoc {
    type V = JsonDocView;

    open spec fn view(&self) -> JsonDocView {
        JsonDocView { kind: self.kind@, text: self.text@, members: member_views(self.members@) }
    }
}

/// What parsing `text` as JSON gives: the document, or the parser's
/// message where `text` is not JSON.
pub uninterp spec fn json_document(text: Seq<char>) -> Result<JsonDocView, Seq<char>>;

/// Tells the variants of `serde_json::Value` apart, and copies the payload
/// of a truth value or a string.
#[verifier::external_body]
fn kind_of(value: &serde_json::Value) -> (kind: JsonKind) {
    match value {
        serde_json::Value::Null => JsonKind::Null,
        serde_json::Value::Bool(b) => JsonKind::Bool(*b),
        serde_json::Value::Number(_) => JsonKind::Number,
        serde_json::Value::String(s) => JsonKind::Text(s.clone()),
        serde_json::Value::Array(_) => JsonKind::Array,
        serde_json::Value::Object(_) => JsonKind::Object,
    }
}

/// `serde_json::from_str` into a `serde_json::Value`, read back through the
/// value's variants, its map and its `Display`, which prints compact JSON.
/// The result depends on `text` alone and is named `json_document(text)`:
/// on success the kind of the root, the root printed compactly, and for an
/// object each member with its name, kind and compact text, in the order
/// in which the parser's map yields them; on failure the parser's message.
#[verifier::external_body]
fn parse_document(text: &str) -> (parsed: Result<JsonDoc, String>)
    ensures
        match parsed {
            Ok(doc) => json_document(text@) == Ok::<JsonDocView, Seq<char>>(doc@),
            Err(message) => json_document(text@) == Err::<JsonDocView, Seq<char>>(message@),
        },
{
    let value = match serde_json::from_str::<serde_json::Value>(text) {
        Ok(value) => value,
        Err(e) => return Err(e.to_string()),
    };
    let mut members = Vec::new();
    if let serde_json::Value::Object(map) = &value {
        for (name, v) in map.iter() {
            members.push(JsonMember { name: name.clone(), kind: kind_of(v), text: v.to_string() });
        }
    }
    Ok(JsonDoc { kind: kind_of(&value), text: value.to_string(), members })
}

/// Parses `text` as JSON and reads the document one level deep.
pub fn parse(text: &str) -> (parsed: Result<JsonDoc, String>)
    ensures
        match parsed {
            Ok(doc) => json_document(text@) == Ok::<JsonDocView, Seq<char>>(doc@),
            Err(message) => json_document(text@) == Err::<JsonDocView, Seq<char>>(message@),
        },
{
    parse_document(text)
}

/// The index of the first member of `members` named `name`, if any.
pub open spec fn member_index(members: Seq<JsonMemberView>, name: Seq<char>) -> Option<int>
    decreases members.len(),
{
    if members.len() == 0 {
        None
    } else if members[0].name == name {
        Some(0)
    } else {
        match member_index(members.drop_first(), name) {
            Some(i) => Some(i + 1),
            None => None,
        }
    }
}

/// `member_index` finds a member of that name, and the first one; it finds
/// none exactly when no member has the name.
pub proof fn lemma_member_index(members: Seq<JsonMemberView>, name: Seq<char>)
    ensures
        match member_index(members, name) {
            Some(i) => 0 <= i < members.len() && members[i].name == name && forall|j: int|
                0 <= j < i ==> (#[trigger] members[j]).name != name,
            None => forall|j: int| 0 <= j < members.len() ==> (#[trigger] members[j]).name != name,
        },
    decreases members.len(),
{
    if members.len() == 0 {
    } else if members[0].name == name {
    } else {
        let rest = members.drop_first();
        lemma_member_index(rest, name);
        match member_index(rest, name) {
            Some(i) => {
                assert forall|j: int| 0 <= j < i + 1 implies (#[trigger] members[j]).name
                    != name by {
                    if j > 0 {
                        assert(members[j] == rest[j - 1]);
                    }
                }
            },
            None => {
                assert forall|j: int| 0 <= j < members.len() implies (#[trigger] members[j]).name
                    != name by {
                    if j > 0 {
                        assert(members[j] == rest[j - 1]);
                    }
                }
            },
        }
    }
}

/// Finds the first member named `name`.
pub fn find_member(members: &Vec<JsonMember>, name: &str) -> (found: Option<usize>)
    ensures
        match found {
            Some(i) => i < members.len() && member_index(member_views(members@), name@) == Some(
                i as int,
            ),
            None => member_index(member_views(members@), name@) is None,
        },
{
    let ghost views = member_views(members@);
    let mut i: usize = 0;
    while i < members.len()
        invariant
            i <= members.len(),
            views == member_views(members@),
            forall|j: int| 0 <= j < i ==> (#[trigger] views[j]).name != name@,
        decreases members.len() - i,
    {
        assert(views[i as int] == members@[i as int]@);
        if same_text(members[i].name.as_str(), name) {
            proof {
                lemma_member_index(views, name@);
                if let Some(k) = member_index(views, name@) {
                    assert(views[k].name == name@);
                } else {
                    assert(views[i as int].name != name@);
                }
            }
            return Some(i);
        }
        i += 1;
    }
    proof {
        lemma_member_index(views, name@);
    }
    None
}

/// JSON text that a parser has read and printed compactly; it stands for
/// a JSON value of any shape that is passed through unread.
pub struct JsonText {
    text: String,
}

impl View for JsonText {
    type V = Seq<char>;

    closed spec fn view(&self) -> Seq<char> {
        self.text@
    }
}

impl JsonText {
    /// The invariant: the text is the compact print of some JSON document.
    pub open spec fn wf(&self) -> bool {
        exists|source: Seq<char>|
            (#[trigger] json_document(source)) is Ok && json_document(source)->Ok_0.text == self@
    }

    /// Reads `source` as JSON. Gives the document's compact text, or
    /// nothing where `source` is not JSON.
    pub fn parse(source: &str) -> (parsed: Option<JsonText>)
        ensures
            match parsed {
                Some(json) => json.wf() && json_document(source@) is Ok && json_document(
                    source@,
                )->Ok_0.text == json@,
                None => json_document(source@) is Err,
            },
    {
        match parse(source) {
            Ok(doc) => Some(JsonText { text: doc.text }),
            Err(_) => None,
        }
    }

    /// The JSON text.
    pub fn as_str(&self) -> (text: &str)
        ensures
            text@ == self@,
    {
        self.text.as_str()
    }
}

impl JsonKind {
    /// A copy of this kind.
    pub fn copy(&self) -> (kind: JsonKind)
        ensures
            kind@ == self@,
    {
        match self {
            JsonKind::Null => JsonKind::Null,
            JsonKind::Bool(b) => JsonKind::Bool(*b),
            JsonKind::Number => JsonKind::Number,
            JsonKind::Text(s) => JsonKind::Text(s.clone()),
            JsonKind::Array => JsonKind::Array,
            JsonKind::Object => JsonKind::Object,
        }
    }
}

impl JsonMember {
    /// The member `name` whose value is the string `value`.
    pub fn string(name: &str, value: &str) -> (member: JsonMember)
        ensures
            member@ == (JsonMemberView {
                name: name@,
                kind: JsonKindView::Text(value@),
                text: string_literal(value@),
            }),
    {
        JsonMember {
            name: String::from_str(name),
            kind: JsonKind::Text(String::from_str(value)),
            text: quote(value),
        }
    }

    /// The member `name` whose value is null.
    pub fn null(name: &str) -> (member: JsonMember)
        ensures
            member@ == (JsonMemberView { name: name@, kind: JsonKindView::Null, text: "null"@ }),
    {
        JsonMember {
            name: String::from_str(name),
            kind: JsonKind::Null,
            text: String::from_str("null"),
        }
    }

    /// The member `name` whose value is the string `value`, or null where
    /// there is none.
    pub fn optional_string(name: &str, value: &Option<String>) -> (member: JsonMember)
        ensures
            member@ == match value {
                Some(text) => JsonMemberView {
                    name: name@,
                    kind: JsonKindView::Text(text@),
                    text: string_literal(text@),
                },
                None => JsonMemberView { name: name@, kind: JsonKindView::Null, text: "null"@ },
            },
    {
        match value {
            Some(text) => JsonMember::string(name, text.as_str()),
            None => JsonMember::null(name),
        }
    }

    /// The member `name` whose value is the truth value `value`.
    pub fn boolean(name: &str, value: bool) -> (member: JsonMember)
        ensures
            member@ == (JsonMemberView {
                name: name@,
                kind: JsonKindView::Bool(value),
                text: boolean_text(value),
            }),
    {
        JsonMember {
            name: String::from_str(name),
            kind: JsonKind::Bool(value),
            text: if value {
                String::from_str("true")
            } else {
                String::from_str("false")
            },
        }
    }

    /// The member `name` whose value is the number `value`.
    pub fn number(name: &str, value: u64) -> (member: JsonMember)
        ensures
            member@ == (JsonMemberView {
                name: name@,
                kind: JsonKindView::Number,
                text: decimal(value as nat),
            }),
    {
        JsonMember {
            name: String::from_str(name),
            kind: JsonKind::Number,
            text: decimal_string(value),
        }
    }

    /// The member `name` whose value is the root of `doc`.
    pub fn document(name: &str, doc: &JsonDoc) -> (member: JsonMember)
        ensures
            member@ == (JsonMemberView { name: name@, kind: doc@.kind, text: doc@.text }),
    {
        JsonMember { name: String::from_str(name), kind: doc.kind.copy(), text: doc.text.clone() }
    }
}

/// The JSON text of a truth value.
pub open spec fn boolean_text(value: bool) -> Seq<char> {
    if value {
        "true"@
    } else {
        "false"@
    }
}

/// `members` with `member` in the place of the first member of its name,
/// or at the end where there is none.
pub open spec fn with_member(members: Seq<JsonMemberView>, member: JsonMemberView) -> Seq<
    JsonMemberView,
> {
    match member_index(members, member.name) {
        Some(i) => members.update(i, member),
        None => members.push(member),
    }
}

/// Where the member at `i` is the first one named `name`, `member_index`
/// finds it.
pub proof fn lemma_member_index_is(members: Seq<JsonMemberView>, name: Seq<char>, i: int)
    requires
        0 <= i < members.len(),
        members[i].name == name,
        forall|j: int| 0 <= j < i ==> (#[trigger] members[j]).name != name,
    ensures
        member_index(members, name) == Some(i),
{
    lemma_member_index(members, name);
    match member_index(members, name) {
        Some(k) => {
            if k < i {
                assert(members[k].name != name);
            } else if i < k {
                assert(members[i].name != name);
            }
        },
        None => {
            assert(members[i].name != name);
        },
    }
}

/// Where no member is named `name`, `member_index` finds none.
pub proof fn lemma_member_index_none(members: Seq<JsonMemberView>, name: Seq<char>)
    requires
        forall|j: int| 0 <= j < members.len() ==> (#[trigger] members[j]).name != name,
    ensures
        member_index(members, name) is None,
{
    lemma_member_index(members, name);
    if let Some(k) = member_index(members, name) {
        assert(members[k].name != name);
    }
}

/// After a member was set it is found under its name, and the members of
/// every other name are where and what they were.
pub proof fn lemma_with_member(
    members: Seq<JsonMemberView>,
    member: JsonMemberView,
    other: Seq<char>,
)
    ensures
        member_index(with_member(members, member), member.name) is Some,
        with_member(members, member)[member_index(
            with_member(members, member),
            member.name,
        )->Some_0] == member,
        other != member.name ==> member_index(with_member(members, member), other) == member_index(
            members,
            other,
        ),
        other != member.name && member_index(members, other) is Some ==> with_member(
            members,
            member,
        )[member_index(members, other)->Some_0] == members[member_index(members, other)->Some_0],
{
    let set = with_member(members, member);
    lemma_member_index(members, member.name);
    lemma_member_index(members, other);
    match member_index(members, member.name) {
        Some(i) => {
            assert(set == members.update(i, member));
            assert forall|j: int| 0 <= j < i implies (#[trigger] set[j]).name != member.name by {
                assert(set[j] == members[j]);
            }
            lemma_member_index_is(set, member.name, i);
            if other != member.name {
                match member_index(members, other) {
                    Some(k) => {
                        assert(k != i);
                        assert forall|j: int| 0 <= j < k implies (#[trigger] set[j]).name
                            != other by {
                            if j != i {
                                assert(set[j] == members[j]);
                            }
                        }
                        lemma_member_index_is(set, other, k);
                    },
                    None => {
                        assert forall|j: int| 0 <= j < set.len() implies (#[trigger] set[j]).name
                            != other by {
                            if j != i {
                                assert(set[j] == members[j]);
                            }
                        }
                        lemma_member_index_none(set, other);
                    },
                }
            }
        },
        None => {
            assert(set == members.push(member));
            let end = members.len() as int;
            assert forall|j: int| 0 <= j < end implies (#[trigger] set[j]).name != member.name by {
                assert(set[j] == members[j]);
            }
            lemma_member_index_is(set, member.name, end);
            if other != member.name {
                match member_index(members, other) {
                    Some(k) => {
                        assert forall|j: int| 0 <= j < k implies (#[trigger] set[j]).name
                            != other by {
                            assert(set[j] == members[j]);
                        }
                        assert(set[k] == members[k]);
                        lemma_member_index_is(set, other, k);
                    },
                    None => {
                        assert forall|j: int| 0 <= j < set.len() implies (#[trigger] set[j]).name
                            != other by {
                            if j < end {
                                assert(set[j] == members[j]);
                            }
                        }
                        lemma_member_index_none(set, other);
                    },
                }
            }
        },
    }
}

/// Sets a member: replaces the first member of the same name, or appends.
pub fn set_member(members: &mut Vec<JsonMember>, member: JsonMember)
    ensures
        member_views(final(members)@) == with_member(member_views(old(members)@), member@),
{
    proof {
        lemma_member_index(member_views(members@), member@.name);
    }
    match find_member(members, member.name.as_str()) {
        Some(i) => {
            members.set(i, member);
            assert(member_views(members@) =~= member_views(old(members)@).update(
                i as int,
                member@,
            ));
        },
        None => {
            members.push(member);
            assert(member_views(members@) =~= member_views(old(members)@).push(member@));
        },
    }
}

/// One member as it stands in an object's text.
pub open spec fn member_text(member: JsonMemberView) -> Seq<char> {
    string_literal(member.name) + ":"@ + member.text
}

/// The members of an object as they stand between its braces, separated
/// by commas.
pub open spec fn members_text(members: Seq<JsonMemberView>) -> Seq<char>
    decreases members.len(),
{
    if members.len() == 0 {
        Seq::empty()
    } else if members.len() == 1 {
        member_text(members[0])
    } else {
        members_text(members.drop_last()) + ","@ + member_text(members.last())
    }
}

/// The compact JSON text of the object that has `members`.
pub open spec fn object_text(members: Seq<JsonMemberView>) -> Seq<char> {
    "{"@ + members_text(members) + "}"@
}

/// Writes the object that has `members` as compact JSON text.
pub fn render_object(members: &Vec<JsonMember>) -> (text: String)
    ensures
        text@ == object_text(member_views(members@)),
{
    let ghost views = member_views(members@);
    let mut inner = String::new();
    let mut i: usize = 0;
    while i < members.len()
        invariant
            i <= members.len(),
            views == member_views(members@),
            inner@ == members_text(views.take(i as int)),
        decreases members.len() - i,
    {
        let ghost before = views.take(i as int);
        let ghost after = views.take(i as int + 1);
        proof {
            assert(after.drop_last() =~= before);
            assert(after.last() == views[i as int]);
            assert(views[i as int] == members@[i as int]@);
        }
        if i > 0 {
            inner.append(",");
        }
        inner.append(quote(members[i].name.as_str()).as_str());
        inner.append(":");
        inner.append(members[i].text.as_str());
        proof {
            if i == 0 {
                assert(before.len() == 0);
                assert(after[0] == views[0]);
                assert(inner@ =~= member_text(views[0]));
            } else {
                assert(inner@ =~= members_text(before) + ","@ + member_text(views[i as int]));
            }
        }
        i += 1;
    }
    assert(views.take(members.len() as int) =~= views);
    let mut text = String::from_str("{");
    text.append(inner.as_str());
    text.append("}");
    text
}

} // verus!
