//! Turning a JSON value into the text of an ES module.

use crate::text::joined;
use serde_json::Value;
use vstd::prelude::*;
use vstd::string::StringExecFns;
use vstd::string::StringSliceAdditionalSpecFns;
use vstd::utf8::encode_utf8;

verus! {

/// `serde_json::Value`, a JSON value. Nothing is known of what it holds.
#[verifier::external_type_specification]
#[verifier::external_body]
pub struct ExValue(serde_json::Value);

/// `serde_json::Error`, the reason why a value could not be written.
#[verifier::external_type_specification]
#[verifier::external_body]
pub struct ExJsonError(serde_json::Error);

/// From this size on, in bytes, the text of an object is parsed at run time.
pub const THRESHOLD_SIZE: usize = 10 * 1000;

/// The JSON string literal for `text`, as `serde_json::to_string` writes it.
pub uninterp spec fn json_string_literal(text: Seq<char>) -> Seq<char>;

/// Whether `name` can stand on the left of `export const .. =`, as
/// `rolldown_utils::ecmascript::is_validate_assignee_identifier_name` tells.
pub uninterp spec fn valid_assignee_identifier(name: Seq<char>) -> bool;

/// The text of `value` as `Display` writes it.
pub uninterp spec fn display_text(value: &Value) -> Seq<char>;

/// The JSON text of `value`, as `serde_json::to_string` writes it.
pub uninterp spec fn json_text(value: &Value) -> Seq<char>;

/// Whether `value` is an object, as `Value::is_object` tells.
pub uninterp spec fn is_json_object(value: &Value) -> bool;

/// The members of the object `value`, key and value, in the order of its map.
pub uninterp spec fn object_entries(value: &Value) -> Seq<(Seq<char>, Value)>;

/// One member of a JSON object, with what the module text needs of it.
#[derive(Debug)]
pub struct JsonMember {
    pub key: String,
    /// The key is exported under its own name.
    pub is_identifier: bool,
    /// The key as a string literal; read only where the key is no identifier.
    pub quoted_key: String,
    /// The value as an expression.
    pub value: String,
}

/// The export statement of a member: none where its key is no identifier.
pub open spec fn member_export(member: JsonMember) -> Seq<char> {
    if member.is_identifier {
        "export const "@ + member.key@ + " = "@ + member.value@ + ";\n"@
    } else {
        Seq::empty()
    }
}

/// The member's line in the default export.
pub open spec fn member_field(member: JsonMember) -> Seq<char> {
    if member.is_identifier {
        "  "@ + member.key@
    } else {
        "  "@ + member.quoted_key@ + ": "@ + member.value@
    }
}

/// The export statements of the members, in order.
pub open spec fn exports_text(members: Seq<JsonMember>) -> Seq<char>
    decreases members.len(),
{
    if members.len() == 0 {
        Seq::empty()
    } else {
        exports_text(members.drop_last()) + member_export(members.last())
    }
}

/// The lines of the members in the default export, in order.
pub open spec fn field_lines(members: Seq<JsonMember>) -> Seq<Seq<char>> {
    members.map_values(|member: JsonMember| member_field(member))
}

/// The module with one named export for each member whose key is an identifier, and a
/// default export that holds all members.
pub open spec fn named_module(members: Seq<JsonMember>) -> Seq<char> {
    exports_text(members) + "export default {\n"@ + joined(field_lines(members), ",\n"@)
        + "\n};"@
}

/// The module whose default export is the expression `text`.
pub open spec fn default_module(text: Seq<char>) -> Seq<char> {
    "export default "@ + text + ";\n"@
}

/// The module for an object without members.
pub open spec fn empty_module() -> Seq<char> {
    "export default {{}};\n"@
}

/// The expression that parses the JSON string literal `quoted` at run time.
pub open spec fn parse_expression(quoted: Seq<char>) -> Seq<char> {
    "/*#__PURE__*/ JSON.parse("@ + quoted + ")"@
}

/// A value with the JSON text `text` is written as a call of `JSON.parse`: it is an
/// object and its text is longer than the threshold, in bytes.
pub open spec fn parsed_at_run_time(text: Seq<char>, is_object: bool) -> bool {
    is_object && encode_utf8(text).len() > THRESHOLD_SIZE
}

/// The expression that stands for a value with the JSON text `text`: the text itself,
/// or, for an object with a long text, a call that parses the text at run time.
pub open spec fn expression_for(text: Seq<char>, is_object: bool) -> Seq<char> {
    if parsed_at_run_time(text, is_object) {
        parse_expression(json_string_literal(text))
    } else {
        text
    }
}

/// The expression that stands for `value`.
pub open spec fn value_expression(value: &Value) -> Seq<char> {
    expression_for(json_text(value), is_json_object(value))
}

/// The key of a member as it is kept for the default export: nothing for a key that is
/// an identifier, which is written as it is, and the string literal of any other key.
pub open spec fn key_literal(key: Seq<char>, is_identifier: bool) -> Seq<char> {
    if is_identifier {
        Seq::empty()
    } else {
        json_string_literal(key)
    }
}

/// `member` is the member with the key `key` whose value is written as `value`.
pub open spec fn is_member_of(
    member: JsonMember,
    key: Seq<char>,
    is_identifier: bool,
    value: Seq<char>,
) -> bool {
    &&& member.key@ == key
    &&& member.is_identifier == is_identifier
    &&& member.quoted_key@ == key_literal(key, is_identifier)
    &&& member.value@ == value
}

/// `member` is what the module text needs of the member `entry` of an object.
pub open spec fn describes(member: JsonMember, entry: (Seq<char>, Value)) -> bool {
    is_member_of(member, entry.0, valid_assignee_identifier(entry.0), value_expression(&entry.1))
}

/// The export statement of a member of an object: none where its key is no identifier.
pub open spec fn entry_export(entry: (Seq<char>, Value)) -> Seq<char> {
    if valid_assignee_identifier(entry.0) {
        "export const "@ + entry.0 + " = "@ + value_expression(&entry.1) + ";\n"@
    } else {
        Seq::empty()
    }
}

/// The line of a member of an object in the default export.
pub open spec fn entry_field(entry: (Seq<char>, Value)) -> Seq<char> {
    if valid_assignee_identifier(entry.0) {
        "  "@ + entry.0
    } else {
        "  "@ + json_string_literal(entry.0) + ": "@ + value_expression(&entry.1)
    }
}

/// The export statements of the members of an object, in order.
pub open spec fn entry_exports(entries: Seq<(Seq<char>, Value)>) -> Seq<char>
    decreases entries.len(),
{
    if entries.len() == 0 {
        Seq::empty()
    } else {
        entry_exports(entries.drop_last()) + entry_export(entries.last())
    }
}

/// The lines of the members of an object in the default export, in order.
pub open spec fn entry_fields(entries: Seq<(Seq<char>, Value)>) -> Seq<Seq<char>> {
    entries.map_values(|entry: (Seq<char>, Value)| entry_field(entry))
}

/// The module for an object with the members `entries`: one named export for each
/// member whose key is an identifier, then a default export that lists every member
/// once, in order, with `,` between neighbours.
pub open spec fn object_module(entries: Seq<(Seq<char>, Value)>) -> Seq<char> {
    entry_exports(entries) + "export default {\n"@ + joined(entry_fields(entries), ",\n"@)
        + "\n};"@
}

/// The text of the module that exports `data`. Without named exports, and for a value
/// that is no object, it is the default export of the value's text; for an object
/// without members it is the module with the doubled braces; for any other object it is
/// the module of the object's members.
pub open spec fn esm_module(data: &Value, named_exports: bool) -> Seq<char> {
    if !named_exports || !is_json_object(data) {
        default_module(display_text(data))
    } else if object_entries(data).len() == 0 {
        empty_module()
    } else {
        object_module(object_entries(data))
    }
}

/// Calls `serde_json::to_string` on a string: its JSON string literal. The literal is
/// written into a vector in memory, which cannot fail.
#[verifier::external_body]
fn quote(text: &str) -> (r: Result<String, serde_json::Error>)
    ensures
        r is Ok,
        r matches Ok(quoted) ==> quoted@ == json_string_literal(text@),
{
    serde_json::to_string(text)
}

/// Calls `serde_json::to_string` on a value: its JSON text. A value holds nothing that
/// cannot be written (its keys are strings), and the text is written into a vector in
/// memory, so the call cannot fail.
#[verifier::external_body]
fn value_text(value: &Value) -> (r: Result<String, serde_json::Error>)
    ensures
        r is Ok,
        r matches Ok(text) ==> text@ == json_text(value),
{
    serde_json::to_string(value)
}

/// Calls `to_string` on a value, which writes it as `Display` does: its JSON text.
#[verifier::external_body]
fn value_display(value: &Value) -> (text: String)
    ensures
        text@ == display_text(value),
{
    value.to_string()
}

/// Calls `Value::is_object`.
#[verifier::external_body]
fn value_is_object(value: &Value) -> (r: bool)
    ensures
        r == is_json_object(value),
{
    value.is_object()
}

/// `handed` holds the keys and values of `entries`, in order.
pub open spec fn holds_entries(handed: Seq<(&String, &Value)>, entries: Seq<(Seq<char>, Value)>) -> bool {
    &&& handed.len() == entries.len()
    &&& forall|i: int|
        0 <= i < handed.len() ==> (#[trigger] handed[i]).0@ == entries[i].0 && *handed[i].1
            == entries[i].1
}

/// Calls `Value::as_object` and hands out the members of the object in the order of
/// its map; `None` for a value that is no object.
#[verifier::external_body]
fn object_members<'a>(value: &'a Value) -> (r: Option<Vec<(&'a String, &'a Value)>>)
    ensures
        r is Some <==> is_json_object(value),
        r matches Some(entries) ==> holds_entries(entries@, object_entries(value)),
{
    value.as_object().map(|members| members.iter().collect())
}

/// Calls `rolldown_utils::ecmascript::is_validate_assignee_identifier_name`.
#[verifier::external_body]
fn is_assignee_identifier(name: &str) -> (r: bool)
    ensures
        r == valid_assignee_identifier(name@),
{
    rolldown_utils::ecmascript::is_validate_assignee_identifier_name(name)
}

/// Whether a value with the text `text` is written as a call of `JSON.parse`.
pub fn is_parsed_at_run_time(text: &str, is_object: bool) -> (r: bool)
    ensures
        r == parsed_at_run_time(text@, is_object),
{
    is_object && text.as_bytes().len() > THRESHOLD_SIZE
}

/// The expression that parses the JSON string literal `quoted` at run time.
pub fn parse_call(quoted: &str) -> (r: String)
    ensures
        r@ == parse_expression(quoted@),
{
    String::from_str("/*#__PURE__*/ JSON.parse(").concat(quoted).concat(")")
}

/// The module whose default export is the expression `text`.
pub fn default_export(text: &str) -> (r: String)
    ensures
        r@ == default_module(text@),
{
    String::from_str("export default ").concat(text).concat(";\n")
}

/// The export statement of a member.
fn export_of(member: &JsonMember) -> (r: String)
    ensures
        r@ == member_export(*member),
{
    if member.is_identifier {
        String::from_str("export const ").concat(member.key.as_str()).concat(" = ").concat(
            member.value.as_str(),
        ).concat(";\n")
    } else {
        String::new()
    }
}

/// The member's line in the default export.
fn field_of(member: &JsonMember) -> (r: String)
    ensures
        r@ == member_field(*member),
{
    if member.is_identifier {
        String::from_str("  ").concat(member.key.as_str())
    } else {
        String::from_str("  ").concat(member.quoted_key.as_str()).concat(": ").concat(
            member.value.as_str(),
        )
    }
}

/// The module for the members of an object: a named export for each member whose key
/// is an identifier, then the default export with all members.
pub fn render_members(members: &Vec<JsonMember>) -> (r: String)
    ensures
        r@ == named_module(members@),
{
    let mut exports = String::new();
    let mut fields = String::new();
    let mut i: usize = 0;
    assert(members@.take(0) =~= Seq::<JsonMember>::empty());
    assert(field_lines(Seq::<JsonMember>::empty()) =~= Seq::<Seq<char>>::empty());
    while i < members.len()
        invariant
            i <= members@.len(),
            exports@ == exports_text(members@.take(i as int)),
            fields@ == joined(field_lines(members@.take(i as int)), ",\n"@),
        decreases members@.len() - i,
    {
        let ghost seen = members@.take(i as int);
        let ghost next = members@.take(i + 1);
        proof {
            assert(next.drop_last() =~= seen);
            assert(next.last() == members@[i as int]);
            assert(field_lines(next).drop_last() =~= field_lines(seen));
            assert(field_lines(next).last() == member_field(members@[i as int]));
            assert(i == 0 ==> field_lines(seen).len() == 0);
        }
        exports.append(export_of(&members[i]).as_str());
        if i > 0 {
            fields.append(",\n");
        }
        fields.append(field_of(&members[i]).as_str());
        proof {
            if i == 0 {
                assert(fields@ =~= member_field(members@[0]));
                assert(field_lines(next)[0] == member_field(members@[0]));
            } else {
                assert(fields@ =~= joined(field_lines(seen), ",\n"@) + ",\n"@ + member_field(
                    members@[i as int],
                ));
            }
        }
        i += 1;
    }
    assert(members@.take(i as int) =~= members@);
    exports.concat("export default {\n").concat(fields.as_str()).concat("\n};")
}

/// The expression for a value with the JSON text `text`: the text itself, or, for an
/// object with a long text, a call that parses the text at run time.
pub fn expression_of(text: String, is_object: bool) -> (expression: String)
    ensures
        expression@ == expression_for(text@, is_object),
{
    if is_parsed_at_run_time(text.as_str(), is_object) {
        parse_call(quote(text.as_str()).unwrap().as_str())
    } else {
        text
    }
}

/// The member with the key `key` whose value is written as `value`. A key that is an
/// identifier is kept as it is; any other key is written as a string literal.
pub fn member_of(key: &String, is_identifier: bool, value: String) -> (member: JsonMember)
    ensures
        is_member_of(member, key@, is_identifier, value@),
{
    if is_identifier {
        JsonMember { key: key.clone(), is_identifier: true, quoted_key: String::new(), value }
    } else {
        JsonMember {
            key: key.clone(),
            is_identifier: false,
            quoted_key: quote(key.as_str()).unwrap(),
            value,
        }
    }
}

/// The expression for a value: its JSON text, or, for an object with a long text, a
/// call that parses that text at run time.
fn serialize_value(value: &Value) -> (r: Result<String, serde_json::Error>)
    ensures
        r matches Ok(expression) && expression@ == value_expression(value),
{
    match value_text(value) {
        Ok(text) => Ok(expression_of(text, value_is_object(value))),
        Err(error) => Err(error),
    }
}

/// What the module text needs of the member with the key `key` and the value `value`:
/// the key, whether it is an identifier, its string literal where it is none, and the
/// expression for the value.
fn describe_member(key: &String, value: &Value) -> (member: JsonMember)
    ensures
        is_member_of(member, key@, valid_assignee_identifier(key@), value_expression(value)),
{
    let expression = serialize_value(value).expect("Invalid JSON value");
    member_of(key, is_assignee_identifier(key.as_str()), expression)
}

/// The export statements of members are those of the entries that they describe.
proof fn lemma_exports_of_entries(members: Seq<JsonMember>, entries: Seq<(Seq<char>, Value)>)
    requires
        members.len() == entries.len(),
        forall|i: int| 0 <= i < members.len() ==> describes(#[trigger] members[i], entries[i]),
    ensures
        exports_text(members) == entry_exports(entries),
    decreases members.len(),
{
    if members.len() > 0 {
        lemma_exports_of_entries(members.drop_last(), entries.drop_last());
        assert(describes(members[members.len() - 1], entries[entries.len() - 1]));
    }
}

/// Members that describe the entries of an object, one for each and in order, give the
/// module of that object.
pub proof fn lemma_members_give_the_object_module(
    members: Seq<JsonMember>,
    entries: Seq<(Seq<char>, Value)>,
)
    requires
        members.len() == entries.len(),
        forall|i: int| 0 <= i < members.len() ==> describes(#[trigger] members[i], entries[i]),
    ensures
        named_module(members) == object_module(entries),
{
    lemma_exports_of_entries(members, entries);
    assert(field_lines(members) =~= entry_fields(entries)) by {
        assert forall|i: int| 0 <= i < members.len() implies field_lines(members)[i]
            == entry_fields(entries)[i] by {
            assert(describes(members[i], entries[i]));
        }
    }
}

/// The text of an ES module that exports `data`. Without `named_exports`, and for a
/// value that is no object, the module has a default export only. For an object, each
/// member whose key is an identifier is exported under its name as well, and the
/// default export lists every member once, in the order of the object's map.
pub fn json_to_esm(data: &Value, named_exports: bool) -> (module: String)
    ensures
        module@ == esm_module(data, named_exports),
{
    let members = if named_exports {
        object_members(data)
    } else {
        None
    };
    match members {
        None => default_export(value_display(data).as_str()),
        Some(entries) => {
            if entries.len() == 0 {
                return String::from_str("export default {{}};\n");
            }
            let mut described: Vec<JsonMember> = Vec::new();
            let mut i: usize = 0;
            while i < entries.len()
                invariant
                    i <= entries@.len(),
                    holds_entries(entries@, object_entries(data)),
                    described@.len() == i,
                    forall|k: int|
                        0 <= k < i ==> describes(#[trigger] described@[k], object_entries(data)[k]),
                decreases entries@.len() - i,
            {
                let (key, value) = entries[i];
                described.push(describe_member(key, value));
                i += 1;
            }
            proof {
                lemma_members_give_the_object_module(described@, object_entries(data));
            }
            render_members(&described)
        },
    }
}

} // verus!
