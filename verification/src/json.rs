//! JSON as the runtime API uses it: the documents in the client-context and
//! Cognito-identity headers, and the body of an error report.
//!
//! Reading and writing JSON text is the JSON library's work; what this crate
//! relies on of it is stated here and not proved. Which members a document
//! must have, and how a report is laid out, is decided and proved here.

use vstd::prelude::*;
use serde_json::Value;
use crate::context::{
    ClientApplication,
    ClientApplicationView,
    ClientContext,
    ClientContextView,
    CognitoIdentity,
    CognitoIdentityView,
};
use crate::error::{ErrorResponse, ErrorResponseView};
use crate::string_map::StringMap;

verus! {

/// The JSON library's value, `serde_json::Value`, as a type whose values
/// are carried and not looked into.
#[verifier::external_type_specification]
#[verifier::external_body]
pub struct ExValue(Value);

/// The JSON value that `text` is, `None` where `text` is not one JSON
/// document.
pub uninterp spec fn json_document(text: Seq<char>) -> Option<Value>;

/// The members of a JSON object, by name; `None` for a value that is not an
/// object.
pub uninterp spec fn json_object(value: Value) -> Option<Map<Seq<char>, Value>>;

/// The text of a JSON string; `None` for a value that is not a string.
pub uninterp spec fn json_string(value: Value) -> Option<Seq<char>>;

/// The string `text` as a JSON string: between double quotes, with escapes
/// where JSON asks for them.
pub uninterp spec fn json_quoted(text: Seq<char>) -> Seq<char>;

/// `serde_json::from_str` for a `Value`: the document that the text is, or
/// `None` where the text is not JSON. The contract only gives the outcome
/// the name [`json_document`]. Not proved.
#[verifier::external_body]
pub(crate) fn parse_document(text: &str) -> (r: Option<Value>)
    ensures
        r == json_document(text@),
{
    serde_json::from_str::<Value>(text).ok()
}

/// The member `name` of `value`: `None` where `value` is not an object or has
/// no such member.
pub open spec fn json_member(value: Value, name: Seq<char>) -> Option<Value> {
    match json_object(value) {
        Some(members) => if members.contains_key(name) {
            Some(members[name])
        } else {
            None
        },
        None => None,
    }
}

/// `serde_json::Value::get` with a string index: the member of that name
/// where the value is an object that has one, else `None`. Not proved.
#[verifier::external_body]
pub(crate) fn member<'a>(value: &'a Value, name: &str) -> (r: Option<&'a Value>)
    ensures
        match r {
            Some(found) => json_member(*value, name@) == Some(*found),
            None => json_member(*value, name@) is None,
        },
{
    value.get(name)
}

/// `serde_json::Value::as_str`: the text where the value is a string, else
/// `None`. Not proved.
pub assume_specification[ Value::as_str ](value: &Value) -> (r: Option<&str>)
    ensures
        match r {
            Some(text) => json_string(*value) == Some(text@),
            None => json_string(*value) is None,
        },
;

/// `serde_json::Value::as_object` and `serde_json::Map::keys` of the map
/// it gives: the names of the members, all of them and no other name,
/// where the value is an object; `None` where it is not an object. Not
/// proved.
#[verifier::external_body]
pub(crate) fn member_names(value: &Value) -> (r: Option<Vec<String>>)
    ensures
        r is Some <==> json_object(*value) is Some,
        r is Some ==> forall|i: int|
            0 <= i < r->Some_0@.len() ==> json_object(*value)->Some_0.contains_key(
                (#[trigger] r->Some_0@[i])@,
            ),
        r is Some ==> forall|name: Seq<char>| #[trigger]
            json_object(*value)->Some_0.contains_key(name) ==> exists|i: int|
                0 <= i < r->Some_0@.len() && (#[trigger] r->Some_0@[i])@ == name,
{
    match value.as_object() {
        Some(members) => Some(members.keys().cloned().collect()),
        None => None,
    }
}

/// `serde_json::to_string` of a string slice, which cannot fail: the string
/// as JSON text. The contract only gives that text the name
/// [`json_quoted`]. Not proved.
#[verifier::external_body]
pub(crate) fn quote(text: &str) -> (r: String)
    ensures
        r@ == json_quoted(text@),
{
    serde_json::to_string(text).unwrap_or_default()
}

/// The text of the member `name` of `value`: `None` where `value` is not an
/// object, has no such member, or the member is not a string.
pub open spec fn string_member(value: Value, name: Seq<char>) -> Option<Seq<char>> {
    match json_member(value, name) {
        Some(found) => json_string(found),
        None => None,
    }
}

/// Reads the member `name` of `value` as a string.
fn read_string_member(value: &Value, name: &str) -> (r: Option<String>)
    ensures
        match r {
            Some(text) => string_member(*value, name@) == Some(text@),
            None => string_member(*value, name@) is None,
        },
{
    match member(value, name) {
        Some(found) => match found.as_str() {
            Some(text) => Some(String::from_str(text)),
            None => None,
        },
        None => None,
    }
}

/// Whether every member of the object is a string.
pub open spec fn all_strings(members: Map<Seq<char>, Value>) -> bool {
    forall|name: Seq<char>| #[trigger]
        members.contains_key(name) ==> json_string(members[name]) is Some
}

/// The object `value` as a mapping from names to texts: `None` where `value`
/// is not an object, or one of its members is not a string.
pub open spec fn string_map_of(value: Value) -> Option<Map<Seq<char>, Seq<char>>> {
    match json_object(value) {
        Some(members) => if all_strings(members) {
            Some(
                Map::new(
                    |name: Seq<char>| members.contains_key(name),
                    |name: Seq<char>| json_string(members[name])->Some_0,
                ),
            )
        } else {
            None
        },
        None => None,
    }
}

/// Reads a JSON object whose members are all strings.
pub fn read_string_map(value: &Value) -> (r: Option<StringMap>)
    ensures
        match r {
            Some(map) => string_map_of(*value) == Some(map@),
            None => string_map_of(*value) is None,
        },
{
    let names = match member_names(value) {
        Some(names) => names,
        None => {
            return None;
        },
    };
    let ghost members = json_object(*value)->Some_0;
    let mut map = StringMap::new();
    let mut i: usize = 0;
    while i < names.len()
        invariant
            i <= names@.len(),
            json_object(*value) == Some(members),
            forall|j: int| 0 <= j < names@.len() ==> members.contains_key((#[trigger] names@[j])@),
            forall|name: Seq<char>|
                map@.contains_key(name) <==> exists|j: int|
                    0 <= j < i && (#[trigger] names@[j])@ == name,
            forall|name: Seq<char>| #[trigger]
                map@.contains_key(name) ==> json_string(members[name]) == Some(map@[name]),
        decreases names@.len() - i,
    {
        let name = &names[i];
        let ghost before = map@;
        assert(members.contains_key(names@[i as int]@));
        let text = match member(value, name.as_str()) {
            Some(found) => match found.as_str() {
                Some(text) => String::from_str(text),
                None => {
                    return None;
                },
            },
            None => {
                return None;
            },
        };
        map.insert(name.clone(), text);
        proof {
            assert forall|key: Seq<char>|
                map@.contains_key(key) <==> exists|j: int|
                    0 <= j < i + 1 && (#[trigger] names@[j])@ == key by {
                if map@.contains_key(key) {
                    if key == names@[i as int]@ {
                    } else {
                        assert(before.contains_key(key));
                        let j = choose|j: int| 0 <= j < i && (#[trigger] names@[j])@ == key;
                        assert(0 <= j < i + 1 && names@[j]@ == key);
                    }
                }
                if exists|j: int| 0 <= j < i + 1 && (#[trigger] names@[j])@ == key {
                    let j = choose|j: int| 0 <= j < i + 1 && (#[trigger] names@[j])@ == key;
                    if j < i {
                        assert(before.contains_key(key));
                    }
                }
            }
        }
        i += 1;
    }
    proof {
        assert(all_strings(members)) by {
            assert forall|name: Seq<char>| #[trigger] members.contains_key(name) implies json_string(
                members[name],
            ) is Some by {
                let j = choose|j: int| 0 <= j < names@.len() && (#[trigger] names@[j])@ == name;
                assert(map@.contains_key(name));
            }
        }
        let expected = string_map_of(*value)->Some_0;
        assert forall|name: Seq<char>| map@.contains_key(name) <==> expected.contains_key(
            name,
        ) by {
            if map@.contains_key(name) {
                let j = choose|j: int| 0 <= j < i && (#[trigger] names@[j])@ == name;
                assert(members.contains_key(names@[j]@));
            }
            if members.contains_key(name) {
                let j = choose|j: int| 0 <= j < names@.len() && (#[trigger] names@[j])@ == name;
            }
        }
        assert(map@ =~= expected);
    }
    Some(map)
}

/// The mobile application that the object `value` describes: `None` where
/// `value` is not an object or lacks one of the five members, each a string.
///
/// Only the object form is taken: an array that holds the five values in
/// their order is refused. Members of other names are passed over. Of a
/// member that the text names twice the JSON library keeps the last, and
/// that one counts; such a text is not refused.
pub open spec fn client_application_of(value: Value) -> Option<ClientApplicationView> {
    if string_member(value, "installationId"@) is Some && string_member(value, "appTitle"@) is Some
        && string_member(value, "appVersionName"@) is Some && string_member(
        value,
        "appVersionCode"@,
    ) is Some && string_member(value, "appPackageName"@) is Some {
        Some(
            ClientApplicationView {
                installation_id: string_member(value, "installationId"@)->Some_0,
                app_title: string_member(value, "appTitle"@)->Some_0,
                app_version_name: string_member(value, "appVersionName"@)->Some_0,
                app_version_code: string_member(value, "appVersionCode"@)->Some_0,
                app_package_name: string_member(value, "appPackageName"@)->Some_0,
            },
        )
    } else {
        None
    }
}

/// Reads the description of a mobile application from the object `value`.
/// An array in place of the object is refused; of a member named twice the
/// last counts.
pub fn read_client_application(value: &Value) -> (r: Option<ClientApplication>)
    ensures
        match r {
            Some(client) => client_application_of(*value) == Some(client@),
            None => client_application_of(*value) is None,
        },
{
    let installation_id = match read_string_member(value, "installationId") {
        Some(text) => text,
        None => {
            return None;
        },
    };
    let app_title = match read_string_member(value, "appTitle") {
        Some(text) => text,
        None => {
            return None;
        },
    };
    let app_version_name = match read_string_member(value, "appVersionName") {
        Some(text) => text,
        None => {
            return None;
        },
    };
    let app_version_code = match read_string_member(value, "appVersionCode") {
        Some(text) => text,
        None => {
            return None;
        },
    };
    let app_package_name = match read_string_member(value, "appPackageName") {
        Some(text) => text,
        None => {
            return None;
        },
    };
    Some(
        ClientApplication {
            installation_id,
            app_title,
            app_version_name,
            app_version_code,
            app_package_name,
        },
    )
}

/// The member `name` of `value` as a mapping from names to texts: `None`
/// where there is no such member, or it is not an object of strings.
pub open spec fn string_map_member(value: Value, name: Seq<char>) -> Option<
    Map<Seq<char>, Seq<char>>,
> {
    match json_member(value, name) {
        Some(found) => string_map_of(found),
        None => None,
    }
}

/// The client application under the member `client` of `value`.
pub open spec fn client_member(value: Value) -> Option<ClientApplicationView> {
    match json_member(value, "client"@) {
        Some(found) => client_application_of(found),
        None => None,
    }
}

/// The client context that the object `value` describes: `None` where
/// `value` is not an object, or lacks one of `client`, an application,
/// `custom` and `environment`, both objects of strings.
///
/// Only the object form is taken: an array that holds the three values in
/// their order is refused. Members of other names are passed over. Of a
/// member that the text names twice the JSON library keeps the last, and
/// that one counts; such a text is not refused.
pub open spec fn client_context_of(value: Value) -> Option<ClientContextView> {
    if client_member(value) is Some && string_map_member(value, "custom"@) is Some
        && string_map_member(value, "environment"@) is Some {
        Some(
            ClientContextView {
                client: client_member(value)->Some_0,
                custom: string_map_member(value, "custom"@)->Some_0,
                environment: string_map_member(value, "environment"@)->Some_0,
            },
        )
    } else {
        None
    }
}

/// Reads a client context from the object `value`. An array in place of
/// the object is refused; of a member named twice the last counts.
pub fn read_client_context(value: &Value) -> (r: Option<ClientContext>)
    ensures
        match r {
            Some(context) => client_context_of(*value) == Some(context@),
            None => client_context_of(*value) is None,
        },
{
    let client = match member(value, "client") {
        Some(found) => match read_client_application(found) {
            Some(client) => client,
            None => {
                return None;
            },
        },
        None => {
            return None;
        },
    };
    let custom = match member(value, "custom") {
        Some(found) => match read_string_map(found) {
            Some(map) => map,
            None => {
                return None;
            },
        },
        None => {
            return None;
        },
    };
    let environment = match member(value, "environment") {
        Some(found) => match read_string_map(found) {
            Some(map) => map,
            None => {
                return None;
            },
        },
        None => {
            return None;
        },
    };
    Some(ClientContext { client, custom, environment })
}

/// The Cognito identity that the object `value` describes: `None` where
/// `value` is not an object or lacks one of the two members, each a string.
///
/// Only the object form is taken: an array that holds the two values in
/// their order is refused. Members of other names are passed over. Of a
/// member that the text names twice the JSON library keeps the last, and
/// that one counts; such a text is not refused.
pub open spec fn cognito_identity_of(value: Value) -> Option<CognitoIdentityView> {
    if string_member(value, "identity_id"@) is Some && string_member(value, "identity_pool_id"@)
        is Some {
        Some(
            CognitoIdentityView {
                identity_id: string_member(value, "identity_id"@)->Some_0,
                identity_pool_id: string_member(value, "identity_pool_id"@)->Some_0,
            },
        )
    } else {
        None
    }
}

/// Reads a Cognito identity from the object `value`. An array in place of
/// the object is refused; of a member named twice the last counts.
pub fn read_cognito_identity(value: &Value) -> (r: Option<CognitoIdentity>)
    ensures
        match r {
            Some(identity) => cognito_identity_of(*value) == Some(identity@),
            None => cognito_identity_of(*value) is None,
        },
{
    let identity_id = match read_string_member(value, "identity_id") {
        Some(text) => text,
        None => {
            return None;
        },
    };
    let identity_pool_id = match read_string_member(value, "identity_pool_id") {
        Some(text) => text,
        None => {
            return None;
        },
    };
    Some(CognitoIdentity { identity_id, identity_pool_id })
}

/// The client context that the JSON text `text` describes: `None` where the
/// text is not JSON, or not the document of a client context.
pub open spec fn client_context_from(text: Seq<char>) -> Option<ClientContextView> {
    match json_document(text) {
        Some(value) => client_context_of(value),
        None => None,
    }
}

/// The Cognito identity that the JSON text `text` describes: `None` where
/// the text is not JSON, or not the document of an identity.
pub open spec fn cognito_identity_from(text: Seq<char>) -> Option<CognitoIdentityView> {
    match json_document(text) {
        Some(value) => cognito_identity_of(value),
        None => None,
    }
}

/// Reads a client context from JSON text.
pub fn parse_client_context(text: &str) -> (r: Option<ClientContext>)
    ensures
        match r {
            Some(context) => client_context_from(text@) == Some(context@),
            None => client_context_from(text@) is None,
        },
{
    match parse_document(text) {
        Some(value) => read_client_context(&value),
        None => None,
    }
}

/// Reads a Cognito identity from JSON text.
pub fn parse_cognito_identity(text: &str) -> (r: Option<CognitoIdentity>)
    ensures
        match r {
            Some(identity) => cognito_identity_from(text@) == Some(identity@),
            None => cognito_identity_from(text@) is None,
        },
{
    match parse_document(text) {
        Some(value) => read_cognito_identity(&value),
        None => None,
    }
}

/// The frames of a stack trace as JSON strings with a comma between each
/// two.
pub open spec fn frames_json(frames: Seq<Seq<char>>) -> Seq<char>
    decreases frames.len(),
{
    if frames.len() == 0 {
        Seq::empty()
    } else if frames.len() == 1 {
        json_quoted(frames[0])
    } else {
        frames_json(frames.drop_last()) + ","@ + json_quoted(frames.last())
    }
}

/// The stack trace of a report as it stands in the JSON object: nothing
/// where the report has none, else the member `stackTrace`, an array.
pub open spec fn stack_trace_json(stack_trace: Option<Seq<Seq<char>>>) -> Seq<char> {
    match stack_trace {
        Some(frames) => ",\"stackTrace\":["@ + frames_json(frames) + "]"@,
        None => Seq::empty(),
    }
}

/// An error report as JSON text: an object with the members `errorMessage`
/// and `errorType`, each once, and `stackTrace` where the report has one.
pub open spec fn error_response_json(report: ErrorResponseView) -> Seq<char> {
    "{\"errorMessage\":"@ + json_quoted(report.error_message) + ",\"errorType\":"@ + json_quoted(
        report.error_type,
    ) + stack_trace_json(report.stack_trace) + "}"@
}

/// Writes an error report as JSON text.
pub fn error_response_to_json(report: &ErrorResponse) -> (r: String)
    ensures
        r@ == error_response_json(report@),
{
    let mut out = String::from_str("{\"errorMessage\":");
    out.append(quote(report.error_message.as_str()).as_str());
    out.append(",\"errorType\":");
    out.append(quote(report.error_type.as_str()).as_str());
    match &report.stack_trace {
        Some(frames) => {
            out.append(",\"stackTrace\":[");
            let ghost head = out@;
            let ghost all = crate::error::frames_view(frames@);
            let mut i: usize = 0;
            assert(all.subrange(0, 0) =~= Seq::<Seq<char>>::empty());
            while i < frames.len()
                invariant
                    i <= frames@.len(),
                    all == crate::error::frames_view(frames@),
                    out@ == head + frames_json(all.subrange(0, i as int)),
                decreases frames@.len() - i,
            {
                proof {
                    let next = all.subrange(0, i + 1);
                    assert(next.drop_last() =~= all.subrange(0, i as int));
                    assert(next.last() == frames@[i as int]@);
                    if i > 0 {
                        assert(out@ + ","@ + json_quoted(frames@[i as int]@) =~= head + (
                        frames_json(all.subrange(0, i as int)) + ","@ + json_quoted(
                            frames@[i as int]@,
                        )));
                    } else {
                        assert(next.len() == 1);
                        assert(next[0] == frames@[i as int]@);
                        assert(out@ + json_quoted(frames@[i as int]@) =~= head + json_quoted(
                            frames@[i as int]@,
                        ));
                    }
                }
                if i > 0 {
                    out.append(",");
                }
                out.append(quote(frames[i].as_str()).as_str());
                i += 1;
            }
            assert(all.subrange(0, i as int) =~= all);
            out.append("]");
            proof {
                assert(out@ =~= "{\"errorMessage\":"@ + json_quoted(report@.error_message)
                    + ",\"errorType\":"@ + json_quoted(report@.error_type) + (",\"stackTrace\":["@
                    + frames_json(all) + "]"@));
            }
        },
        None => {
            assert(out@ + Seq::<char>::empty() =~= out@);
        },
    }
    out.append("}");
    out
}

} // verus!
