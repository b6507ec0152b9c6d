//! The message the client sends over the CommonOS socket.

use vstd::prelude::*;

verus! {

/// What `serde_json` prints for a JSON object whose members are the given keys with string
/// values (inserted in order into a `serde_json::Map`).
pub uninterp spec fn json_string_object(members: Seq<(Seq<char>, Seq<char>)>) -> Seq<char>;

/// The texts of a list of string pairs.
pub open spec fn member_texts(members: Seq<(String, String)>) -> Seq<(Seq<char>, Seq<char>)> {
    members.map_values(|m: (String, String)| (m.0@, m.1@))
}

/// Builds a `serde_json::Value::Object` from three string members, inserted in order, and
/// prints it with `serde_json`'s `Display`. Trusted: the text is the named one for these
/// members.
#[verifier::external_body]
pub(crate) fn json_object_text(members: [(String, String); 3]) -> (text: String)
    ensures
        text@ == json_string_object(member_texts(members@)),
{
    let [first, second, third] = members;
    let mut object = serde_json::Map::new();
    object.insert(first.0, serde_json::Value::String(first.1));
    object.insert(second.0, serde_json::Value::String(second.1));
    object.insert(third.0, serde_json::Value::String(third.1));
    serde_json::Value::Object(object).to_string()
}

/// The socket message: a JSON object with the session `token`, the `event` name and its
/// `payload`.
pub fn socket_message(token: &str, event: &str, payload: &str) -> (message: String)
    ensures
        message@ == json_string_object(
            seq![("token"@, token@), ("event"@, event@), ("payload"@, payload@)],
        ),
{
    let members = [
        (String::from_str("token"), String::from_str(token)),
        (String::from_str("event"), String::from_str(event)),
        (String::from_str("payload"), String::from_str(payload)),
    ];
    assert(member_texts(members@) == seq![("token"@, token@), ("event"@, event@), ("payload"@, payload@)]);
    json_object_text(members)
}

} // verus!
