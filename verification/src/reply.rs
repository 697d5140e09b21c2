//! Replies: the JSON texts that go back to the caller, and the error texts in them.
use vstd::prelude::*;
use crate::json::{
    JsonTree, json_bool, json_object, json_set, json_str, json_text, json_to_string, json_tree,
    member, members,
};
use crate::text::chars_of;

verus! {

/// The document of a request that succeeded: the payload, marked `ok`.
pub open spec fn success_tree(payload: JsonTree) -> JsonTree {
    JsonTree::Object(members(payload).insert("ok"@, JsonTree::Bool(true)))
}

/// The document of a request that failed: marked not `ok`, with a code and an error text.
pub open spec fn error_tree(code: Seq<char>, message: Seq<char>) -> JsonTree {
    JsonTree::Object(
        Map::empty().insert("ok"@, JsonTree::Bool(false)).insert(
            "code"@,
            JsonTree::Text(code),
        ).insert("error"@, JsonTree::Text(message)),
    )
}

/// The reply to a request that succeeded with `payload`, an object (or `null`, for no members).
pub fn ok(payload: serde_json::Value) -> (reply: String)
    requires
        json_tree(payload) is Object || json_tree(payload) is Null,
    ensures
        reply@ == json_text(success_tree(json_tree(payload))),
        !reply@.contains('\0'),
{
    let mut payload = payload;
    json_set(&mut payload, "ok", json_bool(true));
    json_to_string(&payload)
}

/// The reply to a request that failed.
pub fn err(code: &str, message: &str) -> (reply: String)
    ensures
        reply@ == json_text(error_tree(code@, message@)),
        !reply@.contains('\0'),
{
    let mut document = json_object();
    json_set(&mut document, "ok", json_bool(false));
    json_set(&mut document, "code", json_str(code));
    json_set(&mut document, "error", json_str(message));
    json_to_string(&document)
}

/// The text that is handed out as a C string in place of `text`: the text itself or, since a C
/// string cannot hold a NUL, an error reply if there is one in it.
pub open spec fn c_string_text(text: Seq<char>) -> Seq<char> {
    if text.contains('\0') {
        json_text(error_tree("epic-native-nul"@, "response contained NUL"@))
    } else {
        text
    }
}

/// The text that is handed out as a C string: never one with a NUL in it.
pub fn c_string(text: String) -> (r: String)
    ensures
        r@ == c_string_text(text@),
        !r@.contains('\0'),
{
    let chars = chars_of(text.as_str());
    let mut i: usize = 0;
    while i < chars.len()
        invariant
            i <= chars.len(),
            chars@ == text@,
            forall|j: int| 0 <= j < i ==> #[trigger] chars@[j] != '\0',
        decreases chars.len() - i,
    {
        if chars[i] == '\0' {
            assert(text@.contains(text@[i as int]));
            return err("epic-native-nul", "response contained NUL");
        }
        i = i + 1;
    }
    text
}

/// A text without a NUL, as every reply is, is handed out as it is.
pub proof fn law_replies_pass_as_c_strings(reply: Seq<char>)
    requires
        !reply.contains('\0'),
    ensures
        c_string_text(reply) == reply,
{
}

/// The reply to a request whose pointer is null.
pub fn null_request() -> (reply: String)
    ensures
        reply@ == json_text(error_tree("epic-native-null-request"@, "request pointer is null"@)),
        !reply@.contains('\0'),
{
    err("epic-native-null-request", "request pointer is null")
}

/// The reply to a request that is not UTF-8; `message` says where it stops being so.
pub fn utf8_request(message: &str) -> (reply: String)
    ensures
        reply@ == json_text(error_tree("epic-native-utf8-request"@, message@)),
        !reply@.contains('\0'),
{
    err("epic-native-utf8-request", message)
}

/// A reply says whether the request succeeded: `ok` is `true` in every document of a success,
/// whatever the payload holds, and `false` in every document of a failure, which also carries
/// the code and the error text.
pub proof fn law_reply_tells_success_from_failure(
    payload: JsonTree,
    code: Seq<char>,
    message: Seq<char>,
)
    ensures
        member(success_tree(payload), "ok"@) == Some(JsonTree::Bool(true)),
        member(error_tree(code, message), "ok"@) == Some(JsonTree::Bool(false)),
        member(error_tree(code, message), "code"@) == Some(JsonTree::Text(code)),
        member(error_tree(code, message), "error"@) == Some(JsonTree::Text(message)),
{
    reveal_strlit("ok");
    reveal_strlit("code");
    reveal_strlit("error");
    assert("ok"@.len() == 2 && "code"@.len() == 4 && "error"@.len() == 5);
}

/// A success keeps every member of its payload but `ok`.
pub proof fn law_success_keeps_the_payload(payload: JsonTree, key: Seq<char>)
    requires
        key != "ok"@,
    ensures
        member(success_tree(payload), key) == member(payload, key),
{
}

/// A failure is marked so and says its code and its error text, and nothing more.
pub proof fn law_failures_say_nothing_more(code: Seq<char>, message: Seq<char>, key: Seq<char>)
    requires
        key != "ok"@,
        key != "code"@,
        key != "error"@,
    ensures
        member(error_tree(code, message), key) is None,
{
}

/// A text with a NUL in it, wherever it is, is never handed out: the caller gets a failure that
/// says so.
pub proof fn law_a_nul_is_never_handed_out(before: Seq<char>, behind: Seq<char>)
    ensures
        c_string_text(before.push('\0') + behind) == json_text(
            error_tree("epic-native-nul"@, "response contained NUL"@),
        ),
{
    let text = before.push('\0') + behind;
    assert(text[before.len() as int] == '\0');
}

} // verus!
