//! The error documents that clients receive.

use serde_json::Value;
use vstd::prelude::*;

use crate::json;
use crate::json::{
    json_parse, json_tree, lemma_object_number_free, lemma_object_readable, nesting_limit,
    number_free, readable, JsonTree,
};

verus! {

/// An error answer: an HTTP status, an error code, a message, and the content of the `Retry-After`
/// header where there is one.
#[derive(Debug)]
pub struct ErrorReply {
    pub status: u16,
    pub code: String,
    pub message: String,
    pub retry_after: Option<String>,
}

/// What an `ErrorReply` says.
#[verifier::ext_equal]
pub struct ErrorReplyView {
    pub status: u16,
    pub code: Seq<char>,
    pub message: Seq<char>,
    pub retry_after: Option<Seq<char>>,
}

impl View for ErrorReply {
    type V = ErrorReplyView;

    open spec fn view(&self) -> ErrorReplyView {
        ErrorReplyView {
            status: self.status,
            code: self.code@,
            message: self.message@,
            retry_after: match self.retry_after {
                Some(text) => Some(text@),
                None => None,
            },
        }
    }
}

/// An error answer that does not ask the client to come back.
pub open spec fn final_error(status: u16, code: Seq<char>, message: Seq<char>) -> ErrorReplyView {
    ErrorReplyView { status, code, message, retry_after: None }
}

/// The body of an error answer: the error document of the OpenAI API.
pub open spec fn error_tree(reply: ErrorReplyView) -> JsonTree {
    JsonTree::Object(
        map![
            "error"@ => JsonTree::Object(
                map![
                    "message"@ => JsonTree::Text(reply.message),
                    "type"@ => JsonTree::Text(reply.code),
                    "param"@ => JsonTree::Null,
                    "code"@ => JsonTree::Text(reply.code),
                ],
            ),
        ],
    )
}

/// Makes an error answer.
pub fn openai_error(
    status: u16,
    code: &str,
    message: String,
    retry_after: Option<&str>,
) -> (r: ErrorReply)
    ensures
        r@ == (ErrorReplyView {
            status,
            code: code@,
            message: message@,
            retry_after: match retry_after {
                Some(text) => Some(text@),
                None => None,
            },
        }),
{
    ErrorReply {
        status,
        code: code.to_string(),
        message,
        retry_after: match retry_after {
            Some(text) => Some(text.to_string()),
            None => None,
        },
    }
}

impl ErrorReply {
    /// The body of the answer.
    pub fn body(&self) -> (r: Value)
        ensures
            json_tree(r) == error_tree(self@),
    {
        let mut error = json::null();
        json::set_field(&mut error, "message", json::string(self.message.as_str()));
        json::set_field(&mut error, "type", json::string(self.code.as_str()));
        json::set_field(&mut error, "param", json::null());
        json::set_field(&mut error, "code", json::string(self.code.as_str()));
        let mut body = json::null();
        json::set_field(&mut body, "error", error);
        body
    }

    /// The body of the answer as it is sent: reading that gives the same document.
    pub fn to_text(&self) -> (r: String)
        ensures
            json_parse(r@) == Ok::<JsonTree, Seq<char>>(error_tree(self@)),
    {
        proof {
            lemma_error_exact(self@);
        }
        json::document_text(&self.body())
    }
}

proof fn lemma_error_exact(reply: ErrorReplyView)
    ensures
        readable(error_tree(reply), nesting_limit()),
        number_free(error_tree(reply), nesting_limit()),
{
    let error = error_tree(reply)->Object_0["error"@];
    lemma_object_readable(error->Object_0, 126);
    lemma_object_number_free(error->Object_0, 126);
    lemma_object_readable(error_tree(reply)->Object_0, 127);
    lemma_object_number_free(error_tree(reply)->Object_0, 127);
}

proof fn lemma_error_names_differ()
    ensures
        "message"@ != "type"@,
        "message"@ != "param"@,
        "message"@ != "code"@,
        "type"@ != "param"@,
        "type"@ != "code"@,
        "param"@ != "code"@,
{
    reveal_strlit("message");
    reveal_strlit("type");
    reveal_strlit("param");
    reveal_strlit("code");
    assert("type"@[0] != "code"@[0]);
    assert("message"@.len() == 7);
    assert("type"@.len() == 4);
    assert("param"@.len() == 5);
    assert("code"@.len() == 4);
}

/// An error answer says what it was made with: the status, the code, the message, and when to come
/// back. Its body is an error document with that message, and with the code as its type and code; what
/// is sent reads as that document.
pub proof fn error_answer_says_what_it_is_about(
    status: u16,
    code: &str,
    message: String,
    retry_after: Option<&str>,
    reply: ErrorReply,
    body: Value,
    sent: String,
)
    requires
        call_ensures(openai_error, (status, code, message, retry_after), reply),
        call_ensures(ErrorReply::body, (&reply,), body),
        call_ensures(ErrorReply::to_text, (&reply,), sent),
    ensures
        json_parse(sent@) == Ok::<JsonTree, Seq<char>>(json_tree(body)),
        reply.status == status,
        reply.code@ == code@,
        reply.message@ == message@,
        retry_after matches Some(text) ==> (reply.retry_after matches Some(told) && told@ == text@),
        retry_after is None ==> reply.retry_after is None,
        json_tree(body) matches JsonTree::Object(fields) && {
            &&& fields.dom() == set!["error"@]
            &&& fields["error"@] matches JsonTree::Object(error)
            &&& error.dom() == set!["message"@, "type"@, "param"@, "code"@]
            &&& error["message"@] == JsonTree::Text(message@)
            &&& error["type"@] == JsonTree::Text(code@)
            &&& error["param"@] == JsonTree::Null
            &&& error["code"@] == JsonTree::Text(code@)
        },
{
    lemma_error_names_differ();
    let fields = json_tree(body)->Object_0;
    assert(fields.dom() =~= set!["error"@]);
    assert(fields["error"@]->Object_0.dom() =~= set!["message"@, "type"@, "param"@, "code"@]);
}

/// An error that is final does not ask the client to come back.
pub proof fn final_error_asks_for_nothing(status: u16, code: Seq<char>, message: Seq<char>)
    ensures
        ({
            let reply = final_error(status, code, message);
            reply.status == status && reply.code == code && reply.message == message
                && reply.retry_after is None
        }),
{
}

} // verus!
