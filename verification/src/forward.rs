//! Forwarding a request to the backend and answering in the name of the model alias.

use serde_json::Value;
use vstd::prelude::*;

use crate::http_error::{final_error, openai_error, ErrorReply, ErrorReplyView};
use crate::json;
use crate::json::{
    alike, json_parse, json_text, json_tree, lemma_field_readable, lemma_object_readable, moderate,
    nesting_limit, readable, JsonTree,
};
use crate::numeral::{decimal, decimal_text};
use crate::text;
use crate::text::{begins_with, joined, occurs, pieces, without_return};

verus! {

/// The text that a JSON document with a model name holds.
pub open spec fn model_mark() -> Seq<char> {
    "\"model\""@
}

/// A document with the value of its `model` field replaced. A document without such a field stays
/// as it is.
pub open spec fn with_model(tree: JsonTree, alias: Seq<char>) -> JsonTree {
    match tree {
        JsonTree::Object(fields) => if fields.contains_key("model"@) {
            JsonTree::Object(fields.insert("model"@, JsonTree::Text(alias)))
        } else {
            tree
        },
        _ => tree,
    }
}

/// A JSON text with the value of its `model` field replaced. A text that does not speak of a model,
/// or that is not JSON, stays as it is.
pub open spec fn relabelled_text(text: Seq<char>, alias: Seq<char>) -> Seq<char> {
    if occurs(text, model_mark()) {
        match json_parse(text) {
            Ok(tree) => json_text(with_model(tree, alias)),
            Err(_) => text,
        }
    } else {
        text
    }
}

/// The JSON text of a line: what follows the `data: ` of a server-sent event, or the whole line,
/// without the carriage return at its end.
pub open spec fn payload(line: Seq<char>) -> Seq<char> {
    let clean = without_return(line);
    if begins_with(clean, "data: "@) {
        clean.skip("data: "@.len() as int)
    } else {
        clean
    }
}

/// A line with its JSON text relabelled.
pub open spec fn rewritten_line(line: Seq<char>, alias: Seq<char>) -> Seq<char> {
    let clean = without_return(line);
    let text = relabelled_text(payload(line), alias);
    let fresh = if begins_with(clean, "data: "@) {
        "data: "@ + text
    } else {
        text
    };
    if clean.len() < line.len() {
        fresh.push('\r')
    } else {
        fresh
    }
}

/// A body with each of its lines rewritten.
pub open spec fn rewritten_body(body: Seq<char>, alias: Seq<char>) -> Seq<char> {
    if occurs(body, model_mark()) {
        joined(rewritten_lines(body, alias), '\n')
    } else {
        body
    }
}

/// The lines of a body, rewritten.
pub open spec fn rewritten_lines(body: Seq<char>, alias: Seq<char>) -> Seq<Seq<char>> {
    pieces(body, '\n').map_values(|line: Seq<char>| rewritten_line(line, alias))
}

/// Whether `after` names the model by its alias wherever `before` is a JSON object that names a
/// model, and says the rest as `before` did. (Documents that are too deep to be read, or with
/// numbers about to overflow, are left out.)
pub open spec fn carries_alias(before: Seq<char>, after: Seq<char>, alias: Seq<char>) -> bool {
    json_parse(before) matches Ok(JsonTree::Object(fields)) ==> {
        &&& fields.contains_key("model"@)
        &&& occurs(before, model_mark())
        &&& moderate(JsonTree::Object(fields), nesting_limit())
    } ==> {
        &&& json_parse(after) matches Ok(JsonTree::Object(renamed))
        &&& renamed.dom() == fields.dom()
        &&& renamed["model"@] == JsonTree::Text(alias)
        &&& forall|k: Seq<char>| #[trigger] fields.contains_key(k) && k != "model"@ ==> alike(
            fields[k],
            renamed[k],
            (nesting_limit() - 1) as nat,
        )
    }
}

/// Whether `after` reads as `before` with its model renamed, wherever `before` is a JSON text that
/// speaks of a model: nothing else is said differently. (Documents with numbers about to overflow
/// are left out.)
pub open spec fn reads_relabelled(before: Seq<char>, after: Seq<char>, alias: Seq<char>) -> bool {
    occurs(before, model_mark()) && json_parse(before) is Ok && moderate(
        json_parse(before)->Ok_0,
        nesting_limit(),
    ) ==> {
        &&& json_parse(after) is Ok
        &&& alike(
            with_model(json_parse(before)->Ok_0, alias),
            json_parse(after)->Ok_0,
            nesting_limit(),
        )
    }
}

/// A field that is a text makes an object no deeper and adds no number to it.
proof fn lemma_text_field(fields: Map<Seq<char>, JsonTree>, key: Seq<char>, text: Seq<char>)
    requires
        readable(JsonTree::Object(fields), nesting_limit()),
    ensures
        readable(JsonTree::Object(fields.insert(key, JsonTree::Text(text))), nesting_limit()),
{
    let fresh = fields.insert(key, JsonTree::Text(text));
    assert forall|k: Seq<char>| fresh.contains_key(k) implies readable(
        #[trigger] fresh[k],
        (nesting_limit() - 1) as nat,
    ) by {
        if k != key {
            lemma_field_readable(fields, k, nesting_limit());
        }
    }
    lemma_object_readable(fresh, nesting_limit());
}

/// What reads like an object with a renamed model is one, and its other fields are as they were.
proof fn lemma_alias_carried(fields: Map<Seq<char>, JsonTree>, alias: Seq<char>, read: JsonTree)
    requires
        fields.contains_key("model"@),
        alike(
            JsonTree::Object(fields.insert("model"@, JsonTree::Text(alias))),
            read,
            nesting_limit(),
        ),
    ensures
        read is Object,
        read->Object_0.dom() == fields.dom(),
        read->Object_0["model"@] == JsonTree::Text(alias),
        forall|k: Seq<char>| #[trigger]
            fields.contains_key(k) && k != "model"@ ==> alike(
                fields[k],
                read->Object_0[k],
                (nesting_limit() - 1) as nat,
            ),
{
    let renamed = fields.insert("model"@, JsonTree::Text(alias));
    let below = (nesting_limit() - 1) as nat;
    assert(renamed.dom() =~= fields.dom());
    assert(alike(renamed["model"@], read->Object_0["model"@], below));
    assert forall|k: Seq<char>| #[trigger] fields.contains_key(k) && k != "model"@ implies alike(
        fields[k],
        read->Object_0[k],
        below,
    ) by {
        assert(renamed.contains_key(k));
        assert(renamed[k] == fields[k]);
    }
}

/// A document with the value of its `model` field replaced by the alias.
pub fn relabel(value: Value, alias: &str) -> (r: Value)
    ensures
        json_tree(r) == with_model(json_tree(value), alias@),
{
    let named = match json::field(&value, "model") {
        Some(_) => true,
        None => false,
    };
    let mut value = value;
    if named {
        json::set_field(&mut value, "model", json::string(alias));
    }
    value
}

/// A JSON text with the value of its `model` field replaced by the alias.
pub fn relabel_text(text: &str, alias: &str) -> (r: String)
    ensures
        r@ == relabelled_text(text@, alias@),
        !text@.contains('\n') ==> !r@.contains('\n'),
        r@ == text@ || !r@.contains('\r'),
        r@ == text@ || (r@.len() > 0 && r@[0] != 'd'),
        carries_alias(text@, r@, alias@),
        reads_relabelled(text@, r@, alias@),
{
    if !text::contains(text, "\"model\"") {
        return text.to_string();
    }
    match json::parse_json(text) {
        Ok(value) => {
            let ghost tree = json_tree(value);
            let renamed = relabel(value, alias);
            match json::print_json(&renamed) {
                Ok(rewritten) => {
                    proof {
                        if tree is Object && tree->Object_0.contains_key("model"@) && moderate(
                            tree,
                            nesting_limit(),
                        ) {
                            lemma_text_field(tree->Object_0, "model"@, alias@);
                            lemma_alias_carried(
                                tree->Object_0,
                                alias@,
                                json_parse(rewritten@)->Ok_0,
                            );
                        }
                    }
                    rewritten
                },
                Err(_) => text.to_string(),
            }
        },
        Err(_) => text.to_string(),
    }
}

/// A line with its JSON text relabelled.
pub fn rewrite_line(line: &str, alias: &str) -> (r: String)
    ensures
        r@ == rewritten_line(line@, alias@),
        !line@.contains('\n') ==> !r@.contains('\n'),
        carries_alias(payload(line@), payload(r@), alias@),
        reads_relabelled(payload(line@), payload(r@), alias@),
{
    let chars = text::chars_of(line);
    let returned = chars.len() > 0 && chars[chars.len() - 1] == '\r';
    let end: usize = if returned {
        chars.len() - 1
    } else {
        chars.len()
    };
    let clean = text::text_of(&chars, 0, end);
    assert(clean@ =~= without_return(line@));
    let ghost body = payload(line@);
    let ghost fresh_body: Seq<char>;
    let mut fresh;
    proof {
        reveal_strlit("data: ");
        if !line@.contains('\n') {
            assert forall|i: int| 0 <= i < body.len() implies body[i] != '\n' by {
                let shift: int = if begins_with(clean@, "data: "@) {
                    6
                } else {
                    0
                };
                assert(body[i] == line@[i + shift]);
            }
        }
    }
    match text::strip_prefix(clean.as_str(), "data: ") {
        Some(data) => {
            let renamed = relabel_text(data.as_str(), alias);
            proof {
                fresh_body = renamed@;
            }
            fresh = "data: ".to_string().concat(renamed.as_str());
        },
        None => {
            fresh = relabel_text(clean.as_str(), alias);
            proof {
                fresh_body = fresh@;
            }
        },
    }
    let ghost kept = fresh@;
    if returned {
        fresh.push('\r');
    }
    proof {
        if !line@.contains('\n') {
            assert forall|i: int| 0 <= i < fresh@.len() implies fresh@[i] != '\n' by {
                if i < kept.len() {
                    if begins_with(clean@, "data: "@) && i >= 6 {
                        assert(kept[i] == fresh_body[i - 6]);
                        assert(!fresh_body.contains('\n'));
                    } else if !begins_with(clean@, "data: "@) {
                        assert(kept[i] == fresh_body[i]);
                    }
                }
            }
        }
        // The carriage return that was put back is the one that `payload` takes off again.
        if returned {
            assert(fresh@.drop_last() =~= kept);
        } else if kept.len() > 0 && kept.last() == '\r' {
            if fresh_body.len() > 0 {
                assert(kept.last() == fresh_body.last());
                assert(fresh_body.contains(fresh_body.last()));
                assert(fresh_body == body);
                assert(body.last() == clean@.last());
                assert(false);
            }
        }
        assert(without_return(fresh@) == kept);
        if begins_with(clean@, "data: "@) {
            assert(kept.subrange(0, 6) =~= "data: "@);
            assert(kept.skip(6) =~= fresh_body);
        } else if begins_with(kept, "data: "@) {
            assert(kept.subrange(0, 6)[0] == 'd');
        }
    }
    fresh
}

/// What does not speak of a model has no line that does.
proof fn lemma_no_mark_in_lines(body: Seq<char>)
    requires
        !occurs(body, model_mark()),
    ensures
        forall|i: int|
            0 <= i < pieces(body, '\n').len() ==> !occurs(
                payload(#[trigger] pieces(body, '\n')[i]),
                model_mark(),
            ),
{
    text::lemma_pieces_occur(body, '\n');
    assert forall|i: int| 0 <= i < pieces(body, '\n').len() implies !occurs(
        payload(#[trigger] pieces(body, '\n')[i]),
        model_mark(),
    ) by {
        let line = pieces(body, '\n')[i];
        let clean = without_return(line);
        let text = payload(line);
        let from = clean.len() - text.len();
        assert(line.subrange(0, clean.len() as int) =~= clean);
        assert(text::occurs_at(line, clean, 0));
        assert(clean.subrange(from, clean.len() as int) =~= text);
        assert(text::occurs_at(clean, text, from));
        if occurs(text, model_mark()) {
            text::lemma_occurs_within(clean, text, model_mark());
            text::lemma_occurs_within(line, clean, model_mark());
            text::lemma_occurs_within(body, line, model_mark());
        }
    }
}

/// A response body, or a chunk of a stream of events, in which each line names the model by its
/// alias.
pub fn rewrite_model_alias(body: &str, alias: &str) -> (r: String)
    ensures
        r@ == rewritten_body(body@, alias@),
        pieces(r@, '\n').len() == pieces(body@, '\n').len(),
        forall|i: int|
            0 <= i < pieces(body@, '\n').len() ==> {
                let before = payload(#[trigger] pieces(body@, '\n')[i]);
                let after = payload(pieces(r@, '\n')[i]);
                carries_alias(before, after, alias@) && reads_relabelled(before, after, alias@)
            },
{
    if !text::contains(body, "\"model\"") {
        proof {
            lemma_no_mark_in_lines(body@);
        }
        return body.to_string();
    }
    let lines = text::split(body, '\n');
    let ghost before = pieces(body@, '\n');
    proof {
        text::lemma_pieces(body@, '\n');
    }
    let mut out: Vec<String> = Vec::new();
    let mut i: usize = 0;
    while i < lines.len()
        invariant
            i <= lines.len(),
            out.len() == i,
            before == lines@.map_values(|l: String| l@),
            forall|j: int| 0 <= j < before.len() ==> !(#[trigger] before[j]).contains('\n'),
            forall|j: int|
                0 <= j < i ==> {
                    &&& (#[trigger] out@[j])@ == rewritten_line(before[j], alias@)
                    &&& !out@[j]@.contains('\n')
                    &&& carries_alias(payload(before[j]), payload(out@[j]@), alias@)
                    &&& reads_relabelled(payload(before[j]), payload(out@[j]@), alias@)
                },
        decreases lines.len() - i,
    {
        assert(before[i as int] == lines@[i as int]@);
        out.push(rewrite_line(lines[i].as_str(), alias));
        i += 1;
    }
    let r = text::join(&out, '\n');
    proof {
        let after = out@.map_values(|l: String| l@);
        assert(after =~= rewritten_lines(body@, alias@));
        assert forall|j: int| 0 <= j < after.len() implies !(#[trigger] after[j]).contains(
            '\n',
        ) by {
            assert(after[j] == out@[j]@);
        }
        text::joined_pieces(after, '\n');
        assert forall|j: int| 0 <= j < before.len() implies {
            &&& carries_alias(payload(#[trigger] before[j]), payload(pieces(r@, '\n')[j]), alias@)
            &&& reads_relabelled(payload(before[j]), payload(pieces(r@, '\n')[j]), alias@)
        } by {
            assert(pieces(r@, '\n')[j] == out@[j]@);
        }
    }
    r
}

/// Where the backend listens, on this side of the tunnel.
#[derive(Clone, Copy, Debug)]
pub struct ForwardConfig {
    pub port: u16,
}

/// Why a request could not be forwarded.
#[derive(Debug)]
pub enum ForwardError {
    UpstreamUnreachable,
    UpstreamError(u16, String),
    Cancelled,
    EmbeddingsUnsupported,
}

/// What a `ForwardError` says.
#[verifier::ext_equal]
pub enum ForwardErrorView {
    UpstreamUnreachable,
    UpstreamError(u16, Seq<char>),
    Cancelled,
    EmbeddingsUnsupported,
}

impl View for ForwardError {
    type V = ForwardErrorView;

    open spec fn view(&self) -> ForwardErrorView {
        match *self {
            ForwardError::UpstreamUnreachable => ForwardErrorView::UpstreamUnreachable,
            ForwardError::UpstreamError(status, message) => ForwardErrorView::UpstreamError(
                status,
                message@,
            ),
            ForwardError::Cancelled => ForwardErrorView::Cancelled,
            ForwardError::EmbeddingsUnsupported => ForwardErrorView::EmbeddingsUnsupported,
        }
    }
}

impl Clone for ForwardError {
    fn clone(&self) -> (r: ForwardError)
        ensures
            r == *self,
    {
        match self {
            ForwardError::UpstreamUnreachable => ForwardError::UpstreamUnreachable,
            ForwardError::UpstreamError(status, message) => ForwardError::UpstreamError(
                *status,
                message.clone(),
            ),
            ForwardError::Cancelled => ForwardError::Cancelled,
            ForwardError::EmbeddingsUnsupported => ForwardError::EmbeddingsUnsupported,
        }
    }
}

/// The answer to a client whose request could not be forwarded.
pub open spec fn forward_error_reply(error: ForwardErrorView) -> ErrorReplyView {
    match error {
        ForwardErrorView::UpstreamUnreachable => final_error(
            503,
            "backend_unavailable"@,
            "upstream backend is not reachable"@,
        ),
        ForwardErrorView::UpstreamError(_, message) => final_error(
            503,
            "upstream_error"@,
            message,
        ),
        ForwardErrorView::Cancelled => final_error(
            503,
            "request_cancelled"@,
            "request was cancelled"@,
        ),
        ForwardErrorView::EmbeddingsUnsupported => final_error(
            400,
            "unsupported_embeddings"@,
            "upstream backend does not support embeddings"@,
        ),
    }
}

/// A request that failed on its way: whether no connection was made or time ran out, the HTTP
/// status if there was one, and a description.
#[derive(Debug)]
pub struct TransportFailure {
    pub connect: bool,
    pub timeout: bool,
    pub status: Option<u16>,
    pub message: String,
}

impl Clone for TransportFailure {
    fn clone(&self) -> (r: TransportFailure)
        ensures
            r == *self,
    {
        TransportFailure {
            connect: self.connect,
            timeout: self.timeout,
            status: self.status,
            message: self.message.clone(),
        }
    }
}

/// A request that failed on its way, as an error of forwarding.
pub open spec fn transport_error(failure: TransportFailure) -> ForwardErrorView {
    if failure.connect || failure.timeout {
        ForwardErrorView::UpstreamUnreachable
    } else {
        ForwardErrorView::UpstreamError(
            match failure.status {
                Some(status) => status,
                None => 502,
            },
            failure.message@,
        )
    }
}

impl ForwardError {
    /// The answer to the client.
    pub fn to_openai(self) -> (r: ErrorReply)
        ensures
            r@ == forward_error_reply(self@),
    {
        match self {
            ForwardError::UpstreamUnreachable => openai_error(
                503,
                "backend_unavailable",
                "upstream backend is not reachable".to_string(),
                None,
            ),
            ForwardError::UpstreamError(_, message) => openai_error(
                503,
                "upstream_error",
                message,
                None,
            ),
            ForwardError::Cancelled => openai_error(
                503,
                "request_cancelled",
                "request was cancelled".to_string(),
                None,
            ),
            ForwardError::EmbeddingsUnsupported => openai_error(
                400,
                "unsupported_embeddings",
                "upstream backend does not support embeddings".to_string(),
                None,
            ),
        }
    }

    /// The error for a request that failed on its way.
    pub fn from_transport(failure: TransportFailure) -> (r: ForwardError)
        ensures
            r@ == transport_error(failure),
    {
        if failure.connect || failure.timeout {
            ForwardError::UpstreamUnreachable
        } else {
            let status: u16 = match failure.status {
                Some(status) => status,
                None => 502,
            };
            ForwardError::UpstreamError(status, failure.message)
        }
    }
}

/// The address of `path` at the backend.
pub open spec fn upstream_url(port: u16, path: Seq<char>) -> Seq<char> {
    "http://127.0.0.1:"@ + decimal(port as nat) + path
}

impl ForwardConfig {
    /// The address of `path` at the backend.
    pub fn url(&self, path: &str) -> (r: String)
        ensures
            r@ == upstream_url(self.port, path@),
    {
        "http://127.0.0.1:".to_string().concat(decimal_text(self.port as u64).as_str()).concat(path)
    }
}

/// Whether an HTTP status means success.
pub open spec fn success(status: u16) -> bool {
    200 <= status < 300
}

/// What becomes of the answer to a request that is not streamed: the body for the client, or the
/// error.
pub open spec fn answer(
    path: Seq<char>,
    status: u16,
    body: Seq<char>,
    alias: Seq<char>,
) -> Result<Seq<char>, ForwardErrorView> {
    if success(status) {
        Ok(rewritten_body(body, alias))
    } else if status == 404 && begins_with(path, "/v1/embeddings"@) {
        Err(ForwardErrorView::EmbeddingsUnsupported)
    } else {
        Err(ForwardErrorView::UpstreamError(status, body))
    }
}

/// What becomes of the answer to a request that is not streamed. The body for the client is sent
/// with status 200 as `application/json`.
pub fn non_streaming_answer(path: &str, status: u16, body: String, alias: &str) -> (r: Result<
    String,
    ForwardError,
>)
    ensures
        match r {
            Ok(text) => answer(path@, status, body@, alias@) == Ok::<Seq<char>, ForwardErrorView>(
                text@,
            ),
            Err(error) => answer(path@, status, body@, alias@) == Err::<
                Seq<char>,
                ForwardErrorView,
            >(error@),
        },
{
    if status < 200 || status >= 300 {
        if status == 404 && text::starts_with(path, "/v1/embeddings") {
            return Err(ForwardError::EmbeddingsUnsupported);
        }
        return Err(ForwardError::UpstreamError(status, body));
    }
    Ok(rewrite_model_alias(body.as_str(), alias))
}

/// Whether the answer to a streamed request is relayed: its chunks are rewritten and sent with
/// status 200 as `text/event-stream` unless the backend refused the request.
pub fn streaming_refusal(status: u16, body: String) -> (r: Option<ForwardError>)
    ensures
        success(status) ==> r is None,
        !success(status) ==> r is Some && r->0@ == ForwardErrorView::UpstreamError(status, body@),
{
    if status < 200 || status >= 300 {
        Some(ForwardError::UpstreamError(status, body))
    } else {
        None
    }
}

/// A chunk of a stream of events in which each line names the model by its alias.
pub fn rewrite_chunk(bytes: &[u8], alias: &str) -> (r: Vec<u8>)
    ensures
        r@ == vstd::utf8::encode_utf8(rewritten_body(text::utf8_lossy(bytes@), alias@)),
        vstd::utf8::valid_utf8(bytes@) && !occurs(vstd::utf8::decode_utf8(bytes@), model_mark())
            ==> r@ == bytes@,
{
    let chunk = text::from_utf8_lossy(bytes);
    proof {
        if vstd::utf8::valid_utf8(bytes@) {
            vstd::utf8::decode_utf8_encode_utf8(bytes@);
        }
    }
    rewrite_model_alias(chunk.as_str(), alias).as_str().as_bytes_vec()
}

/// A text that does not speak of a model reaches the client as it is.
pub proof fn unnamed_body_unchanged(body: Seq<char>, alias: Seq<char>)
    requires
        !occurs(body, model_mark()),
    ensures
        rewritten_body(body, alias) == body,
{
}

/// A line whose JSON text does not speak of a model, or is not JSON, stays as it is, whatever
/// stands around it.
pub proof fn unnamed_line_unchanged(line: Seq<char>, alias: Seq<char>)
    requires
        !occurs(payload(line), model_mark()) || json_parse(payload(line)) is Err,
    ensures
        rewritten_line(line, alias) == line,
{
    let clean = without_return(line);
    if begins_with(clean, "data: "@) {
        assert("data: "@ + clean.skip("data: "@.len() as int) =~= clean);
    }
    assert(clean.len() < line.len() ==> clean.push('\r') =~= line);
}

/// Only a missing embeddings endpoint makes the backend count as one without embeddings.
pub proof fn unsupported_only_for_missing_embeddings(
    path: Seq<char>,
    status: u16,
    body: Seq<char>,
    alias: Seq<char>,
)
    ensures
        answer(path, status, body, alias) == Err::<Seq<char>, ForwardErrorView>(
            ForwardErrorView::EmbeddingsUnsupported,
        ) <==> status == 404 && begins_with(path, "/v1/embeddings"@),
{
}

/// A successful answer is passed on under the name of the model; any other is an error with its status
/// and its text, except that a missing endpoint for embeddings means that there are none. Success is a
/// status from 200 to 299.
pub proof fn answers_are_passed_on(
    path: &str,
    status: u16,
    body: String,
    alias: &str,
    r: Result<String, ForwardError>,
)
    requires
        call_ensures(non_streaming_answer, (path, status, body, alias), r),
    ensures
        r is Ok <==> 200 <= status <= 299,
        r matches Ok(text) ==> text@ == rewritten_body(body@, alias@),
        r matches Err(error) ==> if status == 404 && begins_with(path@, "/v1/embeddings"@) {
            error is EmbeddingsUnsupported
        } else {
            error matches ForwardError::UpstreamError(code, text) && code == status && text@ == body@
        },
{
}

/// A stream is relayed exactly if the backend took the request; otherwise its refusal is the error.
pub proof fn streams_are_relayed_on_success(
    status: u16,
    body: String,
    r: Option<ForwardError>,
)
    requires
        call_ensures(streaming_refusal, (status, body), r),
    ensures
        r is None <==> 200 <= status <= 299,
        r matches Some(error) ==> (error matches ForwardError::UpstreamError(code, text) && code
            == status && text@ == body@),
{
}

/// A request that found no server, or none in time, did not reach the backend; any other failure is an
/// error of the backend, with its status where it had one and as a bad gateway otherwise.
pub proof fn transport_failures_are_told_apart(failure: TransportFailure, error: ForwardError)
    requires
        call_ensures(ForwardError::from_transport, (failure,), error),
    ensures
        error is UpstreamUnreachable <==> failure.connect || failure.timeout,
        !(failure.connect || failure.timeout) ==> (error matches ForwardError::UpstreamError(
            code,
            text,
        ) && text@ == failure.message@ && code == match failure.status {
            Some(status) => status,
            None => 502,
        }),
{
}

/// Every failure is reported to the client as what it is, and none asks it to come back.
pub proof fn failures_are_reported_as_what_they_are(error: ForwardError, reply: ErrorReply)
    requires
        call_ensures(ForwardError::to_openai, (error,), reply),
    ensures
        reply.retry_after is None,
        match error {
            ForwardError::UpstreamUnreachable => reply.status == 503 && reply.code@
                == "backend_unavailable"@ && reply.message@ == "upstream backend is not reachable"@,
            ForwardError::UpstreamError(_, message) => reply.status == 503 && reply.code@
                == "upstream_error"@ && reply.message@ == message@,
            ForwardError::Cancelled => reply.status == 503 && reply.code@ == "request_cancelled"@
                && reply.message@ == "request was cancelled"@,
            ForwardError::EmbeddingsUnsupported => reply.status == 400 && reply.code@
                == "unsupported_embeddings"@ && reply.message@
                == "upstream backend does not support embeddings"@,
        },
{
}

/// A request is sent to this machine, to the port of the tunnel and to the path that is asked for.
pub proof fn requests_go_through_the_tunnel(config: &ForwardConfig, path: &str, url: String)
    requires
        call_ensures(ForwardConfig::url, (config, path), url),
    ensures
        url@ == "http://127.0.0.1:"@ + decimal(config.port as nat) + path@,
{
}

/// A document that names a model names it by the alias afterwards and is otherwise as it was; any other
/// document stays as it is.
pub proof fn only_the_model_is_renamed(value: Value, alias: &str, r: Value)
    requires
        call_ensures(relabel, (value, alias), r),
    ensures
        match json_tree(value) {
            JsonTree::Object(fields) => {
                &&& json_tree(r) matches JsonTree::Object(renamed)
                &&& renamed.dom() == fields.dom()
                &&& fields.contains_key("model"@) ==> renamed["model"@] == JsonTree::Text(alias@)
                &&& forall|k: Seq<char>| #[trigger] fields.contains_key(k) && k != "model"@
                    ==> renamed[k] == fields[k]
            },
            tree => json_tree(r) == tree,
        },
{
    if json_tree(value) is Object {
        let fields = json_tree(value)->Object_0;
        assert(json_tree(r)->Object_0.dom() =~= fields.dom());
    }
}

/// The text of an event follows its mark; the end of its line is not part of it. A line is rewritten by
/// rewriting that text and nothing else.
pub proof fn events_are_rewritten_in_place(text: Seq<char>, alias: Seq<char>)
    requires
        text.len() > 0 ==> text.last() != '\r',
        !begins_with(text, "data: "@),
    ensures
        payload(text) == text,
        payload(text.push('\r')) == text,
        payload("data: "@ + text) == text,
        payload(("data: "@ + text).push('\r')) == text,
        rewritten_line(text, alias) == relabelled_text(text, alias),
        rewritten_line(text.push('\r'), alias) == relabelled_text(text, alias).push('\r'),
        rewritten_line("data: "@ + text, alias) == "data: "@ + relabelled_text(text, alias),
        rewritten_line(("data: "@ + text).push('\r'), alias) == ("data: "@ + relabelled_text(
            text,
            alias,
        )).push('\r'),
{
    reveal_strlit("data: ");
    let event = "data: "@ + text;
    assert(event.subrange(0, 6) =~= "data: "@);
    assert(event.skip(6) =~= text);
    assert(text.push('\r').drop_last() =~= text);
    assert(event.push('\r').drop_last() =~= event);
    assert(event.last() != '\r') by {
        if text.len() > 0 {
            assert(event.last() == text.last());
        }
    }
}

/// A body is rewritten line by line: as many lines come out as went in, and each is the rewritten one.
pub proof fn bodies_are_rewritten_line_by_line(body: &str, alias: &str, r: String)
    requires
        call_ensures(rewrite_model_alias, (body, alias), r),
    ensures
        occurs(body@, "\"model\""@) ==> r@ == joined(
            pieces(body@, '\n').map_values(|line: Seq<char>| rewritten_line(line, alias@)),
            '\n',
        ),
        !occurs(body@, "\"model\""@) ==> r@ == body@,
        pieces(r@, '\n').len() == pieces(body@, '\n').len(),
{
}

/// A text that speaks of a model and is JSON is printed anew with the model renamed; any other stays.
pub proof fn texts_are_relabelled(text: &str, alias: &str, r: String)
    requires
        call_ensures(relabel_text, (text, alias), r),
    ensures
        !occurs(text@, "\"model\""@) || json_parse(text@) is Err ==> r@ == text@,
        occurs(text@, "\"model\""@) ==> (json_parse(text@) matches Ok(JsonTree::Object(fields))
            ==> fields.contains_key("model"@) ==> r@ == json_text(
            JsonTree::Object(fields.insert("model"@, JsonTree::Text(alias@))),
        )),
{
}

/// A chunk of a stream is rewritten as the text that its bytes stand for.
pub proof fn chunks_are_rewritten_as_text(bytes: &[u8], alias: &str, r: Vec<u8>)
    requires
        call_ensures(rewrite_chunk, (bytes, alias), r),
    ensures
        r@ == vstd::utf8::encode_utf8(rewritten_body(text::utf8_lossy(bytes@), alias@)),
{
}

} // verus!
