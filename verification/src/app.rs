//! The HTTP interface: which requests are taken, and the documents that are served.

use serde_json::Value;
use vstd::prelude::*;

use crate::config::ModelConfigView;
use crate::http_error::{final_error, openai_error, ErrorReply, ErrorReplyView};
use crate::json;
use crate::json::{
    json_tree, lemma_count_readable, lemma_list_readable, lemma_object_readable, nesting_limit,
    optional_tree, readable, JsonTree,
};
use crate::lifecycle::{
    capability_name, lifecycle_name, tunnel_name, unit_name, BackendStatusView, CapabilityState,
    LifecycleState, Timestamp, TunnelState, UnitState,
};
use crate::metrics::{counted, metrics_tree, one_more, Metrics};
use crate::numeral::decimal;
use crate::orchestrate::Orchestrator;
use crate::state::AppStateView;
use crate::text;
use crate::text::{occurs, occurs_at, position_from};

verus! {

/// A call of a tool in a message of the assistant.
#[derive(Debug)]
pub struct ToolCall {
    pub id: String,
    pub name: String,
    pub arguments: String,
}

/// A message of a chat.
#[derive(Debug)]
pub struct ChatMessage {
    pub role: String,
    pub content: Option<Value>,
    pub tool_calls: Option<Vec<ToolCall>>,
    pub tool_call_id: Option<String>,
}

/// What matters of a `ChatMessage`: its role, whether it has content, how many tool calls it makes
/// if any are given, and whether it answers one.
#[verifier::ext_equal]
pub struct MessageView {
    pub role: Seq<char>,
    pub has_content: bool,
    pub tool_calls: Option<nat>,
    pub has_tool_call_id: bool,
}

impl View for ChatMessage {
    type V = MessageView;

    open spec fn view(&self) -> MessageView {
        MessageView {
            role: self.role@,
            has_content: match self.content {
                Some(content) => !(json_tree(content) is Null),
                None => false,
            },
            tool_calls: match self.tool_calls {
                Some(calls) => Some(calls@.len()),
                None => None,
            },
            has_tool_call_id: self.tool_call_id is Some,
        }
    }
}

/// A request for the next message of a chat.
#[derive(Debug)]
pub struct ChatCompletionRequest {
    pub model: String,
    pub stream: bool,
    pub messages: Vec<ChatMessage>,
}

/// A request for embeddings.
#[derive(Debug)]
pub struct EmbeddingsRequest {
    pub model: String,
    pub input: Value,
}

/// The messages of a chat.
pub open spec fn messages_view(messages: Seq<ChatMessage>) -> Seq<MessageView> {
    messages.map_values(|m: ChatMessage| m@)
}

/// Whether a message may have this role.
pub open spec fn known_role(role: Seq<char>) -> bool {
    role == "system"@ || role == "user"@ || role == "assistant"@ || role == "tool"@ || role
        == "developer"@
}

/// The first role that no message may have.
pub open spec fn first_unknown_role(messages: Seq<MessageView>) -> Option<Seq<char>>
    decreases messages.len(),
{
    if messages.len() == 0 {
        None
    } else if !known_role(messages[0].role) {
        Some(messages[0].role)
    } else {
        first_unknown_role(messages.skip(1))
    }
}

/// What is wrong with the content of a message: only the assistant calls tools, only a tool answers
/// a call, and only a message with tool calls may be without content.
pub open spec fn message_error(message: MessageView) -> Option<Seq<char>> {
    if message.role == "assistant"@ {
        if message.has_tool_call_id {
            Some("only tool messages may include tool_call_id"@)
        } else if message.tool_calls == Some(0nat) {
            Some("assistant messages tool_calls must not be empty"@)
        } else if !message.has_content && message.tool_calls is None {
            Some("message content must not be null"@)
        } else {
            None
        }
    } else if message.tool_calls is Some {
        Some("only assistant messages may include tool_calls"@)
    } else if message.role == "tool"@ && !message.has_tool_call_id {
        Some("tool messages must include tool_call_id"@)
    } else if message.role != "tool"@ && message.has_tool_call_id {
        Some("only tool messages may include tool_call_id"@)
    } else if !message.has_content {
        Some("message content must not be null"@)
    } else {
        None
    }
}

/// What is wrong with the first message with which something is.
pub open spec fn first_message_error(messages: Seq<MessageView>) -> Option<Seq<char>>
    decreases messages.len(),
{
    if messages.len() == 0 {
        None
    } else if message_error(messages[0]) is Some {
        message_error(messages[0])
    } else {
        first_message_error(messages.skip(1))
    }
}

fn is_known_role(role: &str) -> (r: bool)
    ensures
        r == known_role(role@),
{
    text::same(role, "system") || text::same(role, "user") || text::same(role, "assistant")
        || text::same(role, "tool") || text::same(role, "developer")
}

impl ChatMessage {
    fn has_content(&self) -> (r: bool)
        ensures
            r == self@.has_content,
    {
        match &self.content {
            Some(content) => !json::is_null(content),
            None => false,
        }
    }

    /// What is wrong with the content of the message.
    pub fn content_error(&self) -> (r: Option<&'static str>)
        ensures
            match r {
                Some(error) => message_error(self@) == Some(error@),
                None => message_error(self@) is None,
            },
    {
        let role = self.role.as_str();
        if text::same(role, "assistant") {
            if self.tool_call_id.is_some() {
                return Some("only tool messages may include tool_call_id");
            }
            if let Some(calls) = &self.tool_calls {
                if calls.len() == 0 {
                    return Some("assistant messages tool_calls must not be empty");
                }
            }
            if !self.has_content() && self.tool_calls.is_none() {
                return Some("message content must not be null");
            }
            return None;
        }
        if self.tool_calls.is_some() {
            return Some("only assistant messages may include tool_calls");
        }
        if text::same(role, "tool") {
            if self.tool_call_id.is_none() {
                return Some("tool messages must include tool_call_id");
            }
        } else if self.tool_call_id.is_some() {
            return Some("only tool messages may include tool_call_id");
        }
        if self.has_content() {
            None
        } else {
            Some("message content must not be null")
        }
    }
}

impl ChatCompletionRequest {
    /// The first role that no message may have.
    pub fn invalid_role(&self) -> (r: Option<&str>)
        ensures
            match r {
                Some(role) => first_unknown_role(messages_view(self.messages@)) == Some(role@),
                None => first_unknown_role(messages_view(self.messages@)) is None,
            },
    {
        let ghost views = messages_view(self.messages@);
        assert(views.skip(0) =~= views);
        let mut i: usize = 0;
        while i < self.messages.len()
            invariant
                i <= self.messages.len(),
                views == messages_view(self.messages@),
                first_unknown_role(views) == first_unknown_role(views.skip(i as int)),
            decreases self.messages.len() - i,
        {
            assert(views.skip(i as int)[0] == self.messages@[i as int]@);
            assert(views.skip(i as int).skip(1) =~= views.skip(i + 1));
            if !is_known_role(self.messages[i].role.as_str()) {
                return Some(self.messages[i].role.as_str());
            }
            i += 1;
        }
        None
    }

    /// What is wrong with the first message with which something is.
    pub fn content_error(&self) -> (r: Option<&'static str>)
        ensures
            match r {
                Some(error) => first_message_error(messages_view(self.messages@)) == Some(error@),
                None => first_message_error(messages_view(self.messages@)) is None,
            },
    {
        let ghost views = messages_view(self.messages@);
        assert(views.skip(0) =~= views);
        let mut i: usize = 0;
        while i < self.messages.len()
            invariant
                i <= self.messages.len(),
                views == messages_view(self.messages@),
                first_message_error(views) == first_message_error(views.skip(i as int)),
            decreases self.messages.len() - i,
        {
            assert(views.skip(i as int)[0] == self.messages@[i as int]@);
            assert(views.skip(i as int).skip(1) =~= views.skip(i + 1));
            let error = self.messages[i].content_error();
            if error.is_some() {
                return error;
            }
            i += 1;
        }
        None
    }
}

/// What stands after `prefix`, up to the next backquote.
pub open spec fn quoted_after(message: Seq<char>, prefix: Seq<char>) -> Option<Seq<char>> {
    match position_from(message, prefix, 0) {
        Some(at) => match text::cut(message.skip((at + prefix.len()) as int), '`') {
            Some((quoted, _)) => Some(quoted),
            None => None,
        },
        None => None,
    }
}

/// What a client is told of a body that is not a proper request, by the message of the parser.
pub open spec fn normalized(message: Seq<char>) -> Seq<char> {
    match quoted_after(message, "unknown field `"@) {
        Some(field) => "unsupported field '"@ + field + "'"@,
        None => if occurs(message, "unknown variant"@) {
            "request body contains invalid fields"@
        } else if occurs(message, "missing field `tool_call_id`"@) {
            "tool messages must include tool_call_id"@
        } else if occurs(message, "missing field `content`"@) {
            "messages must include content unless assistant tool_calls are present"@
        } else if occurs(message, "invalid type"@) {
            "request body contains an invalid field type"@
        } else {
            "request body contains invalid fields"@
        },
    }
}

fn extract_quoted_value(message: &str, prefix: &str) -> (r: Option<String>)
    ensures
        text::text_view(r) == quoted_after(message@, prefix@),
{
    let chars = text::chars_of(message);
    let start = text::chars_of(prefix);
    match text::find(&chars, &start) {
        Some(at) => {
            proof {
                text::lemma_position_from(message@, prefix@, 0, Some(at as nat));
            }
            let rest = text::text_of(&chars, at + start.len(), chars.len());
            assert(rest@ =~= message@.skip(at + prefix@.len()));
            match text::split_once(rest.as_str(), '`') {
                Some((quoted, _)) => Some(quoted),
                None => None,
            }
        },
        None => {
            proof {
                text::lemma_position_from(message@, prefix@, 0, None);
            }
            None
        },
    }
}

/// What a client is told of a body that is not a proper request, by the message of the parser.
pub fn normalize_json_error(message: &str) -> (r: String)
    ensures
        r@ == normalized(message@),
{
    if let Some(field) = extract_quoted_value(message, "unknown field `") {
        return "unsupported field '".to_string().concat(field.as_str()).concat("'");
    }
    if text::contains(message, "unknown variant") {
        return "request body contains invalid fields".to_string();
    }
    if text::contains(message, "missing field `tool_call_id`") {
        return "tool messages must include tool_call_id".to_string();
    }
    if text::contains(message, "missing field `content`") {
        return "messages must include content unless assistant tool_calls are present".to_string();
    }
    if text::contains(message, "invalid type") {
        return "request body contains an invalid field type".to_string();
    }
    "request body contains invalid fields".to_string()
}

/// The answer to a request that is not a proper one.
pub open spec fn invalid_request(message: Seq<char>) -> ErrorReplyView {
    final_error(400, "invalid_request_error"@, message)
}

fn invalid_request_response(message: String) -> (r: ErrorReply)
    ensures
        r@ == invalid_request(message@),
{
    openai_error(400, "invalid_request_error", message, None)
}

/// The answer to a request for a model that is not offered.
pub open spec fn unknown_model(model: Seq<char>, alias: Seq<char>) -> ErrorReplyView {
    invalid_request("unsupported model '"@ + model + "': expected '"@ + alias + "'"@)
}

fn unknown_model_response(model: &str, alias: &str) -> (r: ErrorReply)
    ensures
        r@ == unknown_model(model@, alias@),
{
    invalid_request_response(
        "unsupported model '".to_string().concat(model).concat("': expected '").concat(
            alias,
        ).concat("'"),
    )
}

/// The answer to a request whose body is not declared as JSON, if it is not.
pub fn content_type_error(content_type: Option<&str>) -> (r: Option<ErrorReply>)
    ensures
        r is None <==> (content_type matches Some(name) && occurs(name@, "application/json"@)),
        r is Some ==> r->0@ == invalid_request("content-type must be application/json"@),
{
    if let Some(name) = content_type {
        if text::contains(name, "application/json") {
            return None;
        }
    }
    Some(invalid_request_response("content-type must be application/json".to_string()))
}

/// Why a chat request is not taken.
pub open spec fn chat_refusal(
    request: Result<(Seq<char>, Seq<MessageView>), Seq<char>>,
    alias: Seq<char>,
) -> Option<ErrorReplyView> {
    match request {
        Err(message) => Some(invalid_request(normalized(message))),
        Ok((model, messages)) => if messages.len() == 0 {
            Some(invalid_request("messages must not be empty"@))
        } else if first_unknown_role(messages) is Some {
            Some(
                final_error(
                    400,
                    "unsupported_role"@,
                    "unsupported message role '"@ + first_unknown_role(messages)->0 + "'"@,
                ),
            )
        } else if first_message_error(messages) is Some {
            Some(invalid_request(first_message_error(messages)->0))
        } else if model != alias {
            Some(unknown_model(model, alias))
        } else {
            None
        },
    }
}

/// Why a request for embeddings is not taken.
pub open spec fn embeddings_refusal(
    request: Result<(Seq<char>, JsonTree), Seq<char>>,
    alias: Seq<char>,
    enabled: bool,
) -> Option<ErrorReplyView> {
    match request {
        Err(message) => Some(invalid_request(normalized(message))),
        Ok((model, input)) => if input is Null {
            Some(invalid_request("input must not be null"@))
        } else if model != alias {
            Some(unknown_model(model, alias))
        } else if !enabled {
            Some(
                final_error(
                    400,
                    "unsupported_embeddings"@,
                    "embeddings are disabled by configuration"@,
                ),
            )
        } else {
            None
        },
    }
}

/// What matters of a parsed chat request.
pub open spec fn chat_request_view(parsed: Result<ChatCompletionRequest, String>) -> Result<
    (Seq<char>, Seq<MessageView>),
    Seq<char>,
> {
    match parsed {
        Ok(request) => Ok((request.model@, messages_view(request.messages@))),
        Err(message) => Err(message@),
    }
}

/// What matters of a parsed request for embeddings.
pub open spec fn embeddings_request_view(parsed: Result<EmbeddingsRequest, String>) -> Result<
    (Seq<char>, JsonTree),
    Seq<char>,
> {
    match parsed {
        Ok(request) => Ok((request.model@, json_tree(request.input))),
        Err(message) => Err(message@),
    }
}

/// The state with a chat request counted.
pub open spec fn chat_counted(state: AppStateView) -> AppStateView {
    AppStateView {
        metrics: Metrics {
            chat_requests: counted(state.metrics.chat_requests),
            ..state.metrics
        },
        ..state
    }
}

/// The state with a request for embeddings counted.
pub open spec fn embeddings_counted(state: AppStateView) -> AppStateView {
    AppStateView {
        metrics: Metrics {
            embeddings_requests: counted(state.metrics.embeddings_requests),
            ..state.metrics
        },
        ..state
    }
}

fn check_chat(parsed: Result<ChatCompletionRequest, String>, alias: &str) -> (r: Result<
    bool,
    ErrorReply,
>)
    ensures
        match r {
            Ok(stream) => chat_refusal(chat_request_view(parsed), alias@) is None && stream
                == parsed->Ok_0.stream,
            Err(reply) => chat_refusal(chat_request_view(parsed), alias@) == Some(reply@),
        },
{
    let request = match parsed {
        Ok(request) => request,
        Err(message) => {
            return Err(invalid_request_response(normalize_json_error(message.as_str())));
        },
    };
    if request.messages.len() == 0 {
        return Err(invalid_request_response("messages must not be empty".to_string()));
    }
    if let Some(role) = request.invalid_role() {
        return Err(
            openai_error(
                400,
                "unsupported_role",
                "unsupported message role '".to_string().concat(role).concat("'"),
                None,
            ),
        );
    }
    if let Some(error) = request.content_error() {
        return Err(invalid_request_response(error.to_string()));
    }
    if !text::same(request.model.as_str(), alias) {
        return Err(unknown_model_response(request.model.as_str(), alias));
    }
    Ok(request.stream)
}

fn check_embeddings(
    parsed: Result<EmbeddingsRequest, String>,
    alias: &str,
    enabled: bool,
) -> (r: Result<(), ErrorReply>)
    ensures
        match r {
            Ok(_) => embeddings_refusal(embeddings_request_view(parsed), alias@, enabled) is None,
            Err(reply) => embeddings_refusal(embeddings_request_view(parsed), alias@, enabled)
                == Some(reply@),
        },
{
    let request = match parsed {
        Ok(request) => request,
        Err(message) => {
            return Err(invalid_request_response(normalize_json_error(message.as_str())));
        },
    };
    if json::is_null(&request.input) {
        return Err(invalid_request_response("input must not be null".to_string()));
    }
    if !text::same(request.model.as_str(), alias) {
        return Err(unknown_model_response(request.model.as_str(), alias));
    }
    if !enabled {
        return Err(
            openai_error(
                400,
                "unsupported_embeddings",
                "embeddings are disabled by configuration".to_string(),
                None,
            ),
        );
    }
    Ok(())
}

impl Orchestrator {
    /// A chat request arrives, parsed or with the message of the parser. Tells whether the answer
    /// is to be streamed, or why the request is not taken.
    pub fn chat_completions(&mut self, parsed: Result<ChatCompletionRequest, String>) -> (r: Result<
        bool,
        ErrorReply,
    >)
        ensures
            final(self).state@ == chat_counted(old(self).state@),
            ({
                let refusal = chat_refusal(
                    chat_request_view(parsed),
                    old(self).state@.config.model.alias,
                );
                match r {
                    Ok(stream) => refusal is None && stream == parsed->Ok_0.stream,
                    Err(reply) => refusal == Some(reply@),
                }
            }),
    {
        self.state.metrics.inc_chat_requests();
        check_chat(parsed, self.state.config.model.alias.as_str())
    }

    /// A request for embeddings arrives, parsed or with the message of the parser. Tells why it is
    /// not taken, if it is not.
    pub fn embeddings(&mut self, parsed: Result<EmbeddingsRequest, String>) -> (r: Result<
        (),
        ErrorReply,
    >)
        ensures
            final(self).state@ == embeddings_counted(old(self).state@),
            ({
                let refusal = embeddings_refusal(
                    embeddings_request_view(parsed),
                    old(self).state@.config.model.alias,
                    old(self).state@.config.embeddings.enabled,
                );
                match r {
                    Ok(_) => refusal is None,
                    Err(reply) => refusal == Some(reply@),
                }
            }),
    {
        self.state.metrics.inc_embeddings_requests();
        check_embeddings(
            parsed,
            self.state.config.model.alias.as_str(),
            self.state.config.embeddings.enabled,
        )
    }

    /// The document at `/status`.
    pub fn status_document(&self) -> (r: Value)
        ensures
            json_tree(r) == status_tree(
                self.state@.chat.status,
                self.state@.config.model.alias,
                self.state@.metrics,
            ),
    {
        let backend = self.state.chat_lifecycle.status();
        let metrics = self.state.metrics.snapshot();
        let mut capabilities = json::null();
        json::set_field(&mut capabilities, "chat", json::string(backend.chat.as_str()));
        json::set_field(&mut capabilities, "embeddings", json::string(backend.embeddings.as_str()));
        json::set_field(
            &mut capabilities,
            "embeddings_reason",
            json::optional_string(&backend.embeddings_reason),
        );
        let mut host_unit = json::null();
        json::set_field(
            &mut host_unit,
            "llama_server_unit",
            json::string(backend.llama_server_unit.as_str()),
        );
        json::set_field(
            &mut host_unit,
            "inhibit_unit",
            json::string(backend.inhibit_unit.as_str()),
        );
        let mut r = json::null();
        json::set_field(&mut r, "state", json::string(backend.lifecycle.as_str()));
        json::set_field(
            &mut r,
            "model_alias",
            json::string(self.state.config.model.alias.as_str()),
        );
        json::set_field(&mut r, "capabilities", capabilities);
        json::set_field(&mut r, "tunnel", json::string(backend.tunnel.as_str()));
        json::set_field(
            &mut r,
            "last_wake_attempt_at",
            optional_time(backend.last_wake_attempt_at),
        );
        json::set_field(&mut r, "lease_expires_at", optional_time(backend.lease_expires_at));
        json::set_field(&mut r, "host_unit", host_unit);
        json::set_field(&mut r, "metrics", metrics.to_json());
        r
    }

    /// The document at `/v1/models`.
    pub fn models_document(&self) -> (r: Value)
        ensures
            json_tree(r) == models_tree(self.state@.config.model),
    {
        let model = &self.state.config.model;
        let mut entry = json::null();
        json::set_field(&mut entry, "id", json::string(model.alias.as_str()));
        json::set_field(&mut entry, "object", json::string("model"));
        json::set_field(&mut entry, "created", json::unsigned(0));
        json::set_field(&mut entry, "owned_by", json::string(model.owned_by.as_str()));
        json::set_field(&mut entry, "provider", json::string(model.provider_id.as_str()));
        let items: Vec<Value> = vec![entry];
        assert(items@.map_values(|item: Value| json_tree(item)) =~= seq![
            model_entry(self.state@.config.model),
        ]);
        let mut r = json::null();
        json::set_field(&mut r, "object", json::string("list"));
        json::set_field(&mut r, "data", json::list(items));
        r
    }
}

/// The seconds of a point in time, or `null`.
pub open spec fn time_tree(at: Option<Timestamp>) -> JsonTree {
    match at {
        Some(at) => JsonTree::Number(decimal(at.0 as nat)),
        None => JsonTree::Null,
    }
}

fn optional_time(at: Option<Timestamp>) -> (r: Value)
    ensures
        json_tree(r) == time_tree(at),
{
    match at {
        Some(at) => json::unsigned(at.unix_seconds()),
        None => json::null(),
    }
}

/// What the backend can do, in the document at `/status`.
pub open spec fn capabilities_tree(backend: BackendStatusView) -> JsonTree {
    JsonTree::Object(
        map![
            "chat"@ => JsonTree::Text(capability_name(backend.chat)),
            "embeddings"@ => JsonTree::Text(capability_name(backend.embeddings)),
            "embeddings_reason"@ => optional_tree(backend.embeddings_reason),
        ],
    )
}

/// The units of the host, in the document at `/status`.
pub open spec fn host_unit_tree(backend: BackendStatusView) -> JsonTree {
    JsonTree::Object(
        map![
            "llama_server_unit"@ => JsonTree::Text(unit_name(backend.llama_server_unit)),
            "inhibit_unit"@ => JsonTree::Text(unit_name(backend.inhibit_unit)),
        ],
    )
}

/// The document at `/status`.
pub open spec fn status_tree(
    backend: BackendStatusView,
    alias: Seq<char>,
    metrics: Metrics,
) -> JsonTree {
    JsonTree::Object(
        map![
            "state"@ => JsonTree::Text(lifecycle_name(backend.lifecycle)),
            "model_alias"@ => JsonTree::Text(alias),
            "capabilities"@ => capabilities_tree(backend),
            "tunnel"@ => JsonTree::Text(tunnel_name(backend.tunnel)),
            "last_wake_attempt_at"@ => time_tree(backend.last_wake_attempt_at),
            "lease_expires_at"@ => time_tree(backend.lease_expires_at),
            "host_unit"@ => host_unit_tree(backend),
            "metrics"@ => metrics_tree(metrics),
        ],
    )
}

/// A model in the list of models.
pub open spec fn model_entry(model: ModelConfigView) -> JsonTree {
    JsonTree::Object(
        map![
            "id"@ => JsonTree::Text(model.alias),
            "object"@ => JsonTree::Text("model"@),
            "created"@ => JsonTree::Number(decimal(0)),
            "owned_by"@ => JsonTree::Text(model.owned_by),
            "provider"@ => JsonTree::Text(model.provider_id),
        ],
    )
}

/// The document at `/v1/models`.
pub open spec fn models_tree(model: ModelConfigView) -> JsonTree {
    JsonTree::Object(
        map![
            "object"@ => JsonTree::Text("list"@),
            "data"@ => JsonTree::List(seq![model_entry(model)]),
        ],
    )
}

/// The document at `/healthz`.
pub fn health_document() -> (r: Value)
    ensures
        json_tree(r) == JsonTree::Object(map!["status"@ => JsonTree::Text("ok"@)]),
{
    let mut r = json::null();
    json::set_field(&mut r, "status", json::string("ok"));
    r
}

/// The document at `/status` can be read back as it was written.
pub proof fn status_is_readable(backend: BackendStatusView, alias: Seq<char>, metrics: Metrics)
    ensures
        readable(status_tree(backend, alias, metrics), nesting_limit()),
{
    lemma_object_readable(capabilities_tree(backend)->Object_0, 126);
    lemma_object_readable(host_unit_tree(backend)->Object_0, 126);
    lemma_time_readable(backend.last_wake_attempt_at);
    lemma_time_readable(backend.lease_expires_at);
    lemma_metrics_readable(metrics);
    lemma_object_readable(status_tree(backend, alias, metrics)->Object_0, 127);
}

/// The document at `/v1/models` can be read back as it was written.
pub proof fn models_are_readable(model: ModelConfigView)
    ensures
        readable(models_tree(model), nesting_limit()),
{
    lemma_count_readable(0, 124);
    lemma_object_readable(model_entry(model)->Object_0, 125);
    lemma_list_readable(seq![model_entry(model)], 126);
    lemma_object_readable(models_tree(model)->Object_0, 127);
}

proof fn lemma_time_readable(at: Option<Timestamp>)
    ensures
        readable(time_tree(at), 126),
{
    match at {
        Some(at) => lemma_count_readable(at.0 as nat, 126),
        None => {},
    }
}

proof fn lemma_metrics_readable(m: Metrics)
    ensures
        readable(metrics_tree(m), 126),
{
    lemma_count_readable(m.cold_starts as nat, 125);
    lemma_count_readable(m.warm_requests as nat, 125);
    lemma_count_readable(m.queue_full_rejections as nat, 125);
    lemma_count_readable(m.queue_timeouts as nat, 125);
    lemma_count_readable(m.wake_attempts as nat, 125);
    lemma_count_readable(m.wake_failures as nat, 125);
    lemma_count_readable(m.tunnel_drops as nat, 125);
    lemma_count_readable(m.embeddings_degraded as nat, 125);
    lemma_count_readable(m.forwarding_errors as nat, 125);
    lemma_count_readable(m.chat_requests as nat, 125);
    lemma_count_readable(m.embeddings_requests as nat, 125);
    lemma_object_readable(metrics_tree(m)->Object_0, 126);
}

/// A message that is in order has content, or is one of the assistant that calls tools.
pub proof fn proper_message_says_something(message: MessageView)
    requires
        message_error(message) is None,
    ensures
        message.has_content || (message.role == "assistant"@ && message.tool_calls is Some
            && message.tool_calls->0 > 0),
        message.tool_calls is Some ==> message.role == "assistant"@,
        message.has_tool_call_id <==> message.role == "tool"@,
{
    reveal_strlit("assistant");
    reveal_strlit("tool");
    assert("assistant"@.len() != "tool"@.len());
}

/// A chat request is taken exactly if it was parsed, has messages, all of them with a known role
/// and in order, and asks for the model that is offered.
pub proof fn taken_chat_request(
    request: Result<(Seq<char>, Seq<MessageView>), Seq<char>>,
    alias: Seq<char>,
)
    ensures
        chat_refusal(request, alias) is None <==> {
            &&& request matches Ok((model, messages))
            &&& model == alias
            &&& messages.len() > 0
            &&& forall|i: int|
                0 <= i < messages.len() ==> known_role((#[trigger] messages[i]).role)
                    && message_error(messages[i]) is None
        },
{
    if request is Ok {
        lemma_first_unknown_role(request->Ok_0.1);
        lemma_first_message_error(request->Ok_0.1);
    }
}

proof fn lemma_first_unknown_role(messages: Seq<MessageView>)
    ensures
        first_unknown_role(messages) is None <==> forall|i: int|
            0 <= i < messages.len() ==> known_role((#[trigger] messages[i]).role),
    decreases messages.len(),
{
    if messages.len() > 0 {
        let rest = messages.skip(1);
        lemma_first_unknown_role(rest);
        assert forall|i: int| 1 <= i < messages.len() implies (#[trigger] messages[i]) == rest[i
            - 1] by {}
        if first_unknown_role(messages) is None {
            assert forall|i: int| 0 <= i < messages.len() implies known_role(
                (#[trigger] messages[i]).role,
            ) by {
                if i > 0 {
                    assert(known_role(rest[i - 1].role));
                }
            }
        } else if known_role(messages[0].role) {
            let j = choose|j: int| 0 <= j < rest.len() && !known_role((#[trigger] rest[j]).role);
            assert(!known_role(messages[j + 1].role));
        }
    }
}

proof fn lemma_first_message_error(messages: Seq<MessageView>)
    ensures
        first_message_error(messages) is None <==> forall|i: int|
            0 <= i < messages.len() ==> message_error(#[trigger] messages[i]) is None,
    decreases messages.len(),
{
    if messages.len() > 0 {
        let rest = messages.skip(1);
        lemma_first_message_error(rest);
        if first_message_error(messages) is None {
            assert forall|i: int| 0 <= i < messages.len() implies message_error(
                #[trigger] messages[i],
            ) is None by {
                if i > 0 {
                    assert(message_error(rest[i - 1]) is None);
                }
            }
        } else if message_error(messages[0]) is None {
            let j = choose|j: int| 0 <= j < rest.len() && message_error(#[trigger] rest[j]) is Some;
            assert(message_error(messages[j + 1]) is Some);
        }
    }
}

proof fn lemma_status_names_differ()
    ensures
        "state"@ != "model_alias"@,
        "state"@ != "capabilities"@,
        "state"@ != "tunnel"@,
        "state"@ != "last_wake_attempt_at"@,
        "state"@ != "lease_expires_at"@,
        "state"@ != "host_unit"@,
        "state"@ != "metrics"@,
        "model_alias"@ != "capabilities"@,
        "model_alias"@ != "tunnel"@,
        "model_alias"@ != "last_wake_attempt_at"@,
        "model_alias"@ != "lease_expires_at"@,
        "model_alias"@ != "host_unit"@,
        "model_alias"@ != "metrics"@,
        "capabilities"@ != "tunnel"@,
        "capabilities"@ != "last_wake_attempt_at"@,
        "capabilities"@ != "lease_expires_at"@,
        "capabilities"@ != "host_unit"@,
        "capabilities"@ != "metrics"@,
        "tunnel"@ != "last_wake_attempt_at"@,
        "tunnel"@ != "lease_expires_at"@,
        "tunnel"@ != "host_unit"@,
        "tunnel"@ != "metrics"@,
        "last_wake_attempt_at"@ != "lease_expires_at"@,
        "last_wake_attempt_at"@ != "host_unit"@,
        "last_wake_attempt_at"@ != "metrics"@,
        "lease_expires_at"@ != "host_unit"@,
        "lease_expires_at"@ != "metrics"@,
        "host_unit"@ != "metrics"@,
{
    reveal_strlit("state");
    reveal_strlit("model_alias");
    reveal_strlit("capabilities");
    reveal_strlit("tunnel");
    reveal_strlit("last_wake_attempt_at");
    reveal_strlit("lease_expires_at");
    reveal_strlit("host_unit");
    reveal_strlit("metrics");
    assert("state"@.len() == 5);
    assert("model_alias"@.len() == 11);
    assert("capabilities"@.len() == 12);
    assert("tunnel"@.len() == 6);
    assert("last_wake_attempt_at"@.len() == 20);
    assert("lease_expires_at"@.len() == 16);
    assert("host_unit"@.len() == 9);
    assert("metrics"@.len() == 7);
}
proof fn lemma_capability_names_differ()
    ensures
        "chat"@ != "embeddings"@,
        "chat"@ != "embeddings_reason"@,
        "embeddings"@ != "embeddings_reason"@,
{
    reveal_strlit("chat");
    reveal_strlit("embeddings");
    reveal_strlit("embeddings_reason");
    assert("chat"@.len() == 4);
    assert("embeddings"@.len() == 10);
    assert("embeddings_reason"@.len() == 17);
}
proof fn lemma_unit_names_differ()
    ensures
        "llama_server_unit"@ != "inhibit_unit"@,
{
    reveal_strlit("llama_server_unit");
    reveal_strlit("inhibit_unit");
    assert("llama_server_unit"@.len() == 17);
    assert("inhibit_unit"@.len() == 12);
}
proof fn lemma_model_names_differ()
    ensures
        "id"@ != "object"@,
        "id"@ != "created"@,
        "id"@ != "owned_by"@,
        "id"@ != "provider"@,
        "object"@ != "created"@,
        "object"@ != "owned_by"@,
        "object"@ != "provider"@,
        "created"@ != "owned_by"@,
        "created"@ != "provider"@,
        "owned_by"@ != "provider"@,
{
    reveal_strlit("id");
    reveal_strlit("object");
    reveal_strlit("created");
    reveal_strlit("owned_by");
    reveal_strlit("provider");
    assert("owned_by"@[0] != "provider"@[0]);
    assert("id"@.len() == 2);
    assert("object"@.len() == 6);
    assert("created"@.len() == 7);
    assert("owned_by"@.len() == 8);
    assert("provider"@.len() == 8);
}
proof fn lemma_list_names_differ()
    ensures
        "object"@ != "data"@,
{
    reveal_strlit("object");
    reveal_strlit("data");
    assert("object"@.len() == 6);
    assert("data"@.len() == 4);
}
proof fn lemma_roles_differ()
    ensures
        "system"@ != "user"@,
        "system"@ != "assistant"@,
        "system"@ != "tool"@,
        "system"@ != "developer"@,
        "user"@ != "assistant"@,
        "user"@ != "tool"@,
        "user"@ != "developer"@,
        "assistant"@ != "tool"@,
        "assistant"@ != "developer"@,
        "tool"@ != "developer"@,
{
    reveal_strlit("system");
    reveal_strlit("user");
    reveal_strlit("assistant");
    reveal_strlit("tool");
    reveal_strlit("developer");
    assert("user"@[0] != "tool"@[0]);
    assert("assistant"@[0] != "developer"@[0]);
    assert("system"@.len() == 6);
    assert("user"@.len() == 4);
    assert("assistant"@.len() == 9);
    assert("tool"@.len() == 4);
    assert("developer"@.len() == 9);
}

/// What the document at `/status` says of a point in time.
pub open spec fn tells_time(tree: JsonTree, at: Option<Timestamp>) -> bool {
    match at {
        Some(at) => tree == JsonTree::Number(decimal(at.0 as nat)),
        None => tree is Null,
    }
}

/// The document at `/status` tells of the backend for chat what is known of it, each thing under its
/// own name, together with the name of the model and the counters.
pub proof fn status_document_tells_what_is_known(o: &Orchestrator, document: Value)
    requires
        call_ensures(Orchestrator::status_document, (o,), document),
    ensures
        ({
            let status = o.state.chat_lifecycle.status;
            json_tree(document) matches JsonTree::Object(fields) && {
                &&& fields.dom() == set![
                    "state"@,
                    "model_alias"@,
                    "capabilities"@,
                    "tunnel"@,
                    "last_wake_attempt_at"@,
                    "lease_expires_at"@,
                    "host_unit"@,
                    "metrics"@,
                ]
                &&& fields["state"@] == JsonTree::Text(
                    match status.lifecycle {
                        LifecycleState::Cold => "cold"@,
                        LifecycleState::Warming => "warming"@,
                        LifecycleState::Ready => "ready"@,
                        LifecycleState::Error => "error"@,
                    },
                )
                &&& fields["model_alias"@] == JsonTree::Text(o.state.config.model.alias@)
                &&& fields["tunnel"@] == JsonTree::Text(
                    match status.tunnel {
                        TunnelState::Down => "down"@,
                        TunnelState::Connecting => "connecting"@,
                        TunnelState::Ready => "ready"@,
                    },
                )
                &&& tells_time(fields["last_wake_attempt_at"@], status.last_wake_attempt_at)
                &&& tells_time(fields["lease_expires_at"@], status.lease_expires_at)
                &&& fields["metrics"@] == metrics_tree(o.state.metrics)
                &&& fields["capabilities"@] matches JsonTree::Object(able)
                &&& able.dom() == set!["chat"@, "embeddings"@, "embeddings_reason"@]
                &&& able["chat"@] == JsonTree::Text(
                    match status.chat {
                        CapabilityState::Ready => "ready"@,
                        CapabilityState::Degraded => "degraded"@,
                    },
                )
                &&& able["embeddings"@] == JsonTree::Text(
                    match status.embeddings {
                        CapabilityState::Ready => "ready"@,
                        CapabilityState::Degraded => "degraded"@,
                    },
                )
                &&& able["embeddings_reason"@] == match status.embeddings_reason {
                    Some(reason) => JsonTree::Text(reason@),
                    None => JsonTree::Null,
                }
                &&& fields["host_unit"@] matches JsonTree::Object(units)
                &&& units.dom() == set!["llama_server_unit"@, "inhibit_unit"@]
                &&& units["llama_server_unit"@] == JsonTree::Text(unit_name(status.llama_server_unit))
                &&& units["inhibit_unit"@] == JsonTree::Text(unit_name(status.inhibit_unit))
            }
        }),
{
    lemma_status_names_differ();
    lemma_capability_names_differ();
    lemma_unit_names_differ();
    let fields = json_tree(document)->Object_0;
    assert(fields.dom() =~= set![
        "state"@,
        "model_alias"@,
        "capabilities"@,
        "tunnel"@,
        "last_wake_attempt_at"@,
        "lease_expires_at"@,
        "host_unit"@,
        "metrics"@,
    ]);
    let able = fields["capabilities"@]->Object_0;
    assert(able.dom() =~= set!["chat"@, "embeddings"@, "embeddings_reason"@]);
    let units = fields["host_unit"@]->Object_0;
    assert(units.dom() =~= set!["llama_server_unit"@, "inhibit_unit"@]);
}

/// Every state has its own name.
pub proof fn states_are_named(
    lifecycle: LifecycleState,
    capability: CapabilityState,
    tunnel: TunnelState,
    unit: UnitState,
    lifecycle_is: &str,
    capability_is: &str,
    tunnel_is: &str,
    unit_is: &str,
)
    requires
        call_ensures(LifecycleState::as_str, (lifecycle,), lifecycle_is),
        call_ensures(CapabilityState::as_str, (capability,), capability_is),
        call_ensures(TunnelState::as_str, (tunnel,), tunnel_is),
        call_ensures(UnitState::as_str, (unit,), unit_is),
    ensures
        lifecycle_is@ == match lifecycle {
            LifecycleState::Cold => "cold"@,
            LifecycleState::Warming => "warming"@,
            LifecycleState::Ready => "ready"@,
            LifecycleState::Error => "error"@,
        },
        capability_is@ == match capability {
            CapabilityState::Ready => "ready"@,
            CapabilityState::Degraded => "degraded"@,
        },
        tunnel_is@ == match tunnel {
            TunnelState::Down => "down"@,
            TunnelState::Connecting => "connecting"@,
            TunnelState::Ready => "ready"@,
        },
        unit_is@ == match unit {
            UnitState::Unknown => "unknown"@,
            UnitState::Inactive => "inactive"@,
            UnitState::Activating => "activating"@,
            UnitState::Active => "active"@,
            UnitState::Failed => "failed"@,
        },
{
}

/// The document at `/v1/models` lists one model: the one that is offered, with its name, its owner and
/// its provider.
pub proof fn models_document_lists_the_model(o: &Orchestrator, document: Value)
    requires
        call_ensures(Orchestrator::models_document, (o,), document),
    ensures
        json_tree(document) matches JsonTree::Object(fields) && {
            &&& fields.dom() == set!["object"@, "data"@]
            &&& fields["object"@] == JsonTree::Text("list"@)
            &&& fields["data"@] matches JsonTree::List(models)
            &&& models.len() == 1
            &&& models[0] matches JsonTree::Object(model)
            &&& model.dom() == set!["id"@, "object"@, "created"@, "owned_by"@, "provider"@]
            &&& model["id"@] == JsonTree::Text(o.state.config.model.alias@)
            &&& model["object"@] == JsonTree::Text("model"@)
            &&& model["created"@] == JsonTree::Number(seq!['0'])
            &&& model["owned_by"@] == JsonTree::Text(o.state.config.model.owned_by@)
            &&& model["provider"@] == JsonTree::Text(o.state.config.model.provider_id@)
        },
{
    lemma_model_names_differ();
    lemma_list_names_differ();
    let fields = json_tree(document)->Object_0;
    assert(fields.dom() =~= set!["object"@, "data"@]);
    let model = fields["data"@]->List_0[0]->Object_0;
    assert(model.dom() =~= set!["id"@, "object"@, "created"@, "owned_by"@, "provider"@]);
}

/// The document at `/healthz` says that the proxy is well, and nothing else.
pub proof fn health_is_reported(document: Value)
    requires
        call_ensures(health_document, (), document),
    ensures
        json_tree(document) matches JsonTree::Object(fields) && fields.dom() == set!["status"@]
            && fields["status"@] == JsonTree::Text("ok"@),
{
    assert(json_tree(document)->Object_0.dom() =~= set!["status"@]);
}

/// Whether a message has content, as far as JSON goes.
pub open spec fn says_something(message: ChatMessage) -> bool {
    message.content matches Some(content) && !(json_tree(content) is Null)
}

/// A message is in order exactly if what it has fits its role. One of the assistant answers no call,
/// and makes at least one if it makes any; it may go without content if it does. One of a tool answers
/// a call, and no other does; both make none and have content.
pub proof fn messages_in_order(message: &ChatMessage, r: Option<&'static str>)
    requires
        call_ensures(ChatMessage::content_error, (message,), r),
    ensures
        message.role@ == "assistant"@ ==> (r is None <==> {
            &&& message.tool_call_id is None
            &&& match message.tool_calls {
                Some(calls) => calls@.len() > 0,
                None => says_something(*message),
            }
        }),
        message.role@ != "assistant"@ ==> (r is None <==> {
            &&& message.tool_calls is None
            &&& message.tool_call_id is Some <==> message.role@ == "tool"@
            &&& says_something(*message)
        }),
{
}

/// What is wrong with a message is named: a call that is answered by another than a tool, or not
/// answered by a tool; a call that is made by another than the assistant, or none where there should
/// be some; and content that is missing.
pub proof fn wrong_messages_are_named(message: &ChatMessage, error: &'static str)
    requires
        call_ensures(ChatMessage::content_error, (message,), Some(error)),
    ensures
        message.role@ != "assistant"@ && message.tool_calls is Some ==> error@
            == "only assistant messages may include tool_calls"@,
        message.role@ == "tool"@ && message.tool_calls is None && message.tool_call_id is None
            ==> error@ == "tool messages must include tool_call_id"@,
        message.role@ != "tool"@ && message.tool_call_id is Some && (message.role@ == "assistant"@
            || message.tool_calls is None) ==> error@
            == "only tool messages may include tool_call_id"@,
        message.role@ == "assistant"@ && message.tool_call_id is None && (
        message.tool_calls matches Some(calls) && calls@.len() == 0) ==> error@
            == "assistant messages tool_calls must not be empty"@,
        message.tool_calls is None && !says_something(*message) && (message.tool_call_id is Some
            <==> message.role@ == "tool"@) ==> error@ == "message content must not be null"@,
{
    lemma_roles_differ();
}

/// The role that is refused is the first one that is none of the five.
pub proof fn first_wrong_role_is_refused(request: &ChatCompletionRequest, r: Option<&str>)
    requires
        call_ensures(ChatCompletionRequest::invalid_role, (request,), r),
    ensures
        r is None <==> forall|i: int|
            0 <= i < request.messages@.len() ==> one_of_five((#[trigger] request.messages@[i]).role@),
        r matches Some(role) ==> exists|i: int|
            {
                &&& 0 <= i < request.messages@.len()
                &&& (#[trigger] request.messages@[i]).role@ == role@
                &&& !one_of_five(role@)
                &&& forall|j: int| 0 <= j < i ==> one_of_five((#[trigger] request.messages@[j]).role@)
            },
{
    let messages = request.messages@;
    let views = messages_view(messages);
    lemma_first_unknown_role(views);
    assert(views.len() == messages.len());
    assert forall|i: int| 0 <= i < messages.len() implies one_of_five(
        (#[trigger] messages[i]).role@,
    ) == known_role(views[i].role) by {}
    if r is Some {
        lemma_first_role(views);
        let i = choose|i: int|
            {
                &&& 0 <= i < views.len()
                &&& (#[trigger] views[i]).role == first_unknown_role(views)->0
                &&& !known_role(views[i].role)
                &&& forall|j: int| 0 <= j < i ==> known_role((#[trigger] views[j]).role)
            };
        assert(messages[i].role@ == r->0@);
        assert(!one_of_five(messages[i].role@));
        assert forall|j: int| 0 <= j < i implies one_of_five((#[trigger] messages[j]).role@) by {
            assert(known_role(views[j].role));
        }
    } else {
        assert forall|i: int| 0 <= i < messages.len() implies one_of_five(
            (#[trigger] messages[i]).role@,
        ) by {
            assert(known_role(views[i].role));
        }
    }
}

/// Whether a role is one of the five that messages may have.
pub open spec fn one_of_five(role: Seq<char>) -> bool {
    role == "system"@ || role == "user"@ || role == "assistant"@ || role == "tool"@ || role
        == "developer"@
}

proof fn lemma_first_role(messages: Seq<MessageView>)
    requires
        first_unknown_role(messages) is Some,
    ensures
        exists|i: int|
            {
                &&& 0 <= i < messages.len()
                &&& (#[trigger] messages[i]).role == first_unknown_role(messages)->0
                &&& !known_role(messages[i].role)
                &&& forall|j: int| 0 <= j < i ==> known_role((#[trigger] messages[j]).role)
            },
    decreases messages.len(),
{
    if !known_role(messages[0].role) {
        assert(messages[0].role == first_unknown_role(messages)->0);
    } else {
        let rest = messages.skip(1);
        lemma_first_role(rest);
        let i = choose|i: int|
            {
                &&& 0 <= i < rest.len()
                &&& (#[trigger] rest[i]).role == first_unknown_role(rest)->0
                &&& !known_role(rest[i].role)
                &&& forall|j: int| 0 <= j < i ==> known_role((#[trigger] rest[j]).role)
            };
        assert(messages[i + 1] == rest[i]);
        assert forall|j: int| 0 <= j < i + 1 implies known_role((#[trigger] messages[j]).role) by {
            if j > 0 {
                assert(messages[j] == rest[j - 1]);
            }
        }
    }
}

/// What is said of the messages of a request is what is wrong with the first one that is not in order.
pub proof fn first_wrong_message_is_refused(
    request: &ChatCompletionRequest,
    r: Option<&'static str>,
)
    requires
        call_ensures(ChatCompletionRequest::content_error, (request,), r),
    ensures
        r is None <==> forall|i: int|
            0 <= i < request.messages@.len() ==> message_error((#[trigger] request.messages@[i])@)
                is None,
        r matches Some(error) ==> exists|i: int|
            {
                &&& 0 <= i < request.messages@.len()
                &&& message_error((#[trigger] request.messages@[i])@) == Some(error@)
                &&& forall|j: int|
                    0 <= j < i ==> message_error((#[trigger] request.messages@[j])@) is None
            },
{
    let views = messages_view(request.messages@);
    lemma_first_message_error(views);
    assert forall|i: int| 0 <= i < request.messages@.len() implies (
    #[trigger] request.messages@[i])@ == views[i] by {}
    if r is None {
        assert forall|i: int| 0 <= i < request.messages@.len() implies message_error(
            (#[trigger] request.messages@[i])@,
        ) is None by {
            assert(message_error(views[i]) is None);
        }
    } else {
        lemma_first_error(views);
        let i = choose|i: int|
            {
                &&& 0 <= i < views.len()
                &&& message_error(#[trigger] views[i]) == first_message_error(views)
                &&& forall|j: int| 0 <= j < i ==> message_error(#[trigger] views[j]) is None
            };
        assert(message_error(request.messages@[i]@) == Some(r->0@));
        assert forall|j: int| 0 <= j < i implies message_error((#[trigger] request.messages@[j])@)
            is None by {
            assert(message_error(views[j]) is None);
        }
    }
}

proof fn lemma_first_error(messages: Seq<MessageView>)
    requires
        first_message_error(messages) is Some,
    ensures
        exists|i: int|
            {
                &&& 0 <= i < messages.len()
                &&& message_error(#[trigger] messages[i]) == first_message_error(messages)
                &&& forall|j: int| 0 <= j < i ==> message_error(#[trigger] messages[j]) is None
            },
    decreases messages.len(),
{
    if message_error(messages[0]) is Some {
        assert(message_error(messages[0]) == first_message_error(messages));
    } else {
        let rest = messages.skip(1);
        lemma_first_error(rest);
        let i = choose|i: int|
            {
                &&& 0 <= i < rest.len()
                &&& message_error(#[trigger] rest[i]) == first_message_error(rest)
                &&& forall|j: int| 0 <= j < i ==> message_error(#[trigger] rest[j]) is None
            };
        assert(messages[i + 1] == rest[i]);
        assert forall|j: int| 0 <= j < i + 1 implies message_error(#[trigger] messages[j])
            is None by {
            if j > 0 {
                assert(messages[j] == rest[j - 1]);
            }
        }
    }
}

/// Whether a reply refuses a request as not proper, with this message.
pub open spec fn refuses(reply: ErrorReply, code: Seq<char>, message: Seq<char>) -> bool {
    &&& reply.status == 400
    &&& reply.code@ == code
    &&& reply.message@ == message
    &&& reply.retry_after is None
}

/// A chat request is counted, and taken exactly if it was parsed, has messages, each with one of the
/// five roles and in order, and asks for the model that is offered. Then its answer is streamed if it
/// asks for that. Otherwise it is refused for the first of these that fails.
pub proof fn chat_requests_are_checked(
    o: &mut Orchestrator,
    parsed: Result<ChatCompletionRequest, String>,
    r: Result<bool, ErrorReply>,
)
    requires
        call_ensures(Orchestrator::chat_completions, (o, parsed), r),
    ensures
        ({
            let before = old(o).state.metrics;
            let after = final(o).state.metrics;
            &&& one_more(before.chat_requests, after.chat_requests)
            &&& after == (Metrics { chat_requests: after.chat_requests, ..before })
            &&& final(o).state@ == (AppStateView { metrics: after, ..old(o).state@ })
        }),
        ({
            let alias = old(o).state.config.model.alias@;
            match parsed {
                Err(message) => r matches Err(reply) && refuses(
                    reply,
                    "invalid_request_error"@,
                    normalized(message@),
                ),
                Ok(request) => {
                    let messages = request.messages@;
                    let roles_fit = forall|i: int|
                        0 <= i < messages.len() ==> one_of_five((#[trigger] messages[i]).role@);
                    let in_order = forall|i: int|
                        0 <= i < messages.len() ==> message_error((#[trigger] messages[i])@) is None;
                    &&& r is Ok <==> messages.len() > 0 && roles_fit && in_order && request.model@
                        == alias
                    &&& r matches Ok(stream) ==> stream == request.stream
                    &&& r matches Err(reply) ==> {
                        &&& messages.len() == 0 ==> refuses(
                            reply,
                            "invalid_request_error"@,
                            "messages must not be empty"@,
                        )
                        &&& !roles_fit ==> exists|i: int|
                            {
                                &&& 0 <= i < messages.len()
                                &&& !one_of_five((#[trigger] messages[i]).role@)
                                &&& forall|j: int|
                                    0 <= j < i ==> one_of_five((#[trigger] messages[j]).role@)
                                &&& refuses(
                                    reply,
                                    "unsupported_role"@,
                                    "unsupported message role '"@ + messages[i].role@ + "'"@,
                                )
                            }
                        &&& messages.len() > 0 && roles_fit && !in_order ==> exists|i: int|
                            {
                                &&& 0 <= i < messages.len()
                                &&& message_error((#[trigger] messages[i])@) matches Some(wrong)
                                &&& forall|j: int|
                                    0 <= j < i ==> message_error((#[trigger] messages[j])@) is None
                                &&& refuses(reply, "invalid_request_error"@, wrong)
                            }
                        &&& messages.len() > 0 && roles_fit && in_order ==> refuses(
                            reply,
                            "invalid_request_error"@,
                            "unsupported model '"@ + request.model@ + "': expected '"@ + alias
                                + "'"@,
                        )
                    }
                },
            }
        }),
{
    if parsed is Ok {
        let messages = parsed->Ok_0.messages@;
        let views = messages_view(messages);
        lemma_first_unknown_role(views);
        lemma_first_message_error(views);
        assert(views.len() == messages.len());
        assert forall|i: int| 0 <= i < messages.len() implies one_of_five(
            (#[trigger] messages[i]).role@,
        ) == known_role(views[i].role) && message_error(messages[i]@) == message_error(views[i]) by {}
        if first_unknown_role(views) is None {
            assert forall|i: int| 0 <= i < messages.len() implies one_of_five(
                (#[trigger] messages[i]).role@,
            ) by {
                assert(known_role(views[i].role));
            }
        } else {
            lemma_first_role(views);
            let i = choose|i: int|
                {
                    &&& 0 <= i < views.len()
                    &&& (#[trigger] views[i]).role == first_unknown_role(views)->0
                    &&& !known_role(views[i].role)
                    &&& forall|j: int| 0 <= j < i ==> known_role((#[trigger] views[j]).role)
                };
            assert(!one_of_five(messages[i].role@));
            assert forall|j: int| 0 <= j < i implies one_of_five((#[trigger] messages[j]).role@) by {
                assert(known_role(views[j].role));
            }
        }
        if first_message_error(views) is None {
            assert forall|i: int| 0 <= i < messages.len() implies message_error(
                (#[trigger] messages[i])@,
            ) is None by {
                assert(message_error(views[i]) is None);
            }
        } else {
            lemma_first_error(views);
            let i = choose|i: int|
                {
                    &&& 0 <= i < views.len()
                    &&& message_error(#[trigger] views[i]) == first_message_error(views)
                    &&& forall|j: int| 0 <= j < i ==> message_error(#[trigger] views[j]) is None
                };
            assert(message_error(messages[i]@) is Some);
            assert forall|j: int| 0 <= j < i implies message_error((#[trigger] messages[j])@)
                is None by {
                assert(message_error(views[j]) is None);
            }
        }
    }
}

/// A request for embeddings is counted, and taken exactly if it was parsed, has an input, asks for the
/// model that is offered, and embeddings are enabled. Otherwise it is refused for the first of these
/// that fails.
pub proof fn embeddings_requests_are_checked(
    o: &mut Orchestrator,
    parsed: Result<EmbeddingsRequest, String>,
    r: Result<(), ErrorReply>,
)
    requires
        call_ensures(Orchestrator::embeddings, (o, parsed), r),
    ensures
        ({
            let before = old(o).state.metrics;
            let after = final(o).state.metrics;
            &&& one_more(before.embeddings_requests, after.embeddings_requests)
            &&& after == (Metrics { embeddings_requests: after.embeddings_requests, ..before })
            &&& final(o).state@ == (AppStateView { metrics: after, ..old(o).state@ })
        }),
        ({
            let alias = old(o).state.config.model.alias@;
            let enabled = old(o).state.config.embeddings.enabled;
            match (parsed, r) {
                (Err(message), Err(reply)) => refuses(
                    reply,
                    "invalid_request_error"@,
                    normalized(message@),
                ),
                (Ok(request), Ok(_)) => !(json_tree(request.input) is Null) && request.model@
                    == alias && enabled,
                (Ok(request), Err(reply)) => if json_tree(request.input) is Null {
                    refuses(reply, "invalid_request_error"@, "input must not be null"@)
                } else if request.model@ != alias {
                    refuses(
                        reply,
                        "invalid_request_error"@,
                        "unsupported model '"@ + request.model@ + "': expected '"@ + alias + "'"@,
                    )
                } else {
                    !enabled && refuses(
                        reply,
                        "unsupported_embeddings"@,
                        "embeddings are disabled by configuration"@,
                    )
                },
                _ => false,
            }
        }),
{
}

/// A request is refused for its content type exactly if that does not say that it is JSON.
pub proof fn bodies_are_declared_as_json(content_type: Option<&str>, r: Option<ErrorReply>)
    requires
        call_ensures(content_type_error, (content_type,), r),
    ensures
        r is None <==> (content_type matches Some(name) && occurs(name@, "application/json"@)),
        r matches Some(reply) ==> refuses(
            reply,
            "invalid_request_error"@,
            "content-type must be application/json"@,
        ),
{
}

/// A field that the parser does not know is named to the client: whatever stands between the first
/// such mark and the next backquote. Other complaints are told apart by what they say.
pub proof fn parser_complaints_are_put_in_other_words(
    before: Seq<char>,
    field: Seq<char>,
    after: Seq<char>,
    message: &str,
    r: String,
)
    requires
        call_ensures(normalize_json_error, (message,), r),
    ensures
        message@ == before + "unknown field `"@ + field + "`"@ + after && !field.contains('`') && (
        forall|at: int|
            0 <= at < before.len() ==> !occurs_at(message@, "unknown field `"@, at)) ==> r@
            == "unsupported field '"@ + field + "'"@,
        !occurs(message@, "unknown field `"@) ==> {
            &&& occurs(message@, "unknown variant"@) ==> r@
                == "request body contains invalid fields"@
            &&& !occurs(message@, "unknown variant"@) && occurs(
                message@,
                "missing field `tool_call_id`"@,
            ) ==> r@ == "tool messages must include tool_call_id"@
            &&& !occurs(message@, "unknown variant"@) && !occurs(
                message@,
                "missing field `tool_call_id`"@,
            ) && occurs(message@, "missing field `content`"@) ==> r@
                == "messages must include content unless assistant tool_calls are present"@
            &&& !occurs(message@, "unknown variant"@) && !occurs(
                message@,
                "missing field `tool_call_id`"@,
            ) && !occurs(message@, "missing field `content`"@) ==> r@ == if occurs(
                message@,
                "invalid type"@,
            ) {
                "request body contains an invalid field type"@
            } else {
                "request body contains invalid fields"@
            }
        },
{
    let mark = "unknown field `"@;
    let at = before.len();
    if message@ == before + mark + field + "`"@ + after && !field.contains('`') && (forall|at: int|
        0 <= at < before.len() ==> !occurs_at(message@, mark, at)) {
        reveal_strlit("`");
        assert(message@.subrange(at as int, (at + mark.len()) as int) =~= mark);
        text::lemma_position_from(message@, mark, 0, Some(at));
        let rest = message@.skip((at + mark.len()) as int);
        assert(rest =~= field + seq!['`'] + after);
        text::cut_at_the_first_mark(field, '`', after);
    }
    if !occurs(message@, mark) {
        text::lemma_position_from(message@, mark, 0, None);
    }
}

} // verus!
