//! The helper that runs on the host: it starts the model servers, and keeps the host awake.

use serde_json::Value;
use vstd::prelude::*;

use crate::json;
use crate::json::{
    json_parse, json_text, json_tree, lemma_count_readable, lemma_object_readable, nesting_limit,
    object_text, optional_tree, readable, JsonTree,
};
use crate::numeral::{decimal, decimal_read_back, decimal_text, number};
use crate::steps::{
    after_active, after_models, after_shown, after_start, after_wait, is_active_answer, steps_left,
    unit_stopped, unstarted, LeaseAsked, LeaseStep, ReleaseStep, StartStep, StartStepView, Starting,
    StartingView,
};
use crate::table::{entry_or, number_or, TextTable};
use crate::text;
use crate::text::{occurs, text_view};

verus! {

/// How a helper command went.
#[derive(Clone, Copy, Debug, PartialEq, Eq, Structural)]
pub enum HelperStatus {
    Okay,
    Mismatch,
    Error,
}

/// The name of a status in JSON.
pub open spec fn status_name(status: HelperStatus) -> Seq<char> {
    match status {
        HelperStatus::Okay => "ok"@,
        HelperStatus::Mismatch => "mismatch"@,
        HelperStatus::Error => "error"@,
    }
}

impl HelperStatus {
    /// The name of the status in JSON.
    pub fn as_str(&self) -> (r: &'static str)
        ensures
            r@ == status_name(*self),
    {
        match self {
            HelperStatus::Okay => "ok",
            HelperStatus::Mismatch => "mismatch",
            HelperStatus::Error => "error",
        }
    }
}

/// Which of the two model servers is meant.
#[derive(Clone, Copy, Debug, PartialEq, Eq, Structural)]
pub enum Target {
    Chat,
    Embeddings,
}

/// The name of a target on the command line.
pub open spec fn target_name(target: Target) -> Seq<char> {
    match target {
        Target::Chat => "chat"@,
        Target::Embeddings => "embeddings"@,
    }
}

/// The target of a name.
pub open spec fn target_named(name: Seq<char>) -> Option<Target> {
    if name == "chat"@ {
        Some(Target::Chat)
    } else if name == "embeddings"@ {
        Some(Target::Embeddings)
    } else {
        None
    }
}

impl Target {
    /// The name of the target on the command line.
    pub fn as_str(&self) -> (r: &'static str)
        ensures
            r@ == target_name(*self),
    {
        match self {
            Target::Chat => "chat",
            Target::Embeddings => "embeddings",
        }
    }

    /// The target of a name.
    pub fn parse(name: &str) -> (r: Result<Target, String>)
        ensures
            match r {
                Ok(target) => target_named(name@) == Some(target),
                Err(message) => target_named(name@) is None && message@ == "unknown target '"@
                    + name@ + "', expected 'chat' or 'embeddings'"@,
            },
    {
        if text::same(name, "chat") {
            Ok(Target::Chat)
        } else if text::same(name, "embeddings") {
            Ok(Target::Embeddings)
        } else {
            Err(
                "unknown target '".to_string().concat(name).concat(
                    "', expected 'chat' or 'embeddings'",
                ),
            )
        }
    }
}

impl std::str::FromStr for Target {
    type Err = String;

    fn from_str(name: &str) -> (r: Result<Target, String>)
        ensures
            match r {
                Ok(target) => target_named(name@) == Some(target),
                Err(message) => target_named(name@) is None && message@ == "unknown target '"@
                    + name@ + "', expected 'chat' or 'embeddings'"@,
            },
    {
        Target::parse(name)
    }
}

/// A target is read back from its name.
pub proof fn target_read_back(target: Target)
    ensures
        target_named(target_name(target)) == Some(target),
{
    reveal_strlit("chat");
    reveal_strlit("embeddings");
    assert("chat"@.len() != "embeddings"@.len());
}

/// The state of a systemd unit.
#[derive(Debug, PartialEq, Eq)]
pub struct UnitInfo {
    pub unit_name: String,
    pub active_state: String,
    pub sub_state: String,
    pub description: String,
}

/// What a `UnitInfo` says.
#[verifier::ext_equal]
pub struct UnitInfoView {
    pub unit_name: Seq<char>,
    pub active_state: Seq<char>,
    pub sub_state: Seq<char>,
    pub description: Seq<char>,
}

impl View for UnitInfo {
    type V = UnitInfoView;

    open spec fn view(&self) -> UnitInfoView {
        UnitInfoView {
            unit_name: self.unit_name@,
            active_state: self.active_state@,
            sub_state: self.sub_state@,
            description: self.description@,
        }
    }
}

impl Clone for UnitInfo {
    fn clone(&self) -> (r: UnitInfo)
        ensures
            r == *self,
    {
        UnitInfo {
            unit_name: self.unit_name.clone(),
            active_state: self.active_state.clone(),
            sub_state: self.sub_state.clone(),
            description: self.description.clone(),
        }
    }
}

/// The state of an optional unit.
pub open spec fn unit_view(unit: Option<UnitInfo>) -> Option<UnitInfoView> {
    match unit {
        Some(u) => Some(u@),
        None => None,
    }
}

/// A unit as JSON.
pub open spec fn unit_tree(unit: UnitInfoView) -> JsonTree {
    JsonTree::Object(
        map![
            "unit_name"@ => JsonTree::Text(unit.unit_name),
            "active_state"@ => JsonTree::Text(unit.active_state),
            "sub_state"@ => JsonTree::Text(unit.sub_state),
            "description"@ => JsonTree::Text(unit.description),
        ],
    )
}

/// An optional unit as JSON.
pub open spec fn optional_unit_tree(unit: Option<UnitInfoView>) -> JsonTree {
    match unit {
        Some(u) => unit_tree(u),
        None => JsonTree::Null,
    }
}

impl UnitInfo {
    pub fn to_json(&self) -> (r: Value)
        ensures
            json_tree(r) == unit_tree(self@),
    {
        let mut r = json::null();
        json::set_field(&mut r, "unit_name", json::string(self.unit_name.as_str()));
        json::set_field(&mut r, "active_state", json::string(self.active_state.as_str()));
        json::set_field(&mut r, "sub_state", json::string(self.sub_state.as_str()));
        json::set_field(&mut r, "description", json::string(self.description.as_str()));
        r
    }
}

fn optional_unit_json(unit: &Option<UnitInfo>) -> (r: Value)
    ensures
        json_tree(r) == optional_unit_tree(unit_view(*unit)),
{
    match unit {
        Some(u) => u.to_json(),
        None => json::null(),
    }
}

/// The model that a server offers.
#[derive(Debug, PartialEq, Eq)]
pub struct ModelInfo {
    pub model_alias: String,
    pub model_path: String,
    pub serving: bool,
    pub ready: bool,
    pub reported_id: Option<String>,
}

/// What a `ModelInfo` says.
#[verifier::ext_equal]
pub struct ModelInfoView {
    pub model_alias: Seq<char>,
    pub model_path: Seq<char>,
    pub serving: bool,
    pub ready: bool,
    pub reported_id: Option<Seq<char>>,
}

impl View for ModelInfo {
    type V = ModelInfoView;

    open spec fn view(&self) -> ModelInfoView {
        ModelInfoView {
            model_alias: self.model_alias@,
            model_path: self.model_path@,
            serving: self.serving,
            ready: self.ready,
            reported_id: text_view(self.reported_id),
        }
    }
}

/// An optional model.
pub open spec fn model_view(model: Option<ModelInfo>) -> Option<ModelInfoView> {
    match model {
        Some(m) => Some(m@),
        None => None,
    }
}

/// A model as JSON.
pub open spec fn model_tree(model: ModelInfoView) -> JsonTree {
    JsonTree::Object(
        map![
            "model_alias"@ => JsonTree::Text(model.model_alias),
            "model_path"@ => JsonTree::Text(model.model_path),
            "serving"@ => JsonTree::Bool(model.serving),
            "ready"@ => JsonTree::Bool(model.ready),
            "reported_id"@ => optional_tree(model.reported_id),
        ],
    )
}

/// An optional model as JSON.
pub open spec fn optional_model_tree(model: Option<ModelInfoView>) -> JsonTree {
    match model {
        Some(m) => model_tree(m),
        None => JsonTree::Null,
    }
}

impl ModelInfo {
    pub fn to_json(&self) -> (r: Value)
        ensures
            json_tree(r) == model_tree(self@),
    {
        let mut r = json::null();
        json::set_field(&mut r, "model_alias", json::string(self.model_alias.as_str()));
        json::set_field(&mut r, "model_path", json::string(self.model_path.as_str()));
        json::set_field(&mut r, "serving", json::boolean(self.serving));
        json::set_field(&mut r, "ready", json::boolean(self.ready));
        json::set_field(&mut r, "reported_id", json::optional_string(&self.reported_id));
        r
    }
}

fn optional_model_json(model: &Option<ModelInfo>) -> (r: Value)
    ensures
        json_tree(r) == optional_model_tree(model_view(*model)),
{
    match model {
        Some(m) => m.to_json(),
        None => json::null(),
    }
}

/// The answer to `status`.
#[derive(Debug, PartialEq, Eq)]
pub struct StatusResponse {
    pub status: HelperStatus,
    pub message: String,
    pub llama_server: Option<UnitInfo>,
    pub inhibit_holder: Option<UnitInfo>,
    pub active_model: Option<ModelInfo>,
    pub llama_server_embeddings: Option<UnitInfo>,
    pub active_model_embeddings: Option<ModelInfo>,
}

/// What a `StatusResponse` says.
#[verifier::ext_equal]
pub struct StatusView {
    pub status: HelperStatus,
    pub message: Seq<char>,
    pub llama_server: Option<UnitInfoView>,
    pub inhibit_holder: Option<UnitInfoView>,
    pub active_model: Option<ModelInfoView>,
    pub llama_server_embeddings: Option<UnitInfoView>,
    pub active_model_embeddings: Option<ModelInfoView>,
}

impl View for StatusResponse {
    type V = StatusView;

    open spec fn view(&self) -> StatusView {
        StatusView {
            status: self.status,
            message: self.message@,
            llama_server: unit_view(self.llama_server),
            inhibit_holder: unit_view(self.inhibit_holder),
            active_model: model_view(self.active_model),
            llama_server_embeddings: unit_view(self.llama_server_embeddings),
            active_model_embeddings: model_view(self.active_model_embeddings),
        }
    }
}

/// The answer to `status` as JSON.
pub open spec fn status_tree(response: StatusView) -> JsonTree {
    JsonTree::Object(
        map![
            "status"@ => JsonTree::Text(status_name(response.status)),
            "message"@ => JsonTree::Text(response.message),
            "llama_server"@ => optional_unit_tree(response.llama_server),
            "inhibit_holder"@ => optional_unit_tree(response.inhibit_holder),
            "active_model"@ => optional_model_tree(response.active_model),
            "llama_server_embeddings"@ => optional_unit_tree(response.llama_server_embeddings),
            "active_model_embeddings"@ => optional_model_tree(response.active_model_embeddings),
        ],
    )
}

impl StatusResponse {
    pub fn to_json(&self) -> (r: Value)
        ensures
            json_tree(r) == status_tree(self@),
    {
        let mut r = json::null();
        json::set_field(&mut r, "status", json::string(self.status.as_str()));
        json::set_field(&mut r, "message", json::string(self.message.as_str()));
        json::set_field(&mut r, "llama_server", optional_unit_json(&self.llama_server));
        json::set_field(&mut r, "inhibit_holder", optional_unit_json(&self.inhibit_holder));
        json::set_field(&mut r, "active_model", optional_model_json(&self.active_model));
        json::set_field(
            &mut r,
            "llama_server_embeddings",
            optional_unit_json(&self.llama_server_embeddings),
        );
        json::set_field(
            &mut r,
            "active_model_embeddings",
            optional_model_json(&self.active_model_embeddings),
        );
        r
    }
}

/// The answer to `ensure-started`.
#[derive(Debug, PartialEq, Eq)]
pub struct EnsureStartedResponse {
    pub status: HelperStatus,
    pub message: String,
    pub model_alias: String,
    pub model_path: String,
    pub startup_triggered: bool,
    pub server_ready: bool,
    pub model_verified: bool,
    pub llama_server: Option<UnitInfo>,
}

/// What an `EnsureStartedResponse` says.
#[verifier::ext_equal]
pub struct EnsureStartedView {
    pub status: HelperStatus,
    pub message: Seq<char>,
    pub model_alias: Seq<char>,
    pub model_path: Seq<char>,
    pub startup_triggered: bool,
    pub server_ready: bool,
    pub model_verified: bool,
    pub llama_server: Option<UnitInfoView>,
}

impl View for EnsureStartedResponse {
    type V = EnsureStartedView;

    open spec fn view(&self) -> EnsureStartedView {
        EnsureStartedView {
            status: self.status,
            message: self.message@,
            model_alias: self.model_alias@,
            model_path: self.model_path@,
            startup_triggered: self.startup_triggered,
            server_ready: self.server_ready,
            model_verified: self.model_verified,
            llama_server: unit_view(self.llama_server),
        }
    }
}

/// The answer to `ensure-started` as JSON.
pub open spec fn ensure_started_tree(response: EnsureStartedView) -> JsonTree {
    JsonTree::Object(
        map![
            "status"@ => JsonTree::Text(status_name(response.status)),
            "message"@ => JsonTree::Text(response.message),
            "model_alias"@ => JsonTree::Text(response.model_alias),
            "model_path"@ => JsonTree::Text(response.model_path),
            "startup_triggered"@ => JsonTree::Bool(response.startup_triggered),
            "server_ready"@ => JsonTree::Bool(response.server_ready),
            "model_verified"@ => JsonTree::Bool(response.model_verified),
            "llama_server"@ => optional_unit_tree(response.llama_server),
        ],
    )
}

impl EnsureStartedResponse {
    pub fn to_json(&self) -> (r: Value)
        ensures
            json_tree(r) == ensure_started_tree(self@),
    {
        let mut r = json::null();
        json::set_field(&mut r, "status", json::string(self.status.as_str()));
        json::set_field(&mut r, "message", json::string(self.message.as_str()));
        json::set_field(&mut r, "model_alias", json::string(self.model_alias.as_str()));
        json::set_field(&mut r, "model_path", json::string(self.model_path.as_str()));
        json::set_field(&mut r, "startup_triggered", json::boolean(self.startup_triggered));
        json::set_field(&mut r, "server_ready", json::boolean(self.server_ready));
        json::set_field(&mut r, "model_verified", json::boolean(self.model_verified));
        json::set_field(&mut r, "llama_server", optional_unit_json(&self.llama_server));
        r
    }
}

/// The answer to `lease acquire`.
#[derive(Debug, PartialEq, Eq)]
pub struct LeaseAcquireResponse {
    pub status: HelperStatus,
    pub message: String,
    pub inhibit_holder: Option<UnitInfo>,
    pub ttl_secs: u64,
    pub renewed: bool,
}

/// What a `LeaseAcquireResponse` says.
#[verifier::ext_equal]
pub struct LeaseAcquireView {
    pub status: HelperStatus,
    pub message: Seq<char>,
    pub inhibit_holder: Option<UnitInfoView>,
    pub ttl_secs: u64,
    pub renewed: bool,
}

impl View for LeaseAcquireResponse {
    type V = LeaseAcquireView;

    open spec fn view(&self) -> LeaseAcquireView {
        LeaseAcquireView {
            status: self.status,
            message: self.message@,
            inhibit_holder: unit_view(self.inhibit_holder),
            ttl_secs: self.ttl_secs,
            renewed: self.renewed,
        }
    }
}

/// The answer to `lease acquire` as JSON.
pub open spec fn lease_acquire_tree(response: LeaseAcquireView) -> JsonTree {
    JsonTree::Object(
        map![
            "status"@ => JsonTree::Text(status_name(response.status)),
            "message"@ => JsonTree::Text(response.message),
            "inhibit_holder"@ => optional_unit_tree(response.inhibit_holder),
            "ttl_secs"@ => JsonTree::Number(decimal(response.ttl_secs as nat)),
            "renewed"@ => JsonTree::Bool(response.renewed),
        ],
    )
}

impl LeaseAcquireResponse {
    pub fn to_json(&self) -> (r: Value)
        ensures
            json_tree(r) == lease_acquire_tree(self@),
    {
        let mut r = json::null();
        json::set_field(&mut r, "status", json::string(self.status.as_str()));
        json::set_field(&mut r, "message", json::string(self.message.as_str()));
        json::set_field(&mut r, "inhibit_holder", optional_unit_json(&self.inhibit_holder));
        json::set_field(&mut r, "ttl_secs", json::unsigned(self.ttl_secs));
        json::set_field(&mut r, "renewed", json::boolean(self.renewed));
        r
    }
}

/// What the answers to `lease release` and `lease inspect` say.
#[verifier::ext_equal]
pub struct LeaseView {
    pub status: HelperStatus,
    pub message: Seq<char>,
    pub inhibit_holder: Option<UnitInfoView>,
}

/// The answers to `lease release` and `lease inspect` as JSON.
pub open spec fn lease_tree(response: LeaseView) -> JsonTree {
    JsonTree::Object(
        map![
            "status"@ => JsonTree::Text(status_name(response.status)),
            "message"@ => JsonTree::Text(response.message),
            "inhibit_holder"@ => optional_unit_tree(response.inhibit_holder),
        ],
    )
}

fn lease_json(status: HelperStatus, message: &String, inhibit_holder: &Option<UnitInfo>) -> (r:
    Value)
    ensures
        json_tree(r) == lease_tree(
            LeaseView {
                status,
                message: message@,
                inhibit_holder: unit_view(*inhibit_holder),
            },
        ),
{
    let mut r = json::null();
    json::set_field(&mut r, "status", json::string(status.as_str()));
    json::set_field(&mut r, "message", json::string(message.as_str()));
    json::set_field(&mut r, "inhibit_holder", optional_unit_json(inhibit_holder));
    r
}

/// The answer to `lease release`.
#[derive(Debug, PartialEq, Eq)]
pub struct LeaseReleaseResponse {
    pub status: HelperStatus,
    pub message: String,
    pub inhibit_holder: Option<UnitInfo>,
}

impl View for LeaseReleaseResponse {
    type V = LeaseView;

    open spec fn view(&self) -> LeaseView {
        LeaseView {
            status: self.status,
            message: self.message@,
            inhibit_holder: unit_view(self.inhibit_holder),
        }
    }
}

impl LeaseReleaseResponse {
    pub fn to_json(&self) -> (r: Value)
        ensures
            json_tree(r) == lease_tree(self@),
    {
        lease_json(self.status, &self.message, &self.inhibit_holder)
    }
}

/// The answer to `lease inspect`.
#[derive(Debug, PartialEq, Eq)]
pub struct LeaseInspectResponse {
    pub status: HelperStatus,
    pub message: String,
    pub inhibit_holder: Option<UnitInfo>,
}

impl View for LeaseInspectResponse {
    type V = LeaseView;

    open spec fn view(&self) -> LeaseView {
        LeaseView {
            status: self.status,
            message: self.message@,
            inhibit_holder: unit_view(self.inhibit_holder),
        }
    }
}

impl LeaseInspectResponse {
    pub fn to_json(&self) -> (r: Value)
        ensures
            json_tree(r) == lease_tree(self@),
    {
        lease_json(self.status, &self.message, &self.inhibit_holder)
    }
}

fn string_text(text: &String) -> (r: String)
    ensures
        r@ == json_text(JsonTree::Text(text@)),
        !r@.contains('\n'),
{
    json::document_text(&json::string(text.as_str()))
}

fn bool_text(b: bool) -> (r: String)
    ensures
        r@ == json_text(JsonTree::Bool(b)),
        !r@.contains('\n'),
{
    json::document_text(&json::boolean(b))
}

fn status_text(status: HelperStatus) -> (r: String)
    ensures
        r@ == json_text(JsonTree::Text(status_name(status))),
        !r@.contains('\n'),
{
    json::document_text(&json::string(status.as_str()))
}

proof fn lemma_names_on_one_line()
    ensures
        !"unit_name"@.contains('\n'),
        !"active_state"@.contains('\n'),
        !"sub_state"@.contains('\n'),
        !"description"@.contains('\n'),
        !"model_alias"@.contains('\n'),
        !"model_path"@.contains('\n'),
        !"serving"@.contains('\n'),
        !"ready"@.contains('\n'),
        !"reported_id"@.contains('\n'),
        !"status"@.contains('\n'),
        !"message"@.contains('\n'),
        !"llama_server"@.contains('\n'),
        !"inhibit_holder"@.contains('\n'),
        !"active_model"@.contains('\n'),
        !"llama_server_embeddings"@.contains('\n'),
        !"active_model_embeddings"@.contains('\n'),
        !"startup_triggered"@.contains('\n'),
        !"server_ready"@.contains('\n'),
        !"model_verified"@.contains('\n'),
        !"ttl_secs"@.contains('\n'),
        !"renewed"@.contains('\n'),
{
    reveal_strlit("unit_name");
    reveal_strlit("active_state");
    reveal_strlit("sub_state");
    reveal_strlit("description");
    reveal_strlit("model_alias");
    reveal_strlit("model_path");
    reveal_strlit("serving");
    reveal_strlit("ready");
    reveal_strlit("reported_id");
    reveal_strlit("status");
    reveal_strlit("message");
    reveal_strlit("llama_server");
    reveal_strlit("inhibit_holder");
    reveal_strlit("active_model");
    reveal_strlit("llama_server_embeddings");
    reveal_strlit("active_model_embeddings");
    reveal_strlit("startup_triggered");
    reveal_strlit("server_ready");
    reveal_strlit("model_verified");
    reveal_strlit("ttl_secs");
    reveal_strlit("renewed");
}

/// A unit: its fields as they are printed.
pub open spec fn unit_members(unit: UnitInfoView) -> Seq<(Seq<char>, Seq<char>)> {
    seq![
        ("unit_name"@, json_text(JsonTree::Text(unit.unit_name))),
        ("active_state"@, json_text(JsonTree::Text(unit.active_state))),
        ("sub_state"@, json_text(JsonTree::Text(unit.sub_state))),
        ("description"@, json_text(JsonTree::Text(unit.description))),
    ]
}

/// A unit, as it is printed.
pub open spec fn unit_text(unit: UnitInfoView) -> Seq<char> {
    object_text(unit_members(unit))
}

impl UnitInfo {
    /// The answer as it is printed: its fields in their order, on one line.
    pub fn to_text(&self) -> (r: String)
        ensures
            r@ == unit_text(self@),
            !r@.contains('\n'),
    {
        let members: Vec<(&str, String)> = vec![
            ("unit_name", string_text(&self.unit_name)),
            ("active_state", string_text(&self.active_state)),
            ("sub_state", string_text(&self.sub_state)),
            ("description", string_text(&self.description)),
        ];
        proof {
            lemma_names_on_one_line();
        }
        let r = json::print_members(&members);
        assert(unit_text(self@) == object_text(json::members_view(members@))) by {
            assert(json::members_view(members@) =~= unit_members(self@));
        }
        r
    }
}

/// An optional unit, as it is printed.
pub open spec fn optional_unit_printed(unit: Option<UnitInfoView>) -> Seq<char> {
    match unit {
        Some(u) => unit_text(u),
        None => json_text(JsonTree::Null),
    }
}

fn optional_unit_text(unit: &Option<UnitInfo>) -> (r: String)
    ensures
        r@ == optional_unit_printed(unit_view(*unit)),
        !r@.contains('\n'),
{
    match unit {
        Some(u) => u.to_text(),
        None => json::document_text(&json::null()),
    }
}

/// A model: its fields as they are printed.
pub open spec fn model_members(model: ModelInfoView) -> Seq<(Seq<char>, Seq<char>)> {
    seq![
        ("model_alias"@, json_text(JsonTree::Text(model.model_alias))),
        ("model_path"@, json_text(JsonTree::Text(model.model_path))),
        ("serving"@, json_text(JsonTree::Bool(model.serving))),
        ("ready"@, json_text(JsonTree::Bool(model.ready))),
        ("reported_id"@, json_text(optional_tree(model.reported_id))),
    ]
}

/// A model, as it is printed.
pub open spec fn model_text(model: ModelInfoView) -> Seq<char> {
    object_text(model_members(model))
}

impl ModelInfo {
    /// The answer as it is printed: its fields in their order, on one line.
    pub fn to_text(&self) -> (r: String)
        ensures
            r@ == model_text(self@),
            !r@.contains('\n'),
    {
        let members: Vec<(&str, String)> = vec![
            ("model_alias", string_text(&self.model_alias)),
            ("model_path", string_text(&self.model_path)),
            ("serving", bool_text(self.serving)),
            ("ready", bool_text(self.ready)),
            ("reported_id", json::document_text(&json::optional_string(&self.reported_id))),
        ];
        proof {
            lemma_names_on_one_line();
        }
        let r = json::print_members(&members);
        assert(model_text(self@) == object_text(json::members_view(members@))) by {
            assert(json::members_view(members@) =~= model_members(self@));
        }
        r
    }
}

/// An optional model, as it is printed.
pub open spec fn optional_model_printed(model: Option<ModelInfoView>) -> Seq<char> {
    match model {
        Some(m) => model_text(m),
        None => json_text(JsonTree::Null),
    }
}

fn optional_model_text(model: &Option<ModelInfo>) -> (r: String)
    ensures
        r@ == optional_model_printed(model_view(*model)),
        !r@.contains('\n'),
{
    match model {
        Some(m) => m.to_text(),
        None => json::document_text(&json::null()),
    }
}

/// The answer to `status`: its fields as they are printed.
pub open spec fn status_answer_members(response: StatusView) -> Seq<(Seq<char>, Seq<char>)> {
    seq![
        ("status"@, json_text(JsonTree::Text(status_name(response.status)))),
        ("message"@, json_text(JsonTree::Text(response.message))),
        ("llama_server"@, optional_unit_printed(response.llama_server)),
        ("inhibit_holder"@, optional_unit_printed(response.inhibit_holder)),
        ("active_model"@, optional_model_printed(response.active_model)),
        ("llama_server_embeddings"@, optional_unit_printed(response.llama_server_embeddings)),
        ("active_model_embeddings"@, optional_model_printed(response.active_model_embeddings)),
    ]
}

/// The answer to `status`, as it is printed.
pub open spec fn status_answer_text(response: StatusView) -> Seq<char> {
    object_text(status_answer_members(response))
}

impl StatusResponse {
    /// The answer as it is printed: its fields in their order, on one line.
    pub fn to_text(&self) -> (r: String)
        ensures
            r@ == status_answer_text(self@),
            !r@.contains('\n'),
    {
        let members: Vec<(&str, String)> = vec![
            ("status", status_text(self.status)),
            ("message", string_text(&self.message)),
            ("llama_server", optional_unit_text(&self.llama_server)),
            ("inhibit_holder", optional_unit_text(&self.inhibit_holder)),
            ("active_model", optional_model_text(&self.active_model)),
            ("llama_server_embeddings", optional_unit_text(&self.llama_server_embeddings)),
            ("active_model_embeddings", optional_model_text(&self.active_model_embeddings)),
        ];
        proof {
            lemma_names_on_one_line();
        }
        let r = json::print_members(&members);
        assert(status_answer_text(self@) == object_text(json::members_view(members@))) by {
            assert(json::members_view(members@) =~= status_answer_members(self@));
        }
        r
    }
}

/// The answer to `ensure-started`: its fields as they are printed.
pub open spec fn ensure_started_members(response: EnsureStartedView) -> Seq<(Seq<char>, Seq<char>)> {
    seq![
        ("status"@, json_text(JsonTree::Text(status_name(response.status)))),
        ("message"@, json_text(JsonTree::Text(response.message))),
        ("model_alias"@, json_text(JsonTree::Text(response.model_alias))),
        ("model_path"@, json_text(JsonTree::Text(response.model_path))),
        ("startup_triggered"@, json_text(JsonTree::Bool(response.startup_triggered))),
        ("server_ready"@, json_text(JsonTree::Bool(response.server_ready))),
        ("model_verified"@, json_text(JsonTree::Bool(response.model_verified))),
        ("llama_server"@, optional_unit_printed(response.llama_server)),
    ]
}

/// The answer to `ensure-started`, as it is printed.
pub open spec fn ensure_started_text(response: EnsureStartedView) -> Seq<char> {
    object_text(ensure_started_members(response))
}

impl EnsureStartedResponse {
    /// The answer as it is printed: its fields in their order, on one line.
    pub fn to_text(&self) -> (r: String)
        ensures
            r@ == ensure_started_text(self@),
            !r@.contains('\n'),
    {
        let members: Vec<(&str, String)> = vec![
            ("status", status_text(self.status)),
            ("message", string_text(&self.message)),
            ("model_alias", string_text(&self.model_alias)),
            ("model_path", string_text(&self.model_path)),
            ("startup_triggered", bool_text(self.startup_triggered)),
            ("server_ready", bool_text(self.server_ready)),
            ("model_verified", bool_text(self.model_verified)),
            ("llama_server", optional_unit_text(&self.llama_server)),
        ];
        proof {
            lemma_names_on_one_line();
        }
        let r = json::print_members(&members);
        assert(ensure_started_text(self@) == object_text(json::members_view(members@))) by {
            assert(json::members_view(members@) =~= ensure_started_members(self@));
        }
        r
    }
}

/// The answer to `lease acquire`: its fields as they are printed.
pub open spec fn lease_acquire_members(response: LeaseAcquireView) -> Seq<(Seq<char>, Seq<char>)> {
    seq![
        ("status"@, json_text(JsonTree::Text(status_name(response.status)))),
        ("message"@, json_text(JsonTree::Text(response.message))),
        ("inhibit_holder"@, optional_unit_printed(response.inhibit_holder)),
        ("ttl_secs"@, json_text(JsonTree::Number(decimal(response.ttl_secs as nat)))),
        ("renewed"@, json_text(JsonTree::Bool(response.renewed))),
    ]
}

/// The answer to `lease acquire`, as it is printed.
pub open spec fn lease_acquire_text(response: LeaseAcquireView) -> Seq<char> {
    object_text(lease_acquire_members(response))
}

impl LeaseAcquireResponse {
    /// The answer as it is printed: its fields in their order, on one line.
    pub fn to_text(&self) -> (r: String)
        ensures
            r@ == lease_acquire_text(self@),
            !r@.contains('\n'),
    {
        let members: Vec<(&str, String)> = vec![
            ("status", status_text(self.status)),
            ("message", string_text(&self.message)),
            ("inhibit_holder", optional_unit_text(&self.inhibit_holder)),
            ("ttl_secs", json::document_text(&json::unsigned(self.ttl_secs))),
            ("renewed", bool_text(self.renewed)),
        ];
        proof {
            lemma_names_on_one_line();
        }
        let r = json::print_members(&members);
        assert(lease_acquire_text(self@) == object_text(json::members_view(members@))) by {
            assert(json::members_view(members@) =~= lease_acquire_members(self@));
        }
        r
    }
}

/// The answer to `lease release` or `lease inspect`: its fields as they are printed.
pub open spec fn lease_members(response: LeaseView) -> Seq<(Seq<char>, Seq<char>)> {
    seq![
        ("status"@, json_text(JsonTree::Text(status_name(response.status)))),
        ("message"@, json_text(JsonTree::Text(response.message))),
        ("inhibit_holder"@, optional_unit_printed(response.inhibit_holder)),
    ]
}

/// The answer to `lease release` or `lease inspect`, as it is printed.
pub open spec fn lease_text(response: LeaseView) -> Seq<char> {
    object_text(lease_members(response))
}

impl LeaseReleaseResponse {
    /// The answer as it is printed: its fields in their order, on one line.
    pub fn to_text(&self) -> (r: String)
        ensures
            r@ == lease_text(self@),
            !r@.contains('\n'),
    {
        let members: Vec<(&str, String)> = vec![
            ("status", status_text(self.status)),
            ("message", string_text(&self.message)),
            ("inhibit_holder", optional_unit_text(&self.inhibit_holder)),
        ];
        proof {
            lemma_names_on_one_line();
        }
        let r = json::print_members(&members);
        assert(lease_text(self@) == object_text(json::members_view(members@))) by {
            assert(json::members_view(members@) =~= lease_members(self@));
        }
        r
    }
}

impl LeaseInspectResponse {
    /// The answer as it is printed: its fields in their order, on one line.
    pub fn to_text(&self) -> (r: String)
        ensures
            r@ == lease_text(self@),
            !r@.contains('\n'),
    {
        let members: Vec<(&str, String)> = vec![
            ("status", status_text(self.status)),
            ("message", string_text(&self.message)),
            ("inhibit_holder", optional_unit_text(&self.inhibit_holder)),
        ];
        proof {
            lemma_names_on_one_line();
        }
        let r = json::print_members(&members);
        assert(lease_text(self@) == object_text(json::members_view(members@))) by {
            assert(json::members_view(members@) =~= lease_members(self@));
        }
        r
    }
}

/// What the helper needs of systemd.
pub trait SystemdControl: Send + Sync {
    /// The properties of a unit.
    fn show_unit(&self, unit: &str) -> Result<TextTable, String>;

    fn is_active(&self, unit: &str) -> Result<bool, String>;

    fn start_unit(&self, unit: &str) -> Result<(), String>;

    fn stop_unit(&self, unit: &str) -> (r: Result<(), String>)
        default_ensures
            r is Err,
            r->Err_0@ == "stop_unit not implemented"@,
    {
        Err("stop_unit not implemented".to_string())
    }

    /// Runs `args` as a transient unit, in place of the one that has its name.
    fn replace_transient_unit(&self, unit: &str, description: &str, args: &[&str]) -> (r: Result<
        (),
        String,
    >)
        default_ensures
            r is Err,
            r->Err_0@ == "replace_transient_unit not implemented"@,
    {
        Err("replace_transient_unit not implemented".to_string())
    }
}

/// What the helper needs of HTTP.
pub trait ServerCheck: Send + Sync {
    /// The body of a successful response.
    fn get_text(&self, url: &str) -> Result<String, String>;
}

/// What the helper has to know of its host.
#[derive(Debug, PartialEq, Eq)]
pub struct HelperConfig {
    pub llama_server_unit: String,
    pub inhibit_holder_unit: String,
    pub llama_server_port: u16,
    pub llama_server_embeddings_unit: String,
    pub llama_server_embeddings_port: u16,
    pub server_start_timeout_secs: u64,
}

/// What a `HelperConfig` says.
#[verifier::ext_equal]
pub struct HelperConfigView {
    pub llama_server_unit: Seq<char>,
    pub inhibit_holder_unit: Seq<char>,
    pub llama_server_port: u16,
    pub llama_server_embeddings_unit: Seq<char>,
    pub llama_server_embeddings_port: u16,
    pub server_start_timeout_secs: u64,
}

impl View for HelperConfig {
    type V = HelperConfigView;

    open spec fn view(&self) -> HelperConfigView {
        HelperConfigView {
            llama_server_unit: self.llama_server_unit@,
            inhibit_holder_unit: self.inhibit_holder_unit@,
            llama_server_port: self.llama_server_port,
            llama_server_embeddings_unit: self.llama_server_embeddings_unit@,
            llama_server_embeddings_port: self.llama_server_embeddings_port,
            server_start_timeout_secs: self.server_start_timeout_secs,
        }
    }
}

impl Clone for HelperConfig {
    fn clone(&self) -> (r: HelperConfig)
        ensures
            r == *self,
    {
        HelperConfig {
            llama_server_unit: self.llama_server_unit.clone(),
            inhibit_holder_unit: self.inhibit_holder_unit.clone(),
            llama_server_port: self.llama_server_port,
            llama_server_embeddings_unit: self.llama_server_embeddings_unit.clone(),
            llama_server_embeddings_port: self.llama_server_embeddings_port,
            server_start_timeout_secs: self.server_start_timeout_secs,
        }
    }
}

/// The configuration that the environment asks for.
pub open spec fn helper_setting(env: Map<Seq<char>, Seq<char>>) -> HelperConfigView {
    HelperConfigView {
        llama_server_unit: entry_or(env, "LLAMA_SERVER_UNIT"@, "llama-server"@),
        inhibit_holder_unit: entry_or(env, "INHIBIT_HOLDER_UNIT"@, "llm-wake-proxy-inhibit"@),
        llama_server_port: number_or(
            env,
            "LLAMA_SERVER_PORT"@,
            u16::MAX as nat,
            8080,
        ) as u16,
        llama_server_embeddings_unit: entry_or(
            env,
            "LLAMA_SERVER_EMBEDDINGS_UNIT"@,
            "llama-server-embeddings"@,
        ),
        llama_server_embeddings_port: number_or(
            env,
            "LLAMA_SERVER_EMBEDDINGS_PORT"@,
            u16::MAX as nat,
            8081,
        ) as u16,
        server_start_timeout_secs: number_or(
            env,
            "SERVER_START_TIMEOUT_SECS"@,
            u64::MAX as nat,
            60,
        ) as u64,
    }
}

/// The unit of a target.
pub open spec fn unit_of(config: HelperConfigView, target: Target) -> Seq<char> {
    match target {
        Target::Chat => config.llama_server_unit,
        Target::Embeddings => config.llama_server_embeddings_unit,
    }
}

/// The port of a target.
pub open spec fn port_of(config: HelperConfigView, target: Target) -> u16 {
    match target {
        Target::Chat => config.llama_server_port,
        Target::Embeddings => config.llama_server_embeddings_port,
    }
}

impl Default for HelperConfig {
    fn default() -> (r: HelperConfig)
        ensures
            r@ == helper_setting(Map::empty()),
    {
        HelperConfig {
            llama_server_unit: "llama-server".to_string(),
            inhibit_holder_unit: "llm-wake-proxy-inhibit".to_string(),
            llama_server_port: 8080,
            llama_server_embeddings_unit: "llama-server-embeddings".to_string(),
            llama_server_embeddings_port: 8081,
            server_start_timeout_secs: 60,
        }
    }
}

impl HelperConfig {
    /// The configuration that the environment asks for.
    pub fn from_env(env: &TextTable) -> (r: HelperConfig)
        ensures
            r@ == helper_setting(env@),
    {
        HelperConfig {
            llama_server_unit: env.text_or("LLAMA_SERVER_UNIT", "llama-server"),
            inhibit_holder_unit: env.text_or("INHIBIT_HOLDER_UNIT", "llm-wake-proxy-inhibit"),
            llama_server_port: env.number_or("LLAMA_SERVER_PORT", 65535, 8080) as u16,
            llama_server_embeddings_unit: env.text_or("LLAMA_SERVER_EMBEDDINGS_UNIT",
                "llama-server-embeddings",
            ),
            llama_server_embeddings_port: env.number_or("LLAMA_SERVER_EMBEDDINGS_PORT",
                65535,
                8081,
            ) as u16,
            server_start_timeout_secs: env.number_or("SERVER_START_TIMEOUT_SECS",
                u64::MAX,
                60,
            ),
        }
    }

    /// The unit of a target.
    pub fn unit_for(&self, target: Target) -> (r: &str)
        ensures
            r@ == unit_of(self@, target),
    {
        match target {
            Target::Chat => self.llama_server_unit.as_str(),
            Target::Embeddings => self.llama_server_embeddings_unit.as_str(),
        }
    }

    /// The port of a target.
    pub fn port_for(&self, target: Target) -> (r: u16)
        ensures
            r == port_of(self@, target),
    {
        match target {
            Target::Chat => self.llama_server_port,
            Target::Embeddings => self.llama_server_embeddings_port,
        }
    }
}

/// The properties in the lines of `systemctl show`: each line with an equals sign sets one.
pub open spec fn properties(lines: Seq<Seq<char>>) -> Map<Seq<char>, Seq<char>>
    decreases lines.len(),
{
    if lines.len() == 0 {
        Map::empty()
    } else {
        let before = properties(lines.drop_last());
        match text::cut(lines.last(), '=') {
            Some((key, value)) => before.insert(key, value),
            None => before,
        }
    }
}

/// The properties that a text of `systemctl show` sets.
pub fn parse_properties(output: &str) -> (r: TextTable)
    ensures
        r@ == properties(text::text_lines(output@)),
{
    let lines = text::lines(output);
    let ghost views = lines@.map_values(|l: String| l@);
    let mut table = TextTable::new();
    let mut i: usize = 0;
    while i < lines.len()
        invariant
            i <= lines.len(),
            views == lines@.map_values(|l: String| l@),
            table@ == properties(views.take(i as int)),
        decreases lines.len() - i,
    {
        if let Some((key, value)) = text::split_once(lines[i].as_str(), '=') {
            table.insert(key, value);
        }
        i += 1;
        assert(views.take(i as int).drop_last() =~= views.take(i - 1));
        assert(views.take(i as int).last() == lines@[i - 1]@);
    }
    assert(views.take(i as int) =~= views);
    table
}

/// The properties in the output of `systemctl show`.
pub fn parse_systemctl_output(bytes: &[u8]) -> (r: Result<TextTable, String>)
    ensures
        match r {
            Ok(table) => vstd::utf8::valid_utf8(bytes@) && table@ == properties(
                text::text_lines(vstd::utf8::decode_utf8(bytes@)),
            ),
            Err(message) => !vstd::utf8::valid_utf8(bytes@) && message@
                == "invalid UTF-8 in systemctl output: "@ + text::utf8_error(bytes@),
        },
{
    match text::from_utf8(bytes) {
        Ok(output) => Ok(parse_properties(output.as_str())),
        Err(message) => Err(
            "invalid UTF-8 in systemctl output: ".to_string().concat(message.as_str()),
        ),
    }
}

/// The address of `path` at a model server.
pub open spec fn server_url(port: u16, path: Seq<char>) -> Seq<char> {
    "http://127.0.0.1:"@ + decimal(port as nat) + path
}

fn build_server_url(port: u16, path: &str) -> (r: String)
    ensures
        r@ == server_url(port, path@),
{
    "http://127.0.0.1:".to_string().concat(decimal_text(port as u64).as_str()).concat(path)
}

/// What systemd answered about a unit: its properties, or an error.
pub open spec fn shown_view(shown: Result<TextTable, String>) -> Result<
    Map<Seq<char>, Seq<char>>,
    Seq<char>,
> {
    match shown {
        Ok(table) => Ok(table@),
        Err(message) => Err(message@),
    }
}

/// The state of a unit with these properties.
pub open spec fn unit_with(
    name: Seq<char>,
    properties: Map<Seq<char>, Seq<char>>,
) -> UnitInfoView {
    UnitInfoView {
        unit_name: name,
        active_state: entry_or(properties, "ActiveState"@, "unknown"@),
        sub_state: entry_or(properties, "SubState"@, "unknown"@),
        description: entry_or(properties, "Description"@, ""@),
    }
}

/// The state of a unit, from what systemd answered about it.
pub open spec fn unit_state(
    name: Seq<char>,
    shown: Result<Map<Seq<char>, Seq<char>>, Seq<char>>,
) -> UnitInfoView {
    match shown {
        Ok(properties) => unit_with(name, properties),
        Err(message) => UnitInfoView {
            unit_name: name,
            active_state: "error"@,
            sub_state: message,
            description: ""@,
        },
    }
}

/// The state of a unit with these properties.
pub fn unit_from_properties(name: &str, properties: &TextTable) -> (r: UnitInfo)
    ensures
        r@ == unit_with(name@, properties@),
{
    UnitInfo {
        unit_name: name.to_string(),
        active_state: properties.text_or("ActiveState", "unknown"),
        sub_state: properties.text_or("SubState", "unknown"),
        description: properties.text_or("Description", ""),
    }
}

/// The state of a unit, from what systemd answered about it.
pub fn unit_info(name: &str, shown: Result<TextTable, String>) -> (r: UnitInfo)
    ensures
        r@ == unit_state(name@, shown_view(shown)),
{
    match shown {
        Ok(properties) => unit_from_properties(name, &properties),
        Err(message) => UnitInfo {
            unit_name: name.to_string(),
            active_state: "error".to_string(),
            sub_state: message,
            description: "".to_string(),
        },
    }
}

/// A text, or an error.
pub open spec fn answer_view(answer: Result<String, String>) -> Result<Seq<char>, Seq<char>> {
    match answer {
        Ok(text) => Ok(text@),
        Err(message) => Err(message@),
    }
}

/// An optional text, or an error.
pub open spec fn identity_view(identity: Result<Option<String>, String>) -> Result<
    Option<Seq<char>>,
    Seq<char>,
> {
    match identity {
        Ok(id) => Ok(text_view(id)),
        Err(message) => Err(message@),
    }
}

/// The field of an object, or `null`.
pub open spec fn field_tree(tree: JsonTree, name: Seq<char>) -> JsonTree {
    match tree {
        JsonTree::Object(fields) => if fields.contains_key(name) {
            fields[name]
        } else {
            JsonTree::Null
        },
        _ => JsonTree::Null,
    }
}

/// The `id` of the first model in a list of models.
pub open spec fn first_id(models: JsonTree) -> Option<Seq<char>> {
    match field_tree(models, "data"@) {
        JsonTree::List(items) => if items.len() > 0 {
            match field_tree(items[0], "id"@) {
                JsonTree::Text(id) => Some(id),
                _ => None,
            }
        } else {
            None
        },
        _ => None,
    }
}

/// The model that a server names, from its answer to `/v1/models`.
pub open spec fn named_model(answer: Result<Seq<char>, Seq<char>>) -> Result<
    Option<Seq<char>>,
    Seq<char>,
> {
    match answer {
        Err(message) => Err(message),
        Ok(body) => match json_parse(body) {
            Err(message) => Err("failed to parse models response: "@ + message),
            Ok(models) => Ok(first_id(models)),
        },
    }
}

/// The `id` of the first model in a list of models.
pub fn first_model_id(models: &Value) -> (r: Option<String>)
    ensures
        text_view(r) == first_id(json_tree(*models)),
{
    match json::field(models, "data") {
        Some(data) => match json::as_list(data) {
            Some(items) => {
                if items.len() == 0 {
                    return None;
                }
                assert(items@.map_values(|item: Value| json_tree(item))[0] == json_tree(items@[0]));
                match json::field(&items[0], "id") {
                    Some(id) => match json::as_text(id) {
                        Some(id) => Some(id.to_string()),
                        None => None,
                    },
                    None => None,
                }
            },
            None => None,
        },
        None => None,
    }
}

/// The model that a server names, from its answer to `/v1/models`.
pub fn model_identity(answer: Result<String, String>) -> (r: Result<Option<String>, String>)
    ensures
        identity_view(r) == named_model(answer_view(answer)),
{
    match answer {
        Ok(body) => match json::parse_json(body.as_str()) {
            Ok(models) => Ok(first_model_id(&models)),
            Err(message) => Err(
                "failed to parse models response: ".to_string().concat(message.as_str()),
            ),
        },
        Err(message) => Err(message),
    }
}

/// What waiting for a server does next.
#[derive(Clone, Copy, Debug, PartialEq, Eq, Structural)]
pub enum ServerWait {
    /// Find out whether the server is alive; then `server_probed`.
    Probe,
    /// Sleep so many milliseconds; then `server_wait`.
    Pause(u64),
    Ready,
    GiveUp,
}

/// Waiting for a server goes on until its deadline has passed.
pub fn server_wait(deadline_passed: bool) -> (r: ServerWait)
    ensures
        r == if deadline_passed {
            ServerWait::GiveUp
        } else {
            ServerWait::Probe
        },
{
    if deadline_passed {
        ServerWait::GiveUp
    } else {
        ServerWait::Probe
    }
}

/// Waiting for a server ends when it is alive; otherwise there is a pause of half a second.
pub fn server_probed(alive: bool) -> (r: ServerWait)
    ensures
        r == if alive {
            ServerWait::Ready
        } else {
            ServerWait::Pause(500)
        },
{
    if alive {
        ServerWait::Ready
    } else {
        ServerWait::Pause(500)
    }
}

/// The model of a server that answers, by what it says its model is.
pub open spec fn served_model(identity: Result<Option<Seq<char>>, Seq<char>>) -> ModelInfoView {
    let id = match identity {
        Ok(Some(id)) => id,
        _ => Seq::<char>::empty(),
    };
    ModelInfoView {
        model_alias: id,
        model_path: id,
        serving: true,
        ready: identity is Ok,
        reported_id: None,
    }
}

/// The model of a server that answers, by what it says its model is.
pub fn active_model(identity: Result<Option<String>, String>) -> (r: ModelInfo)
    ensures
        r@ == served_model(identity_view(identity)),
{
    match identity {
        Ok(reported_id) => {
            let id = match reported_id {
                Some(id) => id,
                None => String::new(),
            };
            ModelInfo {
                model_alias: id.clone(),
                model_path: id,
                serving: true,
                ready: true,
                reported_id: None,
            }
        },
        Err(_) => ModelInfo {
            model_alias: String::new(),
            model_path: String::new(),
            serving: true,
            ready: false,
            reported_id: None,
        },
    }
}

/// Whether the model that a server names is the one at `path`: one of the two names holds the
/// other.
pub open spec fn same_model(reported: Seq<char>, path: Seq<char>) -> bool {
    occurs(reported, path) || occurs(path, reported)
}

/// The answer to `ensure-started` where the unit could not be started.
pub open spec fn start_failure(
    unit: Seq<char>,
    alias: Seq<char>,
    path: Seq<char>,
    error: Seq<char>,
) -> EnsureStartedView {
    EnsureStartedView {
        status: HelperStatus::Error,
        message: "failed to start llama-server: "@ + error,
        model_alias: alias,
        model_path: path,
        startup_triggered: false,
        server_ready: false,
        model_verified: false,
        llama_server: Some(
            UnitInfoView {
                unit_name: unit,
                active_state: "failed"@,
                sub_state: "startup_error"@,
                description: error,
            },
        ),
    }
}

/// How `ensure-started` judges a unit that runs: the status and the message. `identity` is what the
/// server says its model is, if it answered in time.
pub open spec fn start_verdict(
    path: Seq<char>,
    timeout_secs: u64,
    triggered: bool,
    identity: Option<Result<Option<Seq<char>>, Seq<char>>>,
) -> (HelperStatus, Seq<char>) {
    match identity {
        None => (
            HelperStatus::Error,
            "llama-server did not become ready within "@ + decimal(timeout_secs as nat)
                + " seconds"@,
        ),
        Some(Err(error)) => (HelperStatus::Error, "model identity check failed: "@ + error),
        Some(Ok(None)) => (
            HelperStatus::Error,
            "server responded but returned no model identifiers"@,
        ),
        Some(Ok(Some(reported))) => if !same_model(reported, path) {
            (
                HelperStatus::Mismatch,
                "expected model path '"@ + path + "', but server reports '"@ + reported + "'"@,
            )
        } else if triggered {
            (HelperStatus::Okay, "model started and verified successfully"@)
        } else {
            (HelperStatus::Okay, "model is already running and ready"@)
        },
    }
}

/// The answer to `ensure-started` where the unit runs.
pub open spec fn start_outcome(
    alias: Seq<char>,
    path: Seq<char>,
    timeout_secs: u64,
    triggered: bool,
    identity: Option<Result<Option<Seq<char>>, Seq<char>>>,
    unit: UnitInfoView,
) -> EnsureStartedView {
    let (status, message) = start_verdict(path, timeout_secs, triggered, identity);
    EnsureStartedView {
        status,
        message,
        model_alias: alias,
        model_path: path,
        startup_triggered: triggered,
        server_ready: identity is Some,
        model_verified: status is Okay,
        llama_server: Some(unit),
    }
}

/// The answer to `ensure-started` where the unit could not be started.
pub fn start_failure_response(
    unit: &str,
    model_alias: &str,
    model_path: &str,
    error: String,
) -> (r: EnsureStartedResponse)
    ensures
        r@ == start_failure(unit@, model_alias@, model_path@, error@),
{
    EnsureStartedResponse {
        status: HelperStatus::Error,
        message: "failed to start llama-server: ".to_string().concat(error.as_str()),
        model_alias: model_alias.to_string(),
        model_path: model_path.to_string(),
        startup_triggered: false,
        server_ready: false,
        model_verified: false,
        llama_server: Some(
            UnitInfo {
                unit_name: unit.to_string(),
                active_state: "failed".to_string(),
                sub_state: "startup_error".to_string(),
                description: error,
            },
        ),
    }
}

/// The answer to `ensure-started` where the unit runs. `identity` is what the server says its model
/// is, if it answered in time.
pub fn start_response(
    model_alias: &str,
    model_path: &str,
    timeout_secs: u64,
    startup_triggered: bool,
    identity: Option<Result<Option<String>, String>>,
    unit: UnitInfo,
) -> (r: EnsureStartedResponse)
    ensures
        r@ == start_outcome(
            model_alias@,
            model_path@,
            timeout_secs,
            startup_triggered,
            match identity {
                Some(identity) => Some(identity_view(identity)),
                None => None,
            },
            unit@,
        ),
{
    let server_ready = identity.is_some();
    let (status, message) = match identity {
        None => (
            HelperStatus::Error,
            "llama-server did not become ready within ".to_string().concat(
                decimal_text(timeout_secs).as_str(),
            ).concat(" seconds"),
        ),
        Some(Err(error)) => (
            HelperStatus::Error,
            "model identity check failed: ".to_string().concat(error.as_str()),
        ),
        Some(Ok(None)) => (
            HelperStatus::Error,
            "server responded but returned no model identifiers".to_string(),
        ),
        Some(Ok(Some(reported))) => if !text::contains(reported.as_str(), model_path)
            && !text::contains(model_path, reported.as_str()) {
            (
                HelperStatus::Mismatch,
                "expected model path '".to_string().concat(model_path).concat(
                    "', but server reports '",
                ).concat(reported.as_str()).concat("'"),
            )
        } else if startup_triggered {
            (HelperStatus::Okay, "model started and verified successfully".to_string())
        } else {
            (HelperStatus::Okay, "model is already running and ready".to_string())
        },
    };
    EnsureStartedResponse {
        status,
        message,
        model_alias: model_alias.to_string(),
        model_path: model_path.to_string(),
        startup_triggered,
        server_ready,
        model_verified: matches!(status, HelperStatus::Okay),
        llama_server: Some(unit),
    }
}

/// The time to live of a lease: what was asked for, within a minute and a day.
pub open spec fn lease_ttl(asked: u64) -> u64 {
    if asked < 60 {
        60
    } else if asked > 86_400 {
        86_400
    } else {
        asked
    }
}

/// The command that holds a lease.
pub open spec fn lease_command(ttl_secs: u64) -> Seq<Seq<char>> {
    seq![
        "systemd-inhibit"@,
        "--what=sleep"@,
        "--who=llm-wake-proxy"@,
        "--why=Keep awake for active proxy session"@,
        "sleep"@,
        decimal(ttl_secs as nat),
    ]
}

/// The answer to `lease acquire`: `made` tells whether the unit that holds the lease was made, and
/// how it is then, or why not.
pub open spec fn lease_acquired(
    ttl_secs: u64,
    was_active: bool,
    made: Result<UnitInfoView, Seq<char>>,
) -> LeaseAcquireView {
    match made {
        Err(error) => LeaseAcquireView {
            status: HelperStatus::Error,
            message: "failed to acquire lease: "@ + error,
            inhibit_holder: None,
            ttl_secs,
            renewed: false,
        },
        Ok(unit) => if unit.active_state == "active"@ {
            LeaseAcquireView {
                status: HelperStatus::Okay,
                message: if was_active {
                    "lease renewed"@
                } else {
                    "lease acquired"@
                },
                inhibit_holder: Some(unit),
                ttl_secs,
                renewed: was_active,
            }
        } else {
            LeaseAcquireView {
                status: HelperStatus::Error,
                message: "lease was created but the inhibit unit is not active"@,
                inhibit_holder: Some(unit),
                ttl_secs,
                renewed: false,
            }
        },
    }
}

/// The answer to `lease acquire`.
pub fn lease_acquire_response(
    ttl_secs: u64,
    was_active: bool,
    made: Result<UnitInfo, String>,
) -> (r: LeaseAcquireResponse)
    ensures
        r@ == lease_acquired(
            ttl_secs,
            was_active,
            match made {
                Ok(unit) => Ok(unit@),
                Err(error) => Err(error@),
            },
        ),
{
    match made {
        Ok(unit) => if text::same(unit.active_state.as_str(), "active") {
            LeaseAcquireResponse {
                status: HelperStatus::Okay,
                message: if was_active {
                    "lease renewed".to_string()
                } else {
                    "lease acquired".to_string()
                },
                inhibit_holder: Some(unit),
                ttl_secs,
                renewed: was_active,
            }
        } else {
            LeaseAcquireResponse {
                status: HelperStatus::Error,
                message: "lease was created but the inhibit unit is not active".to_string(),
                inhibit_holder: Some(unit),
                ttl_secs,
                renewed: false,
            }
        },
        Err(error) => LeaseAcquireResponse {
            status: HelperStatus::Error,
            message: "failed to acquire lease: ".to_string().concat(error.as_str()),
            inhibit_holder: None,
            ttl_secs,
            renewed: false,
        },
    }
}

/// The answer to `lease release`.
pub open spec fn lease_released(stopped: Result<UnitInfoView, Seq<char>>) -> LeaseView {
    match stopped {
        Ok(unit) => LeaseView {
            status: HelperStatus::Okay,
            message: "lease released"@,
            inhibit_holder: Some(unit),
        },
        Err(error) => LeaseView {
            status: HelperStatus::Error,
            message: "failed to release lease: "@ + error,
            inhibit_holder: None,
        },
    }
}

/// The answer to `lease release`: `stopped` tells how the unit is once it was stopped, or why it was
/// not.
pub fn lease_release_response(stopped: Result<UnitInfo, String>) -> (r: LeaseReleaseResponse)
    ensures
        r@ == lease_released(
            match stopped {
                Ok(unit) => Ok(unit@),
                Err(error) => Err(error@),
            },
        ),
{
    match stopped {
        Ok(unit) => LeaseReleaseResponse {
            status: HelperStatus::Okay,
            message: "lease released".to_string(),
            inhibit_holder: Some(unit),
        },
        Err(error) => LeaseReleaseResponse {
            status: HelperStatus::Error,
            message: "failed to release lease: ".to_string().concat(error.as_str()),
            inhibit_holder: None,
        },
    }
}

/// The answer to `lease inspect`.
pub open spec fn lease_inspected(
    unit: Seq<char>,
    shown: Result<Map<Seq<char>, Seq<char>>, Seq<char>>,
) -> LeaseView {
    match shown {
        Ok(properties) => LeaseView {
            status: HelperStatus::Okay,
            message: "current lease state"@,
            inhibit_holder: Some(unit_with(unit, properties)),
        },
        Err(error) => LeaseView {
            status: HelperStatus::Error,
            message: "failed to inspect lease: "@ + error,
            inhibit_holder: None,
        },
    }
}

/// The answer to `lease inspect`.
pub fn lease_inspect_response(unit: &str, shown: Result<TextTable, String>) -> (r:
    LeaseInspectResponse)
    ensures
        r@ == lease_inspected(unit@, shown_view(shown)),
{
    match shown {
        Ok(properties) => LeaseInspectResponse {
            status: HelperStatus::Okay,
            message: "current lease state".to_string(),
            inhibit_holder: Some(unit_from_properties(unit, &properties)),
        },
        Err(error) => LeaseInspectResponse {
            status: HelperStatus::Error,
            message: "failed to inspect lease: ".to_string().concat(error.as_str()),
            inhibit_holder: None,
        },
    }
}

/// Whether systemd, asked to show the unit `name`, may have answered so.
pub open spec fn shows<S: SystemdControl>(
    sys: &S,
    name: Seq<char>,
    shown: Result<TextTable, String>,
) -> bool {
    exists|unit: &str| unit@ == name && #[trigger] call_ensures(S::show_unit, (sys, unit), shown)
}

/// Whether the unit `name` may have been found in this state.
pub open spec fn shows_state<S: SystemdControl>(
    sys: &S,
    name: Seq<char>,
    info: UnitInfoView,
) -> bool {
    exists|shown: Result<TextTable, String>| #[trigger]
        shows(sys, name, shown) && info == unit_state(name, shown_view(shown))
}

/// Whether the unit `name` may have been found active, or not.
pub open spec fn found_active<S: SystemdControl>(sys: &S, name: Seq<char>, active: bool) -> bool {
    exists|unit: &str, answer: Result<bool, String>|
        unit@ == name && #[trigger] call_ensures(S::is_active, (sys, unit), answer) && active == (
        answer == Ok::<bool, String>(true))
}

/// Whether starting the unit `name` may have ended so.
pub open spec fn starts<S: SystemdControl>(
    sys: &S,
    name: Seq<char>,
    outcome: Result<(), Seq<char>>,
) -> bool {
    exists|unit: &str, answer: Result<(), String>|
        unit@ == name && #[trigger] call_ensures(S::start_unit, (sys, unit), answer) && outcome
            == done_view(answer)
}

/// Whether stopping the unit `name` may have ended so.
pub open spec fn stops<S: SystemdControl>(
    sys: &S,
    name: Seq<char>,
    outcome: Result<(), Seq<char>>,
) -> bool {
    exists|unit: &str, answer: Result<(), String>|
        unit@ == name && #[trigger] call_ensures(S::stop_unit, (sys, unit), answer) && outcome
            == done_view(answer)
}

/// Whether running `command` as the transient unit `name` may have ended so.
pub open spec fn replaces<S: SystemdControl>(
    sys: &S,
    name: Seq<char>,
    description: Seq<char>,
    command: Seq<Seq<char>>,
    outcome: Result<(), Seq<char>>,
) -> bool {
    exists|unit: &str, title: &str, args: &[&str], answer: Result<(), String>|
        {
            &&& unit@ == name
            &&& title@ == description
            &&& args@.map_values(|arg: &str| arg@) == command
            &&& #[trigger] call_ensures(S::replace_transient_unit, (sys, unit, title, args), answer)
            &&& outcome == done_view(answer)
        }
}

/// Whether a server may have answered a request for its models so.
pub open spec fn answers<H: ServerCheck>(
    http: &H,
    port: u16,
    answer: Result<Seq<char>, Seq<char>>,
) -> bool {
    exists|url: &str, body: Result<String, String>|
        url@ == server_url(port, "/v1/models"@) && #[trigger] call_ensures(
            H::get_text,
            (http, url),
            body,
        ) && answer == answer_view(body)
}

/// That something was done, or an error.
pub open spec fn done_view(answer: Result<(), String>) -> Result<(), Seq<char>> {
    match answer {
        Ok(_) => Ok(()),
        Err(message) => Err(message@),
    }
}

/// Whether the model of the server at `port` may have been found so: nothing where the server does
/// not answer, and otherwise by its second answer.
pub open spec fn finds_model<H: ServerCheck>(
    http: &H,
    port: u16,
    model: Option<ModelInfoView>,
) -> bool {
    exists|first: Result<Seq<char>, Seq<char>>| #[trigger]
        answers(http, port, first) && match first {
            Err(_) => model is None,
            Ok(_) => exists|second: Result<Seq<char>, Seq<char>>| #[trigger]
                answers(http, port, second) && model == Some(served_model(named_model(second))),
        }
}

/// Whether `ensure-started`, begun with `first`, may have come to `step`: every step follows from the
/// one before it by what was answered to the call that the one before asks for.
pub open spec fn reaches<S: SystemdControl, H: ServerCheck, W: Fn(u16, u64) -> bool>(
    sys: &S,
    http: &H,
    wait: W,
    port: u16,
    first: StartingView,
    step: StartStepView,
) -> bool {
    match step {
        StartStepView::StartUnit(_) => found_active(sys, first.unit, false) && step
            == after_active(first, false),
        StartStepView::WaitForServer(_) => runs(sys, first, step),
        StartStepView::AskModels(_) => exists|s: StartingView|
            {
                &&& #[trigger] runs(sys, first, StartStepView::WaitForServer(s))
                &&& call_ensures(wait, (port, first.timeout_secs), true)
                &&& step == after_wait(s, true)
            },
        StartStepView::ShowUnit(_) => is_shown(sys, http, wait, port, first, step),
        StartStepView::Done(response) => {
            ||| exists|error: Seq<char>|
                {
                    &&& found_active(sys, first.unit, false)
                    &&& #[trigger] starts(sys, first.unit, Err(error))
                    &&& step == after_start(first, Err(error))
                }
            ||| exists|s: StartingView, shown: Result<TextTable, String>|
                {
                    &&& #[trigger] is_shown(
                        sys,
                        http,
                        wait,
                        port,
                        first,
                        StartStepView::ShowUnit(s),
                    )
                    &&& #[trigger] shows(sys, first.unit, shown)
                    &&& response == after_shown(s, shown_view(shown))
                }
        },
    }
}

/// Whether the unit may run at this step: it was found active, or was started.
pub open spec fn runs<S: SystemdControl>(
    sys: &S,
    first: StartingView,
    step: StartStepView,
) -> bool {
    ||| found_active(sys, first.unit, true) && step == after_active(first, true)
    ||| found_active(sys, first.unit, false) && starts(sys, first.unit, Ok(())) && step
        == after_start(first, Ok(()))
}

/// Whether the unit may be looked at for this step: the server was not alive in time, or has said
/// what its models are.
pub open spec fn is_shown<S: SystemdControl, H: ServerCheck, W: Fn(u16, u64) -> bool>(
    sys: &S,
    http: &H,
    wait: W,
    port: u16,
    first: StartingView,
    step: StartStepView,
) -> bool {
    ||| exists|s: StartingView|
        {
            &&& #[trigger] runs(sys, first, StartStepView::WaitForServer(s))
            &&& call_ensures(wait, (port, first.timeout_secs), false)
            &&& step == after_wait(s, false)
        }
    ||| exists|s: StartingView, answer: Result<Seq<char>, Seq<char>>|
        {
            &&& #[trigger] runs(sys, first, StartStepView::WaitForServer(s))
            &&& call_ensures(wait, (port, first.timeout_secs), true)
            &&& #[trigger] answers(http, port, answer)
            &&& step == after_models(s, answer)
        }
}

/// The helper: its configuration, systemd, and HTTP.
pub struct Helper<S: SystemdControl, H: ServerCheck> {
    pub config: HelperConfig,
    pub sys: Box<S>,
    pub http: Box<H>,
}

impl<S: SystemdControl, H: ServerCheck> Helper<S, H> {
    pub fn with_services(config: HelperConfig, sys: Box<S>, http: Box<H>) -> (r: Helper<S, H>)
        ensures
            r.config == config,
            r.sys == sys,
            r.http == http,
    {
        Helper { config, sys, http }
    }

    fn collect_unit_info(&self, unit_name: &str) -> (r: UnitInfo)
        ensures
            shows_state(&*self.sys, unit_name@, r@),
    {
        let shown = self.sys.show_unit(unit_name);
        assert(shows(&*self.sys, unit_name@, shown));
        unit_info(unit_name, shown)
    }

    fn ask_for_models(&self, port: u16) -> (r: Result<String, String>)
        ensures
            answers(&*self.http, port, answer_view(r)),
    {
        let url = build_server_url(port, "/v1/models");
        self.http.get_text(url.as_str())
    }

    /// Whether the server at `port` answers a request for its models.
    pub fn is_server_alive(&self, port: u16) -> (r: bool)
        ensures
            exists|answer: Result<Seq<char>, Seq<char>>| #[trigger]
                answers(&*self.http, port, answer) && r == answer is Ok,
    {
        let answer = self.ask_for_models(port);
        assert(answers(&*self.http, port, answer_view(answer)));
        answer.is_ok()
    }

    fn check_model_identity(&self, port: u16) -> (r: Result<Option<String>, String>)
        ensures
            exists|answer: Result<Seq<char>, Seq<char>>| #[trigger]
                answers(&*self.http, port, answer) && identity_view(r) == named_model(answer),
    {
        let answer = self.ask_for_models(port);
        assert(answers(&*self.http, port, answer_view(answer)));
        model_identity(answer)
    }

    fn active_model_for(&self, port: u16) -> (r: Option<ModelInfo>)
        ensures
            finds_model(&*self.http, port, model_view(r)),
    {
        if self.is_server_alive(port) {
            let identity = self.check_model_identity(port);
            Some(active_model(identity))
        } else {
            None
        }
    }

    /// The state of the units and of the models they serve.
    pub fn status(&self) -> (r: StatusResponse)
        ensures
            r.status is Okay,
            r.message@ == "current host unit state"@,
            r.llama_server is Some,
            shows_state(&*self.sys, self.config.llama_server_unit@, r.llama_server->0@),
            r.inhibit_holder is Some,
            shows_state(&*self.sys, self.config.inhibit_holder_unit@, r.inhibit_holder->0@),
            finds_model(&*self.http, self.config.llama_server_port, model_view(r.active_model)),
            r.llama_server_embeddings is Some,
            shows_state(
                &*self.sys,
                self.config.llama_server_embeddings_unit@,
                r.llama_server_embeddings->0@,
            ),
            finds_model(
                &*self.http,
                self.config.llama_server_embeddings_port,
                model_view(r.active_model_embeddings),
            ),
    {
        let llama_server = self.collect_unit_info(self.config.llama_server_unit.as_str());
        let inhibit_holder = self.collect_unit_info(self.config.inhibit_holder_unit.as_str());
        let active_model = self.active_model_for(self.config.llama_server_port);
        let llama_server_embeddings = self.collect_unit_info(
            self.config.llama_server_embeddings_unit.as_str(),
        );
        let active_model_embeddings = self.active_model_for(
            self.config.llama_server_embeddings_port,
        );
        StatusResponse {
            status: HelperStatus::Okay,
            message: "current host unit state".to_string(),
            llama_server: Some(llama_server),
            inhibit_holder: Some(inhibit_holder),
            active_model,
            llama_server_embeddings: Some(llama_server_embeddings),
            active_model_embeddings,
        }
    }

    /// Makes sure that the server of `target` runs and serves the model at `model_path`.
    /// `wait_for_server` waits until the server at a port is alive, so many seconds at most, and
    /// tells whether it is. The calls are made as the steps of `Starting` ask for them.
    pub fn ensure_started<W: Fn(u16, u64) -> bool>(
        &self,
        target: Target,
        model_alias: &str,
        model_path: &str,
        wait_for_server: W,
    ) -> (r: EnsureStartedResponse)
        requires
            call_requires(
                wait_for_server,
                (port_of(self.config@, target), self.config.server_start_timeout_secs),
            ),
        ensures
            reaches(
                &*self.sys,
                &*self.http,
                wait_for_server,
                port_of(self.config@, target),
                unstarted(
                    unit_of(self.config@, target),
                    model_alias@,
                    model_path@,
                    self.config.server_start_timeout_secs,
                ),
                StartStepView::Done(r@),
            ),
    {
        let unit = self.config.unit_for(target);
        let port: u16 = self.config.port_for(target);
        let timeout: u64 = self.config.server_start_timeout_secs;
        let ghost first = unstarted(unit@, model_alias@, model_path@, timeout);
        let answer = self.sys.is_active(unit);
        assert(found_active(&*self.sys, unit@, is_active_answer(answer)));
        let mut step = Starting::new(unit, model_alias, model_path, timeout).active_found(answer);
        assert(step@ == after_active(first, is_active_answer(answer)));
        loop
            invariant
                unit@ == first.unit,
                timeout == first.timeout_secs,
                call_requires(wait_for_server, (port, timeout)),
                port == port_of(self.config@, target),
                first == unstarted(
                    unit_of(self.config@, target),
                    model_alias@,
                    model_path@,
                    self.config.server_start_timeout_secs,
                ),
                reaches(&*self.sys, &*self.http, wait_for_server, port, first, step@),
            decreases steps_left(step@),
        {
            step = match step {
                StartStep::StartUnit(s) => {
                    let answer = self.sys.start_unit(unit);
                    assert(starts(&*self.sys, unit@, done_view(answer)));
                    s.unit_started(answer)
                },
                StartStep::WaitForServer(s) => s.server_waited(wait_for_server(port, timeout)),
                StartStep::AskModels(s) => {
                    let answer = self.ask_for_models(port);
                    assert(answers(&*self.http, port, answer_view(answer)));
                    s.models_answered(answer)
                },
                StartStep::ShowUnit(s) => {
                    let shown = self.sys.show_unit(unit);
                    assert(shows(&*self.sys, unit@, shown));
                    StartStep::Done(s.unit_shown(shown))
                },
                StartStep::Done(response) => {
                    return response;
                },
            };
        }
    }

    /// Keeps the host awake for a while, from now.
    pub fn lease_acquire(&self, ttl_secs: u64) -> (r: LeaseAcquireResponse)
        ensures
            ({
                let unit = self.config.inhibit_holder_unit@;
                let ttl = lease_ttl(ttl_secs);
                exists|was_active: bool, outcome: Result<(), Seq<char>>|
                    {
                        &&& #[trigger] found_active(&*self.sys, unit, was_active)
                        &&& #[trigger] replaces(
                            &*self.sys,
                            unit,
                            "llm-wake-proxy inhibit holder"@,
                            lease_command(ttl),
                            outcome,
                        )
                        &&& match outcome {
                            Err(error) => r@ == lease_acquired(ttl, was_active, Err(error)),
                            Ok(_) => exists|info: UnitInfoView| #[trigger]
                                shows_state(&*self.sys, unit, info) && r@ == lease_acquired(
                                    ttl,
                                    was_active,
                                    Ok(info),
                                ),
                        }
                    }
            }),
    {
        let unit = self.config.inhibit_holder_unit.as_str();
        let asked = LeaseAsked::new(unit, ttl_secs);
        let answer = self.sys.is_active(unit);
        assert(found_active(&*self.sys, unit@, is_active_answer(answer)));
        let found = asked.active_found(answer);
        let ttl_text = decimal_text(found.ttl_secs);
        let args: Vec<&str> = vec![
            "systemd-inhibit",
            "--what=sleep",
            "--who=llm-wake-proxy",
            "--why=Keep awake for active proxy session",
            "sleep",
            ttl_text.as_str(),
        ];
        assert(args@.map_values(|arg: &str| arg@) =~= lease_command(found.ttl_secs));
        let outcome = self.sys.replace_transient_unit(
            unit,
            "llm-wake-proxy inhibit holder",
            args.as_slice(),
        );
        assert(replaces(
            &*self.sys,
            unit@,
            "llm-wake-proxy inhibit holder"@,
            lease_command(found.ttl_secs),
            done_view(outcome),
        ));
        match found.unit_replaced(outcome) {
            LeaseStep::ShowUnit(made) => {
                let shown = self.sys.show_unit(unit);
                assert(shows(&*self.sys, unit@, shown));
                assert(shows_state(&*self.sys, unit@, unit_state(unit@, shown_view(shown))));
                made.unit_shown(shown)
            },
            LeaseStep::Done(response) => response,
        }
    }

    /// Lets the host sleep again.
    pub fn lease_release(&self) -> (r: LeaseReleaseResponse)
        ensures
            ({
                let unit = self.config.inhibit_holder_unit@;
                exists|outcome: Result<(), Seq<char>>| #[trigger]
                    stops(&*self.sys, unit, outcome) && match outcome {
                        Err(error) => r@ == lease_released(Err(error)),
                        Ok(_) => exists|info: UnitInfoView| #[trigger]
                            shows_state(&*self.sys, unit, info) && r@ == lease_released(Ok(info)),
                    }
            }),
    {
        let unit = self.config.inhibit_holder_unit.as_str();
        let outcome = self.sys.stop_unit(unit);
        assert(stops(&*self.sys, unit@, done_view(outcome)));
        match unit_stopped(unit, outcome) {
            ReleaseStep::ShowUnit(stopped) => {
                let shown = self.sys.show_unit(unit);
                assert(shows(&*self.sys, unit@, shown));
                assert(shows_state(&*self.sys, unit@, unit_state(unit@, shown_view(shown))));
                stopped.unit_shown(shown)
            },
            ReleaseStep::Done(response) => response,
        }
    }

    /// Whether the host is kept awake.
    pub fn lease_inspect(&self) -> (r: LeaseInspectResponse)
        ensures
            exists|shown: Result<TextTable, String>| #[trigger]
                shows(&*self.sys, self.config.inhibit_holder_unit@, shown) && r@
                    == lease_inspected(self.config.inhibit_holder_unit@, shown_view(shown)),
    {
        let unit = self.config.inhibit_holder_unit.as_str();
        let shown = self.sys.show_unit(unit);
        assert(shows(&*self.sys, unit@, shown));
        lease_inspect_response(unit, shown)
    }
}

/// `ensure-started` reports success only for a server that answers and names the expected model.
pub proof fn success_means_model_verified(
    alias: Seq<char>,
    path: Seq<char>,
    timeout_secs: u64,
    triggered: bool,
    identity: Option<Result<Option<Seq<char>>, Seq<char>>>,
    unit: UnitInfoView,
)
    ensures
        ({
            let outcome = start_outcome(alias, path, timeout_secs, triggered, identity, unit);
            &&& outcome.status is Okay <==> outcome.model_verified
            &&& outcome.model_verified ==> outcome.server_ready
            &&& outcome.model_verified <==> (identity matches Some(Ok(Some(reported)))
                && same_model(reported, path))
            &&& outcome.status is Mismatch <==> (identity matches Some(Ok(Some(reported)))
                && !same_model(reported, path))
            &&& outcome.startup_triggered == triggered
        }),
{
}

/// Where the unit is found active, `ensure-started` reports that it triggered nothing and that
/// starting did not fail. That it makes no call to start the unit is a matter of its steps: see
/// `active_unit_is_never_started`.
pub proof fn active_unit_triggers_nothing<
    S: SystemdControl,
    H: ServerCheck,
    W: Fn(u16, u64) -> bool,
>(
    sys: &S,
    http: &H,
    wait: W,
    port: u16,
    first: StartingView,
    response: EnsureStartedView,
)
    requires
        reaches(sys, http, wait, port, first, StartStepView::Done(response)),
        forall|active: bool| #[trigger] found_active(sys, first.unit, active) ==> active,
    ensures
        !response.startup_triggered,
        exists|identity: Option<Result<Option<Seq<char>>, Seq<char>>>, unit: UnitInfoView|
            response == #[trigger] start_outcome(
                first.model_alias,
                first.model_path,
                first.timeout_secs,
                false,
                identity,
                unit,
            ),
{
}

/// Every lease lasts between a minute and a day, and what was asked for within that is granted;
/// asking again for what was granted changes nothing.
pub proof fn lease_within_bounds(asked: u64)
    ensures
        60 <= lease_ttl(asked) <= 86_400,
        60 <= asked <= 86_400 ==> lease_ttl(asked) == asked,
        lease_ttl(lease_ttl(asked)) == lease_ttl(asked),
{
}

/// A lease is reported as held only if the unit that holds it is active, and as renewed only if it
/// was active before.
pub proof fn lease_held_means_unit_active(
    ttl_secs: u64,
    was_active: bool,
    made: Result<UnitInfoView, Seq<char>>,
)
    ensures
        ({
            let answer = lease_acquired(ttl_secs, was_active, made);
            &&& answer.status is Okay <==> (made matches Ok(unit) && unit.active_state
                == "active"@)
            &&& answer.renewed <==> answer.status is Okay && was_active
            &&& answer.ttl_secs == ttl_secs
        }),
{
}

/// The document that `to_json` makes of every answer can be printed and read back as it is. This is
/// about the documents: the helper prints `to_text`, whose members stand in another order, and
/// nothing is said here of reading that.
pub proof fn answers_are_readable(
    status: StatusView,
    started: EnsureStartedView,
    acquired: LeaseAcquireView,
    lease: LeaseView,
)
    ensures
        readable(status_tree(status), nesting_limit()),
        readable(ensure_started_tree(started), nesting_limit()),
        readable(lease_acquire_tree(acquired), nesting_limit()),
        readable(lease_tree(lease), nesting_limit()),
{
    lemma_unit_readable(status.llama_server);
    lemma_unit_readable(status.inhibit_holder);
    lemma_unit_readable(status.llama_server_embeddings);
    lemma_model_readable(status.active_model);
    lemma_model_readable(status.active_model_embeddings);
    lemma_object_readable(status_tree(status)->Object_0, 127);
    lemma_unit_readable(started.llama_server);
    lemma_object_readable(ensure_started_tree(started)->Object_0, 127);
    lemma_unit_readable(acquired.inhibit_holder);
    lemma_count_readable(acquired.ttl_secs as nat, 126);
    lemma_object_readable(lease_acquire_tree(acquired)->Object_0, 127);
    lemma_unit_readable(lease.inhibit_holder);
    lemma_object_readable(lease_tree(lease)->Object_0, 127);
}

proof fn lemma_unit_readable(unit: Option<UnitInfoView>)
    ensures
        readable(optional_unit_tree(unit), 126),
{
    if unit is Some {
        lemma_object_readable(unit_tree(unit->0)->Object_0, 126);
    }
}

proof fn lemma_model_readable(model: Option<ModelInfoView>)
    ensures
        readable(optional_model_tree(model), 126),
{
    if model is Some {
        lemma_object_readable(model_tree(model->0)->Object_0, 126);
    }
}

/// Whether what is said of a unit is what systemd shows of it: each property as it is, or unknown
/// where it is not shown; an error where systemd could not be asked.
pub open spec fn told_as_shown(
    unit: UnitInfo,
    name: Seq<char>,
    shown: Result<TextTable, String>,
) -> bool {
    &&& unit.unit_name@ == name
    &&& match shown {
        Ok(table) => {
            &&& table@.contains_key("ActiveState"@) ==> unit.active_state@
                == table@["ActiveState"@]
            &&& !table@.contains_key("ActiveState"@) ==> unit.active_state@ == "unknown"@
            &&& table@.contains_key("SubState"@) ==> unit.sub_state@ == table@["SubState"@]
            &&& !table@.contains_key("SubState"@) ==> unit.sub_state@ == "unknown"@
            &&& table@.contains_key("Description"@) ==> unit.description@
                == table@["Description"@]
            &&& !table@.contains_key("Description"@) ==> unit.description@ == ""@
        },
        Err(error) => {
            &&& unit.active_state@ == "error"@
            &&& unit.sub_state@ == error@
            &&& unit.description@ == ""@
        },
    }
}

/// What is said of a unit is what systemd shows of it.
pub proof fn units_are_told_as_shown(
    name: &str,
    shown: Result<TextTable, String>,
    r: UnitInfo,
    table: &TextTable,
    plain: UnitInfo,
)
    requires
        call_ensures(unit_info, (name, shown), r),
        call_ensures(unit_from_properties, (name, table), plain),
    ensures
        told_as_shown(r, name@, shown),
        told_as_shown(plain, name@, Ok(*table)),
{
}

/// Where systemd could be asked, `lease inspect` succeeds and says of the unit that holds the lease
/// what systemd shows, so that it is active only if systemd says so. Where it could not, that is an
/// error, and nothing is said of the unit.
pub proof fn inspected_lease_is_told_as_shown(
    unit: &str,
    shown: Result<TextTable, String>,
    r: LeaseInspectResponse,
)
    requires
        call_ensures(lease_inspect_response, (unit, shown), r),
    ensures
        r.status is Okay <==> shown is Ok,
        match shown {
            Ok(table) => {
                &&& r.message@ == "current lease state"@
                &&& r.inhibit_holder matches Some(holder)
                &&& told_as_shown(holder, unit@, shown)
                &&& holder.active_state@ == "active"@ <==> table@.contains_key("ActiveState"@)
                    && table@["ActiveState"@] == "active"@
            },
            Err(error) => {
                &&& r.status is Error
                &&& r.message@ == "failed to inspect lease: "@ + error@
                &&& r.inhibit_holder is None
            },
        },
{
    reveal_strlit("active");
    reveal_strlit("unknown");
    assert("active"@.len() == 6);
    assert("unknown"@.len() == 7);
}

/// A lease that was stopped is released, and the unit is passed on as it was found; one that could not
/// be stopped is not, for that reason.
pub proof fn released_lease_is_told(stopped: Result<UnitInfo, String>, r: LeaseReleaseResponse)
    requires
        call_ensures(lease_release_response, (stopped,), r),
    ensures
        match stopped {
            Ok(unit) => {
                &&& r.status is Okay
                &&& r.message@ == "lease released"@
                &&& r.inhibit_holder matches Some(holder)
                &&& holder@ == unit@
            },
            Err(error) => {
                &&& r.status is Error
                &&& r.message@ == "failed to release lease: "@ + error@
                &&& r.inhibit_holder is None
            },
        },
{
}

/// A lease is acquired exactly if its unit was made and is active then, and renewed if it was active
/// before. The unit is passed on as it was found, and the time as it was granted.
pub proof fn acquired_lease_is_told(
    ttl_secs: u64,
    was_active: bool,
    made: Result<UnitInfo, String>,
    r: LeaseAcquireResponse,
)
    requires
        call_ensures(lease_acquire_response, (ttl_secs, was_active, made), r),
    ensures
        r.ttl_secs == ttl_secs,
        r.status is Okay || r.status is Error,
        match made {
            Ok(unit) => {
                &&& r.inhibit_holder matches Some(holder)
                &&& holder@ == unit@
                &&& r.status is Okay <==> unit.active_state@ == "active"@
                &&& r.renewed <==> unit.active_state@ == "active"@ && was_active
                &&& unit.active_state@ == "active"@ && was_active ==> r.message@
                    == "lease renewed"@
                &&& unit.active_state@ == "active"@ && !was_active ==> r.message@
                    == "lease acquired"@
                &&& unit.active_state@ != "active"@ ==> r.message@
                    == "lease was created but the inhibit unit is not active"@
            },
            Err(error) => {
                &&& r.status is Error
                &&& !r.renewed
                &&& r.message@ == "failed to acquire lease: "@ + error@
                &&& r.inhibit_holder is None
            },
        },
{
}

/// A lease is held by keeping the host from sleeping for just as long as was granted.
pub proof fn lease_keeps_the_host_awake(ttl_secs: u64)
    ensures
        ({
            let command = lease_command(ttl_secs);
            &&& command.len() == 6
            &&& command[0] == "systemd-inhibit"@
            &&& command[1] == "--what=sleep"@
            &&& command[2] == "--who=llm-wake-proxy"@
            &&& command[3] == "--why=Keep awake for active proxy session"@
            &&& command[4] == "sleep"@
            &&& number(command[5], 10, u64::MAX as nat) == Some(ttl_secs as nat)
        }),
{
    decimal_read_back(ttl_secs as nat, u64::MAX as nat);
}

/// A server that runs is judged by what it names: only a model that holds the expected one or is held
/// by it is the expected one. The answer passes on the model that was asked for, whether the unit had
/// to be started, and the unit as it was found; and it says what went wrong where something did.
pub proof fn running_server_is_judged(
    alias: &str,
    path: &str,
    timeout_secs: u64,
    triggered: bool,
    identity: Option<Result<Option<String>, String>>,
    unit: UnitInfo,
    r: EnsureStartedResponse,
)
    requires
        call_ensures(start_response, (alias, path, timeout_secs, triggered, identity, unit), r),
    ensures
        r.model_alias@ == alias@,
        r.model_path@ == path@,
        r.startup_triggered == triggered,
        r.server_ready <==> identity is Some,
        r.model_verified <==> r.status is Okay,
        r.llama_server matches Some(shown) && shown@ == unit@,
        match identity {
            None => r.status is Error && r.message@ == "llama-server did not become ready within "@
                + decimal(timeout_secs as nat) + " seconds"@,
            Some(Err(error)) => r.status is Error && r.message@ == "model identity check failed: "@
                + error@,
            Some(Ok(None)) => r.status is Error && r.message@
                == "server responded but returned no model identifiers"@,
            Some(Ok(Some(named))) => {
                let expected = occurs(named@, path@) || occurs(path@, named@);
                &&& r.status is Okay <==> expected
                &&& r.status is Mismatch <==> !expected
                &&& !expected ==> r.message@ == "expected model path '"@ + path@
                    + "', but server reports '"@ + named@ + "'"@
                &&& expected && triggered ==> r.message@
                    == "model started and verified successfully"@
                &&& expected && !triggered ==> r.message@ == "model is already running and ready"@
            },
        },
{
}

/// A unit that could not be started is reported as failed, for that reason, with nothing started,
/// ready or verified.
pub proof fn failed_start_is_told(
    unit: &str,
    alias: &str,
    path: &str,
    error: String,
    r: EnsureStartedResponse,
)
    requires
        call_ensures(start_failure_response, (unit, alias, path, error), r),
    ensures
        r.status is Error,
        r.message@ == "failed to start llama-server: "@ + error@,
        r.model_alias@ == alias@,
        r.model_path@ == path@,
        !r.startup_triggered && !r.server_ready && !r.model_verified,
        r.llama_server matches Some(shown) && {
            &&& shown.unit_name@ == unit@
            &&& shown.active_state@ == "failed"@
            &&& shown.sub_state@ == "startup_error"@
            &&& shown.description@ == error@
        },
{
}

/// A server names its model by the identifier of the first entry of its list; a list without one names
/// none, and an answer that is not JSON or did not come is an error.
pub proof fn first_model_is_the_named_one(
    models: &Value,
    id: Option<String>,
    answer: Result<String, String>,
    r: Result<Option<String>, String>,
)
    requires
        call_ensures(first_model_id, (models,), id),
        call_ensures(model_identity, (answer,), r),
    ensures
        json_tree(*models) matches JsonTree::Object(fields) ==> fields.contains_key("data"@) ==> (
        fields["data"@] matches JsonTree::List(items) ==> {
            &&& items.len() == 0 ==> id is None
            &&& items.len() > 0 ==> (items[0] matches JsonTree::Object(model) ==> {
                &&& !model.contains_key("id"@) ==> id is None
                &&& model.contains_key("id"@) ==> match model["id"@] {
                    JsonTree::Text(text) => id matches Some(named) && named@ == text,
                    _ => id is None,
                }
            })
            &&& items.len() > 0 && !(items[0] is Object) ==> id is None
        }),
        !(json_tree(*models) is Object) ==> id is None,
        json_tree(*models) matches JsonTree::Object(fields) ==> !(fields.contains_key("data"@)
            && fields["data"@] is List) ==> id is None,
        match answer {
            Err(error) => r matches Err(told) && told@ == error@,
            Ok(body) => match json_parse(body@) {
                Err(error) => r matches Err(told) && told@ == "failed to parse models response: "@
                    + error,
                Ok(tree) => r matches Ok(named) && (tree == json_tree(*models) ==> text_view(named)
                    == text_view(id)),
            },
        },
{
}

/// The model of a server that answers is the one that it names, if any; it is ready if it could be
/// asked.
pub proof fn served_model_is_the_named_one(
    identity: Result<Option<String>, String>,
    r: ModelInfo,
)
    requires
        call_ensures(active_model, (identity,), r),
    ensures
        r.serving,
        r.ready <==> identity is Ok,
        r.reported_id is None,
        match identity {
            Ok(Some(id)) => r.model_alias@ == id@ && r.model_path@ == id@,
            _ => r.model_alias@.len() == 0 && r.model_path@.len() == 0,
        },
{
}

/// A server is waited for until it is alive or its time is over: each time it is not, there is a pause
/// of half a second.
pub proof fn servers_are_waited_for(late: bool, alive: bool, wait: ServerWait, probed: ServerWait)
    requires
        call_ensures(server_wait, (late,), wait),
        call_ensures(server_probed, (alive,), probed),
    ensures
        late ==> wait is GiveUp,
        !late ==> wait is Probe,
        alive ==> probed is Ready,
        !alive ==> probed == ServerWait::Pause(500),
{
}

/// Whether a setting of the helper is the text of its variable, or the default where it is not set.
pub open spec fn named_by(
    env: Map<Seq<char>, Seq<char>>,
    name: Seq<char>,
    default: Seq<char>,
    setting: Seq<char>,
) -> bool {
    &&& env.contains_key(name) ==> setting == env[name]
    &&& !env.contains_key(name) ==> setting == default
}

/// Whether a setting of the helper is the number in its variable, or the default where it is not set,
/// is no number or is above `max`.
pub open spec fn counted_by(
    env: Map<Seq<char>, Seq<char>>,
    name: Seq<char>,
    max: nat,
    default: nat,
    setting: nat,
) -> bool {
    &&& forall|n: nat|
        env.contains_key(name) && #[trigger] number(env[name], 10, max) == Some(n) ==> setting == n
    &&& !(env.contains_key(name) && number(env[name], 10, max) is Some) ==> setting == default
}

/// Every setting of the helper comes from its own variable, and the default ones are those of an empty
/// environment.
pub proof fn helper_settings_come_from_their_variables(
    env: &TextTable,
    r: HelperConfig,
    plain: HelperConfig,
)
    requires
        call_ensures(HelperConfig::from_env, (env,), r),
        call_ensures(HelperConfig::default, (), plain),
    ensures
        named_by(env@, "LLAMA_SERVER_UNIT"@, "llama-server"@, r.llama_server_unit@),
        named_by(env@, "INHIBIT_HOLDER_UNIT"@, "llm-wake-proxy-inhibit"@, r.inhibit_holder_unit@),
        counted_by(env@, "LLAMA_SERVER_PORT"@, 65_535, 8080, r.llama_server_port as nat),
        named_by(
            env@,
            "LLAMA_SERVER_EMBEDDINGS_UNIT"@,
            "llama-server-embeddings"@,
            r.llama_server_embeddings_unit@,
        ),
        counted_by(
            env@,
            "LLAMA_SERVER_EMBEDDINGS_PORT"@,
            65_535,
            8081,
            r.llama_server_embeddings_port as nat,
        ),
        counted_by(
            env@,
            "SERVER_START_TIMEOUT_SECS"@,
            u64::MAX as nat,
            60,
            r.server_start_timeout_secs as nat,
        ),
        plain.llama_server_unit@ == "llama-server"@,
        plain.inhibit_holder_unit@ == "llm-wake-proxy-inhibit"@,
        plain.llama_server_port == 8080,
        plain.llama_server_embeddings_unit@ == "llama-server-embeddings"@,
        plain.llama_server_embeddings_port == 8081,
        plain.server_start_timeout_secs == 60,
{
}

/// Each target has its own unit and its own port, and its own name.
pub proof fn targets_have_their_servers(
    config: &HelperConfig,
    target: Target,
    unit: &str,
    port: u16,
    name: &str,
    text: &str,
    parsed: Result<Target, String>,
)
    requires
        call_ensures(HelperConfig::unit_for, (config, target), unit),
        call_ensures(HelperConfig::port_for, (config, target), port),
        call_ensures(Target::as_str, (&target,), name),
        call_ensures(Target::parse, (text,), parsed),
    ensures
        target is Chat ==> unit@ == config.llama_server_unit@ && port == config.llama_server_port
            && name@ == "chat"@,
        target is Embeddings ==> unit@ == config.llama_server_embeddings_unit@ && port
            == config.llama_server_embeddings_port && name@ == "embeddings"@,
        parsed is Ok <==> text@ == "chat"@ || text@ == "embeddings"@,
        parsed matches Ok(named) ==> (named is Chat <==> text@ == "chat"@),
        parsed matches Err(message) ==> message@ == "unknown target '"@ + text@
            + "', expected 'chat' or 'embeddings'"@,
{
}

/// A line with an equals sign sets the property before it to what is after the first one, whatever
/// came before; other lines set nothing, and no line sets another property.
pub proof fn lines_set_their_properties(
    lines: Seq<Seq<char>>,
    key: Seq<char>,
    value: Seq<char>,
    other: Seq<char>,
)
    requires
        !key.contains('='),
        !other.contains('='),
    ensures
        properties(Seq::<Seq<char>>::empty()) == Map::<Seq<char>, Seq<char>>::empty(),
        properties(lines.push(key + seq!['='] + value)) == properties(lines).insert(key, value),
        properties(lines.push(other)) == properties(lines),
{
    text::cut_at_the_first_mark(key, '=', value);
    text::cut_at_the_first_mark(other, '=', value);
    assert(lines.push(key + seq!['='] + value).drop_last() =~= lines);
    assert(lines.push(other).drop_last() =~= lines);
}

/// A status is named as clients know it.
pub proof fn statuses_are_named(status: &HelperStatus, name: &str)
    requires
        call_ensures(HelperStatus::as_str, (status,), name),
    ensures
        *status is Okay ==> name@ == "ok"@,
        *status is Mismatch ==> name@ == "mismatch"@,
        *status is Error ==> name@ == "error"@,
{
}

/// The state of the host is that of its units and of the models that they serve: each under its own
/// name, as systemd shows it and as its own server says.
pub proof fn host_state_is_told<S: SystemdControl, H: ServerCheck>(
    helper: &Helper<S, H>,
    r: StatusResponse,
)
    requires
        call_ensures(Helper::<S, H>::status, (helper,), r),
    ensures
        r.status is Okay,
        r.llama_server matches Some(unit) && unit.unit_name@ == helper.config.llama_server_unit@,
        r.inhibit_holder matches Some(unit) && unit.unit_name@
            == helper.config.inhibit_holder_unit@,
        r.llama_server_embeddings matches Some(unit) && unit.unit_name@
            == helper.config.llama_server_embeddings_unit@,
        r.active_model matches Some(model) ==> model.serving,
        r.active_model_embeddings matches Some(model) ==> model.serving,
        shows_state(&*helper.sys, helper.config.llama_server_unit@, r.llama_server->0@),
        shows_state(&*helper.sys, helper.config.inhibit_holder_unit@, r.inhibit_holder->0@),
        shows_state(
            &*helper.sys,
            helper.config.llama_server_embeddings_unit@,
            r.llama_server_embeddings->0@,
        ),
        finds_model(&*helper.http, helper.config.llama_server_port, model_view(r.active_model)),
        finds_model(
            &*helper.http,
            helper.config.llama_server_embeddings_port,
            model_view(r.active_model_embeddings),
        ),
{
}

/// The server is asked on this machine, at its own port.
pub proof fn servers_are_asked_here<H: ServerCheck>(
    http: &H,
    port: u16,
    answer: Result<Seq<char>, Seq<char>>,
)
    requires
        answers(http, port, answer),
    ensures
        exists|url: &str, body: Result<String, String>|
            {
                &&& url@ == "http://127.0.0.1:"@ + decimal(port as nat) + "/v1/models"@
                &&& #[trigger] call_ensures(H::get_text, (http, url), body)
                &&& answer is Ok <==> body is Ok
            },
{
}

proof fn lemma_unit_names_differ()
    ensures
        "unit_name"@ != "active_state"@,
        "unit_name"@ != "sub_state"@,
        "unit_name"@ != "description"@,
        "active_state"@ != "sub_state"@,
        "active_state"@ != "description"@,
        "sub_state"@ != "description"@,
{
    reveal_strlit("unit_name");
    reveal_strlit("active_state");
    reveal_strlit("sub_state");
    reveal_strlit("description");
    assert("unit_name"@[0] != "sub_state"@[0]);
    assert("unit_name"@.len() == 9);
    assert("active_state"@.len() == 12);
    assert("sub_state"@.len() == 9);
    assert("description"@.len() == 11);
}

/// The document of a unit has each of its parts, and nothing else, under its own name; printed, they
/// stand in this order.
pub proof fn units_stand_under_their_names(a: &UnitInfo, document: Value, text: String)
    requires
        call_ensures(UnitInfo::to_json, (a,), document),
        call_ensures(UnitInfo::to_text, (a,), text),
    ensures
        json_tree(document) matches JsonTree::Object(fields) && {
            &&& fields.dom() == set!["unit_name"@, "active_state"@, "sub_state"@, "description"@]
            &&& fields["unit_name"@] == JsonTree::Text(a.unit_name@)
            &&& fields["active_state"@] == JsonTree::Text(a.active_state@)
            &&& fields["sub_state"@] == JsonTree::Text(a.sub_state@)
            &&& fields["description"@] == JsonTree::Text(a.description@)
            &&& text@ == object_text(
                seq![
                    ("unit_name"@, json_text(fields["unit_name"@])),
                    ("active_state"@, json_text(fields["active_state"@])),
                    ("sub_state"@, json_text(fields["sub_state"@])),
                    ("description"@, json_text(fields["description"@])),
                ],
            )
        },
{
    lemma_unit_names_differ();
    let fields = json_tree(document)->Object_0;
    assert(fields.dom() =~= set!["unit_name"@, "active_state"@, "sub_state"@, "description"@]);
    assert(text@ == object_text(
        seq![
            ("unit_name"@, json_text(fields["unit_name"@])),
            ("active_state"@, json_text(fields["active_state"@])),
            ("sub_state"@, json_text(fields["sub_state"@])),
            ("description"@, json_text(fields["description"@])),
        ],
    ));
}

proof fn lemma_model_names_differ()
    ensures
        "model_alias"@ != "model_path"@,
        "model_alias"@ != "serving"@,
        "model_alias"@ != "ready"@,
        "model_alias"@ != "reported_id"@,
        "model_path"@ != "serving"@,
        "model_path"@ != "ready"@,
        "model_path"@ != "reported_id"@,
        "serving"@ != "ready"@,
        "serving"@ != "reported_id"@,
        "ready"@ != "reported_id"@,
{
    reveal_strlit("model_alias");
    reveal_strlit("model_path");
    reveal_strlit("serving");
    reveal_strlit("ready");
    reveal_strlit("reported_id");
    assert("model_alias"@[0] != "reported_id"@[0]);
    assert("model_alias"@.len() == 11);
    assert("model_path"@.len() == 10);
    assert("serving"@.len() == 7);
    assert("ready"@.len() == 5);
    assert("reported_id"@.len() == 11);
}

/// The document of a model has each of its parts, and nothing else, under its own name; printed, they
/// stand in this order.
pub proof fn models_stand_under_their_names(a: &ModelInfo, document: Value, text: String)
    requires
        call_ensures(ModelInfo::to_json, (a,), document),
        call_ensures(ModelInfo::to_text, (a,), text),
    ensures
        json_tree(document) matches JsonTree::Object(fields) && {
            &&& fields.dom() == set!["model_alias"@, "model_path"@, "serving"@, "ready"@, "reported_id"@]
            &&& fields["model_alias"@] == JsonTree::Text(a.model_alias@)
            &&& fields["model_path"@] == JsonTree::Text(a.model_path@)
            &&& fields["serving"@] == JsonTree::Bool(a.serving)
            &&& fields["ready"@] == JsonTree::Bool(a.ready)
            &&& fields["reported_id"@] == match a.reported_id {
                Some(id) => JsonTree::Text(id@),
                None => JsonTree::Null,
            }
            &&& text@ == object_text(
                seq![
                    ("model_alias"@, json_text(fields["model_alias"@])),
                    ("model_path"@, json_text(fields["model_path"@])),
                    ("serving"@, json_text(fields["serving"@])),
                    ("ready"@, json_text(fields["ready"@])),
                    ("reported_id"@, json_text(fields["reported_id"@])),
                ],
            )
        },
{
    lemma_model_names_differ();
    let fields = json_tree(document)->Object_0;
    assert(fields.dom() =~= set!["model_alias"@, "model_path"@, "serving"@, "ready"@, "reported_id"@]);
    assert(text@ == object_text(
        seq![
            ("model_alias"@, json_text(fields["model_alias"@])),
            ("model_path"@, json_text(fields["model_path"@])),
            ("serving"@, json_text(fields["serving"@])),
            ("ready"@, json_text(fields["ready"@])),
            ("reported_id"@, json_text(fields["reported_id"@])),
        ],
    ));
}

proof fn lemma_status_names_differ()
    ensures
        "status"@ != "message"@,
        "status"@ != "llama_server"@,
        "status"@ != "inhibit_holder"@,
        "status"@ != "active_model"@,
        "status"@ != "llama_server_embeddings"@,
        "status"@ != "active_model_embeddings"@,
        "message"@ != "llama_server"@,
        "message"@ != "inhibit_holder"@,
        "message"@ != "active_model"@,
        "message"@ != "llama_server_embeddings"@,
        "message"@ != "active_model_embeddings"@,
        "llama_server"@ != "inhibit_holder"@,
        "llama_server"@ != "active_model"@,
        "llama_server"@ != "llama_server_embeddings"@,
        "llama_server"@ != "active_model_embeddings"@,
        "inhibit_holder"@ != "active_model"@,
        "inhibit_holder"@ != "llama_server_embeddings"@,
        "inhibit_holder"@ != "active_model_embeddings"@,
        "active_model"@ != "llama_server_embeddings"@,
        "active_model"@ != "active_model_embeddings"@,
        "llama_server_embeddings"@ != "active_model_embeddings"@,
{
    reveal_strlit("status");
    reveal_strlit("message");
    reveal_strlit("llama_server");
    reveal_strlit("inhibit_holder");
    reveal_strlit("active_model");
    reveal_strlit("llama_server_embeddings");
    reveal_strlit("active_model_embeddings");
    assert("llama_server"@[0] != "active_model"@[0]);
    assert("llama_server_embeddings"@[0] != "active_model_embeddings"@[0]);
    assert("status"@.len() == 6);
    assert("message"@.len() == 7);
    assert("llama_server"@.len() == 12);
    assert("inhibit_holder"@.len() == 14);
    assert("active_model"@.len() == 12);
    assert("llama_server_embeddings"@.len() == 23);
    assert("active_model_embeddings"@.len() == 23);
}

/// The document of the state of the host has each of its parts, and nothing else, under its own name; printed, they
/// stand in this order.
pub proof fn states_stand_under_their_names(a: &StatusResponse, document: Value, text: String)
    requires
        call_ensures(StatusResponse::to_json, (a,), document),
        call_ensures(StatusResponse::to_text, (a,), text),
    ensures
        json_tree(document) matches JsonTree::Object(fields) && {
            &&& fields.dom() == set!["status"@, "message"@, "llama_server"@, "inhibit_holder"@, "active_model"@, "llama_server_embeddings"@, "active_model_embeddings"@]
            &&& fields["status"@] == JsonTree::Text(status_name(a.status))
            &&& fields["message"@] == JsonTree::Text(a.message@)
            &&& fields["llama_server"@] == optional_unit_tree(unit_view(a.llama_server))
            &&& fields["inhibit_holder"@] == optional_unit_tree(unit_view(a.inhibit_holder))
            &&& fields["active_model"@] == optional_model_tree(model_view(a.active_model))
            &&& fields["llama_server_embeddings"@] == optional_unit_tree(unit_view(a.llama_server_embeddings))
            &&& fields["active_model_embeddings"@] == optional_model_tree(model_view(a.active_model_embeddings))
            &&& text@ == object_text(
                seq![
                    ("status"@, json_text(fields["status"@])),
                    ("message"@, json_text(fields["message"@])),
                    ("llama_server"@, optional_unit_printed(unit_view(a.llama_server))),
                    ("inhibit_holder"@, optional_unit_printed(unit_view(a.inhibit_holder))),
                    ("active_model"@, optional_model_printed(model_view(a.active_model))),
                    ("llama_server_embeddings"@, optional_unit_printed(unit_view(a.llama_server_embeddings))),
                    ("active_model_embeddings"@, optional_model_printed(model_view(a.active_model_embeddings))),
                ],
            )
        },
{
    lemma_status_names_differ();
    let fields = json_tree(document)->Object_0;
    assert(fields.dom() =~= set!["status"@, "message"@, "llama_server"@, "inhibit_holder"@, "active_model"@, "llama_server_embeddings"@, "active_model_embeddings"@]);
    assert(text@ == object_text(
        seq![
            ("status"@, json_text(fields["status"@])),
            ("message"@, json_text(fields["message"@])),
            ("llama_server"@, optional_unit_printed(unit_view(a.llama_server))),
            ("inhibit_holder"@, optional_unit_printed(unit_view(a.inhibit_holder))),
            ("active_model"@, optional_model_printed(model_view(a.active_model))),
            ("llama_server_embeddings"@, optional_unit_printed(unit_view(a.llama_server_embeddings))),
            ("active_model_embeddings"@, optional_model_printed(model_view(a.active_model_embeddings))),
        ],
    ));
}

proof fn lemma_start_names_differ()
    ensures
        "status"@ != "message"@,
        "status"@ != "model_alias"@,
        "status"@ != "model_path"@,
        "status"@ != "startup_triggered"@,
        "status"@ != "server_ready"@,
        "status"@ != "model_verified"@,
        "status"@ != "llama_server"@,
        "message"@ != "model_alias"@,
        "message"@ != "model_path"@,
        "message"@ != "startup_triggered"@,
        "message"@ != "server_ready"@,
        "message"@ != "model_verified"@,
        "message"@ != "llama_server"@,
        "model_alias"@ != "model_path"@,
        "model_alias"@ != "startup_triggered"@,
        "model_alias"@ != "server_ready"@,
        "model_alias"@ != "model_verified"@,
        "model_alias"@ != "llama_server"@,
        "model_path"@ != "startup_triggered"@,
        "model_path"@ != "server_ready"@,
        "model_path"@ != "model_verified"@,
        "model_path"@ != "llama_server"@,
        "startup_triggered"@ != "server_ready"@,
        "startup_triggered"@ != "model_verified"@,
        "startup_triggered"@ != "llama_server"@,
        "server_ready"@ != "model_verified"@,
        "server_ready"@ != "llama_server"@,
        "model_verified"@ != "llama_server"@,
{
    reveal_strlit("status");
    reveal_strlit("message");
    reveal_strlit("model_alias");
    reveal_strlit("model_path");
    reveal_strlit("startup_triggered");
    reveal_strlit("server_ready");
    reveal_strlit("model_verified");
    reveal_strlit("llama_server");
    assert("server_ready"@[0] != "llama_server"@[0]);
    assert("status"@.len() == 6);
    assert("message"@.len() == 7);
    assert("model_alias"@.len() == 11);
    assert("model_path"@.len() == 10);
    assert("startup_triggered"@.len() == 17);
    assert("server_ready"@.len() == 12);
    assert("model_verified"@.len() == 14);
    assert("llama_server"@.len() == 12);
}

/// The document of the answer to `ensure-started` has each of its parts, and nothing else, under its own name; printed, they
/// stand in this order.
pub proof fn starts_stand_under_their_names(a: &EnsureStartedResponse, document: Value, text: String)
    requires
        call_ensures(EnsureStartedResponse::to_json, (a,), document),
        call_ensures(EnsureStartedResponse::to_text, (a,), text),
    ensures
        json_tree(document) matches JsonTree::Object(fields) && {
            &&& fields.dom() == set!["status"@, "message"@, "model_alias"@, "model_path"@, "startup_triggered"@, "server_ready"@, "model_verified"@, "llama_server"@]
            &&& fields["status"@] == JsonTree::Text(status_name(a.status))
            &&& fields["message"@] == JsonTree::Text(a.message@)
            &&& fields["model_alias"@] == JsonTree::Text(a.model_alias@)
            &&& fields["model_path"@] == JsonTree::Text(a.model_path@)
            &&& fields["startup_triggered"@] == JsonTree::Bool(a.startup_triggered)
            &&& fields["server_ready"@] == JsonTree::Bool(a.server_ready)
            &&& fields["model_verified"@] == JsonTree::Bool(a.model_verified)
            &&& fields["llama_server"@] == optional_unit_tree(unit_view(a.llama_server))
            &&& text@ == object_text(
                seq![
                    ("status"@, json_text(fields["status"@])),
                    ("message"@, json_text(fields["message"@])),
                    ("model_alias"@, json_text(fields["model_alias"@])),
                    ("model_path"@, json_text(fields["model_path"@])),
                    ("startup_triggered"@, json_text(fields["startup_triggered"@])),
                    ("server_ready"@, json_text(fields["server_ready"@])),
                    ("model_verified"@, json_text(fields["model_verified"@])),
                    ("llama_server"@, optional_unit_printed(unit_view(a.llama_server))),
                ],
            )
        },
{
    lemma_start_names_differ();
    let fields = json_tree(document)->Object_0;
    assert(fields.dom() =~= set!["status"@, "message"@, "model_alias"@, "model_path"@, "startup_triggered"@, "server_ready"@, "model_verified"@, "llama_server"@]);
    assert(text@ == object_text(
        seq![
            ("status"@, json_text(fields["status"@])),
            ("message"@, json_text(fields["message"@])),
            ("model_alias"@, json_text(fields["model_alias"@])),
            ("model_path"@, json_text(fields["model_path"@])),
            ("startup_triggered"@, json_text(fields["startup_triggered"@])),
            ("server_ready"@, json_text(fields["server_ready"@])),
            ("model_verified"@, json_text(fields["model_verified"@])),
            ("llama_server"@, optional_unit_printed(unit_view(a.llama_server))),
        ],
    ));
}

proof fn lemma_acquire_names_differ()
    ensures
        "status"@ != "message"@,
        "status"@ != "inhibit_holder"@,
        "status"@ != "ttl_secs"@,
        "status"@ != "renewed"@,
        "message"@ != "inhibit_holder"@,
        "message"@ != "ttl_secs"@,
        "message"@ != "renewed"@,
        "inhibit_holder"@ != "ttl_secs"@,
        "inhibit_holder"@ != "renewed"@,
        "ttl_secs"@ != "renewed"@,
{
    reveal_strlit("status");
    reveal_strlit("message");
    reveal_strlit("inhibit_holder");
    reveal_strlit("ttl_secs");
    reveal_strlit("renewed");
    assert("message"@[0] != "renewed"@[0]);
    assert("status"@.len() == 6);
    assert("message"@.len() == 7);
    assert("inhibit_holder"@.len() == 14);
    assert("ttl_secs"@.len() == 8);
    assert("renewed"@.len() == 7);
}

/// The document of the answer to `lease acquire` has each of its parts, and nothing else, under its own name; printed, they
/// stand in this order.
pub proof fn acquired_leases_stand_under_their_names(a: &LeaseAcquireResponse, document: Value, text: String)
    requires
        call_ensures(LeaseAcquireResponse::to_json, (a,), document),
        call_ensures(LeaseAcquireResponse::to_text, (a,), text),
    ensures
        json_tree(document) matches JsonTree::Object(fields) && {
            &&& fields.dom() == set!["status"@, "message"@, "inhibit_holder"@, "ttl_secs"@, "renewed"@]
            &&& fields["status"@] == JsonTree::Text(status_name(a.status))
            &&& fields["message"@] == JsonTree::Text(a.message@)
            &&& fields["inhibit_holder"@] == optional_unit_tree(unit_view(a.inhibit_holder))
            &&& fields["ttl_secs"@] == JsonTree::Number(decimal(a.ttl_secs as nat))
            &&& fields["renewed"@] == JsonTree::Bool(a.renewed)
            &&& text@ == object_text(
                seq![
                    ("status"@, json_text(fields["status"@])),
                    ("message"@, json_text(fields["message"@])),
                    ("inhibit_holder"@, optional_unit_printed(unit_view(a.inhibit_holder))),
                    ("ttl_secs"@, json_text(fields["ttl_secs"@])),
                    ("renewed"@, json_text(fields["renewed"@])),
                ],
            )
        },
{
    lemma_acquire_names_differ();
    let fields = json_tree(document)->Object_0;
    assert(fields.dom() =~= set!["status"@, "message"@, "inhibit_holder"@, "ttl_secs"@, "renewed"@]);
    assert(text@ == object_text(
        seq![
            ("status"@, json_text(fields["status"@])),
            ("message"@, json_text(fields["message"@])),
            ("inhibit_holder"@, optional_unit_printed(unit_view(a.inhibit_holder))),
            ("ttl_secs"@, json_text(fields["ttl_secs"@])),
            ("renewed"@, json_text(fields["renewed"@])),
        ],
    ));
}

proof fn lemma_lease_names_differ()
    ensures
        "status"@ != "message"@,
        "status"@ != "inhibit_holder"@,
        "message"@ != "inhibit_holder"@,
{
    reveal_strlit("status");
    reveal_strlit("message");
    reveal_strlit("inhibit_holder");
    assert("status"@.len() == 6);
    assert("message"@.len() == 7);
    assert("inhibit_holder"@.len() == 14);
}

/// The document of the answer to `lease release` has each of its parts, and nothing else, under its own name; printed, they
/// stand in this order.
pub proof fn released_leases_stand_under_their_names(a: &LeaseReleaseResponse, document: Value, text: String)
    requires
        call_ensures(LeaseReleaseResponse::to_json, (a,), document),
        call_ensures(LeaseReleaseResponse::to_text, (a,), text),
    ensures
        json_tree(document) matches JsonTree::Object(fields) && {
            &&& fields.dom() == set!["status"@, "message"@, "inhibit_holder"@]
            &&& fields["status"@] == JsonTree::Text(status_name(a.status))
            &&& fields["message"@] == JsonTree::Text(a.message@)
            &&& fields["inhibit_holder"@] == optional_unit_tree(unit_view(a.inhibit_holder))
            &&& text@ == object_text(
                seq![
                    ("status"@, json_text(fields["status"@])),
                    ("message"@, json_text(fields["message"@])),
                    ("inhibit_holder"@, optional_unit_printed(unit_view(a.inhibit_holder))),
                ],
            )
        },
{
    lemma_lease_names_differ();
    let fields = json_tree(document)->Object_0;
    assert(fields.dom() =~= set!["status"@, "message"@, "inhibit_holder"@]);
    assert(text@ == object_text(
        seq![
            ("status"@, json_text(fields["status"@])),
            ("message"@, json_text(fields["message"@])),
            ("inhibit_holder"@, optional_unit_printed(unit_view(a.inhibit_holder))),
        ],
    ));
}

/// The document of the answer to `lease inspect` has each of its parts, and nothing else, under its own name; printed, they
/// stand in this order.
pub proof fn inspected_leases_stand_under_their_names(a: &LeaseInspectResponse, document: Value, text: String)
    requires
        call_ensures(LeaseInspectResponse::to_json, (a,), document),
        call_ensures(LeaseInspectResponse::to_text, (a,), text),
    ensures
        json_tree(document) matches JsonTree::Object(fields) && {
            &&& fields.dom() == set!["status"@, "message"@, "inhibit_holder"@]
            &&& fields["status"@] == JsonTree::Text(status_name(a.status))
            &&& fields["message"@] == JsonTree::Text(a.message@)
            &&& fields["inhibit_holder"@] == optional_unit_tree(unit_view(a.inhibit_holder))
            &&& text@ == object_text(
                seq![
                    ("status"@, json_text(fields["status"@])),
                    ("message"@, json_text(fields["message"@])),
                    ("inhibit_holder"@, optional_unit_printed(unit_view(a.inhibit_holder))),
                ],
            )
        },
{
    lemma_lease_names_differ();
    let fields = json_tree(document)->Object_0;
    assert(fields.dom() =~= set!["status"@, "message"@, "inhibit_holder"@]);
    assert(text@ == object_text(
        seq![
            ("status"@, json_text(fields["status"@])),
            ("message"@, json_text(fields["message"@])),
            ("inhibit_holder"@, optional_unit_printed(unit_view(a.inhibit_holder))),
        ],
    ));
}

/// What is not there is `null`, in the documents and as it is printed; what is there is what its own
/// document and its own text say.
pub proof fn missing_parts_are_null(
    unit: UnitInfo,
    model: ModelInfo,
    units: Value,
    models: Value,
    unit_is: String,
    model_is: String,
)
    requires
        call_ensures(UnitInfo::to_json, (&unit,), units),
        call_ensures(ModelInfo::to_json, (&model,), models),
        call_ensures(UnitInfo::to_text, (&unit,), unit_is),
        call_ensures(ModelInfo::to_text, (&model,), model_is),
    ensures
        optional_unit_tree(unit_view(None)) is Null,
        optional_model_tree(model_view(None)) is Null,
        optional_unit_tree(unit_view(Some(unit))) == json_tree(units),
        optional_model_tree(model_view(Some(model))) == json_tree(models),
        optional_unit_printed(unit_view(None)) == json_text(JsonTree::Null),
        optional_model_printed(model_view(None)) == json_text(JsonTree::Null),
        optional_unit_printed(unit_view(Some(unit))) == unit_is@,
        optional_model_printed(model_view(Some(model))) == model_is@,
{
}

/// `lease inspect` asks systemd about the unit that holds the lease, and says what it shows.
pub proof fn lease_is_inspected_at_its_unit<S: SystemdControl, H: ServerCheck>(
    helper: &Helper<S, H>,
    r: LeaseInspectResponse,
)
    requires
        call_ensures(Helper::<S, H>::lease_inspect, (helper,), r),
    ensures
        exists|unit: &str, shown: Result<TextTable, String>|
            {
                &&& unit@ == helper.config.inhibit_holder_unit@
                &&& #[trigger] call_ensures(S::show_unit, (&*helper.sys, unit), shown)
                &&& r.status is Okay <==> shown is Ok
                &&& shown is Ok ==> r.inhibit_holder is Some && told_as_shown(
                    r.inhibit_holder->0,
                    unit@,
                    shown,
                )
                &&& shown is Err ==> r.inhibit_holder is None
            },
{
    let shown = choose|shown: Result<TextTable, String>| #[trigger]
        shows(&*helper.sys, helper.config.inhibit_holder_unit@, shown) && r@ == lease_inspected(
            helper.config.inhibit_holder_unit@,
            shown_view(shown),
        );
    let unit = choose|unit: &str|
        unit@ == helper.config.inhibit_holder_unit@ && #[trigger] call_ensures(
            S::show_unit,
            (&*helper.sys, unit),
            shown,
        );
    assert(call_ensures(S::show_unit, (&*helper.sys, unit), shown));
}

/// A lease that is acquired is held by its own unit, which systemd showed active after it was made to
/// keep the host awake for the time that was granted.
pub proof fn acquired_lease_is_held_by_its_unit<S: SystemdControl, H: ServerCheck>(
    helper: &Helper<S, H>,
    ttl_secs: u64,
    r: LeaseAcquireResponse,
)
    requires
        call_ensures(Helper::<S, H>::lease_acquire, (helper, ttl_secs), r),
    ensures
        60 <= r.ttl_secs <= 86_400,
        60 <= ttl_secs <= 86_400 ==> r.ttl_secs == ttl_secs,
        r.inhibit_holder matches Some(unit) ==> unit.unit_name@
            == helper.config.inhibit_holder_unit@,
        r.status is Okay ==> {
            &&& r.inhibit_holder matches Some(unit)
            &&& unit.active_state@ == "active"@
            &&& shows_state(&*helper.sys, helper.config.inhibit_holder_unit@, unit@)
            &&& found_active(&*helper.sys, helper.config.inhibit_holder_unit@, r.renewed)
            &&& replaces(
                &*helper.sys,
                helper.config.inhibit_holder_unit@,
                "llm-wake-proxy inhibit holder"@,
                lease_command(r.ttl_secs),
                Ok(()),
            )
        },
{
}

/// A lease that is released was held by its own unit, which was stopped and is passed on as it is then.
pub proof fn released_lease_was_held_by_its_unit<S: SystemdControl, H: ServerCheck>(
    helper: &Helper<S, H>,
    r: LeaseReleaseResponse,
)
    requires
        call_ensures(Helper::<S, H>::lease_release, (helper,), r),
    ensures
        r.status is Okay ==> {
            &&& stops(&*helper.sys, helper.config.inhibit_holder_unit@, Ok(()))
            &&& r.inhibit_holder matches Some(unit)
            &&& shows_state(&*helper.sys, helper.config.inhibit_holder_unit@, unit@)
        },
        !(r.status is Okay) ==> r.inhibit_holder is None && exists|error: Seq<char>| #[trigger]
            stops(&*helper.sys, helper.config.inhibit_holder_unit@, Err(error)) && r.message@
                == "failed to release lease: "@ + error,
{
}

/// `ensure-started` is about the server of its target: the answer has the name and the path that were
/// asked for and the unit of that target, and is a success only if that unit was found active or was
/// started, and the server at the port of that target answered.
pub proof fn start_is_about_its_target<S: SystemdControl, H: ServerCheck, W: Fn(u16, u64) -> bool>(
    helper: &Helper<S, H>,
    target: Target,
    alias: &str,
    path: &str,
    wait: W,
    r: EnsureStartedResponse,
)
    requires
        call_ensures(Helper::<S, H>::ensure_started::<W>, (helper, target, alias, path, wait), r),
    ensures
        r.model_alias@ == alias@,
        r.model_path@ == path@,
        r.llama_server matches Some(shown) && shown.unit_name@ == unit_of(helper.config@, target),
        r.startup_triggered ==> found_active(
            &*helper.sys,
            unit_of(helper.config@, target),
            false,
        ) && starts(&*helper.sys, unit_of(helper.config@, target), Ok(())),
        r.status is Okay && !r.startup_triggered ==> found_active(
            &*helper.sys,
            unit_of(helper.config@, target),
            true,
        ),
        r.status is Okay ==> exists|answer: Result<Seq<char>, Seq<char>>| #[trigger]
            answers(&*helper.http, port_of(helper.config@, target), answer) && answer is Ok,
{
    let sys = &*helper.sys;
    let http = &*helper.http;
    let port = port_of(helper.config@, target);
    let first = unstarted(
        unit_of(helper.config@, target),
        alias@,
        path@,
        helper.config.server_start_timeout_secs,
    );
    assert(reaches(sys, http, wait, port, first, StartStepView::Done(r@)));
    if exists|s: StartingView, shown: Result<TextTable, String>|
        {
            &&& #[trigger] is_shown(sys, http, wait, port, first, StartStepView::ShowUnit(s))
            &&& #[trigger] shows(sys, first.unit, shown)
            &&& r@ == after_shown(s, shown_view(shown))
        } {
        let (s, shown) = choose|s: StartingView, shown: Result<TextTable, String>|
            {
                &&& #[trigger] is_shown(sys, http, wait, port, first, StartStepView::ShowUnit(s))
                &&& #[trigger] shows(sys, first.unit, shown)
                &&& r@ == after_shown(s, shown_view(shown))
            };
        assert(s.triggered ==> starts(sys, first.unit, Ok(())));
        assert(!s.triggered ==> found_active(sys, first.unit, true));
        if s.identity is Some {
            let (before, answer) = choose|before: StartingView, answer: Result<Seq<char>, Seq<char>>|
                {
                    &&& #[trigger] runs(sys, first, StartStepView::WaitForServer(before))
                    &&& call_ensures(wait, (port, first.timeout_secs), true)
                    &&& #[trigger] answers(http, port, answer)
                    &&& StartStepView::ShowUnit(s) == after_models(before, answer)
                };
            assert(answers(http, port, answer));
            assert(r.status is Okay ==> answer is Ok);
        }
    }
}

} // verus!
