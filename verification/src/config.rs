//! The configuration of the proxy, from environment variables.

use std::time::Duration;

use vstd::prelude::*;

use crate::numeral::{number, parse_number};
use crate::table::TextTable;
use crate::text;
use crate::text::{blank, joined, joined_pieces, pieces};

verus! {

/// The length of time that `Duration::from_secs` makes of a number of seconds.
pub uninterp spec fn seconds(secs: u64) -> Duration;

/// `Duration::from_secs` makes a length of time of whole seconds, which is called `seconds` here.
pub assume_specification[ Duration::from_secs ](secs: u64) -> (r: Duration)
    ensures
        r == seconds(secs),
;

#[derive(Debug)]
pub struct AppConfig {
    pub listen_port: u16,
    pub model: ModelConfig,
    pub embeddings: EmbeddingsConfig,
    pub warm_execution: WarmExecutionConfig,
    pub host: HostConfig,
    pub cold_start_max_waiting: usize,
}

/// What an `AppConfig` says.
#[verifier::ext_equal]
pub struct AppConfigView {
    pub listen_port: u16,
    pub model: ModelConfigView,
    pub embeddings: EmbeddingsConfigView,
    pub warm_execution: WarmExecutionConfig,
    pub host: HostConfigView,
    pub cold_start_max_waiting: usize,
}

impl View for AppConfig {
    type V = AppConfigView;

    open spec fn view(&self) -> AppConfigView {
        AppConfigView {
            listen_port: self.listen_port,
            model: self.model@,
            embeddings: self.embeddings@,
            warm_execution: self.warm_execution,
            host: self.host@,
            cold_start_max_waiting: self.cold_start_max_waiting,
        }
    }
}

impl Clone for AppConfig {
    fn clone(&self) -> (r: AppConfig)
        ensures
            r@ == self@,
    {
        AppConfig {
            listen_port: self.listen_port,
            model: self.model.clone(),
            embeddings: self.embeddings.clone(),
            warm_execution: self.warm_execution,
            host: self.host.clone(),
            cold_start_max_waiting: self.cold_start_max_waiting,
        }
    }
}

/// The model as clients see it.
#[derive(Debug)]
pub struct ModelConfig {
    pub alias: String,
    pub provider_id: String,
    pub owned_by: String,
}

/// What a `ModelConfig` says.
#[verifier::ext_equal]
pub struct ModelConfigView {
    pub alias: Seq<char>,
    pub provider_id: Seq<char>,
    pub owned_by: Seq<char>,
}

impl View for ModelConfig {
    type V = ModelConfigView;

    open spec fn view(&self) -> ModelConfigView {
        ModelConfigView {
            alias: self.alias@,
            provider_id: self.provider_id@,
            owned_by: self.owned_by@,
        }
    }
}

impl Clone for ModelConfig {
    fn clone(&self) -> (r: ModelConfig)
        ensures
            r@ == self@,
    {
        ModelConfig {
            alias: self.alias.clone(),
            provider_id: self.provider_id.clone(),
            owned_by: self.owned_by.clone(),
        }
    }
}

#[derive(Debug)]
pub struct EmbeddingsConfig {
    pub enabled: bool,
    pub backend: Option<EmbeddingsBackendConfig>,
}

/// What an `EmbeddingsConfig` says.
#[verifier::ext_equal]
pub struct EmbeddingsConfigView {
    pub enabled: bool,
    pub backend: Option<EmbeddingsBackendView>,
}

impl View for EmbeddingsConfig {
    type V = EmbeddingsConfigView;

    open spec fn view(&self) -> EmbeddingsConfigView {
        EmbeddingsConfigView {
            enabled: self.enabled,
            backend: match self.backend {
                Some(backend) => Some(backend@),
                None => None,
            },
        }
    }
}

impl Clone for EmbeddingsConfig {
    fn clone(&self) -> (r: EmbeddingsConfig)
        ensures
            r@ == self@,
    {
        EmbeddingsConfig {
            enabled: self.enabled,
            backend: match &self.backend {
                Some(backend) => Some(backend.clone()),
                None => None,
            },
        }
    }
}

/// A model server of its own for embeddings.
#[derive(Debug)]
pub struct EmbeddingsBackendConfig {
    pub alias: String,
    pub provider_id: String,
    pub owned_by: String,
    pub model_path: String,
    pub tunnel_local_port: u16,
    pub remote_port: u16,
}

/// What an `EmbeddingsBackendConfig` says.
#[verifier::ext_equal]
pub struct EmbeddingsBackendView {
    pub alias: Seq<char>,
    pub provider_id: Seq<char>,
    pub owned_by: Seq<char>,
    pub model_path: Seq<char>,
    pub tunnel_local_port: u16,
    pub remote_port: u16,
}

impl View for EmbeddingsBackendConfig {
    type V = EmbeddingsBackendView;

    open spec fn view(&self) -> EmbeddingsBackendView {
        EmbeddingsBackendView {
            alias: self.alias@,
            provider_id: self.provider_id@,
            owned_by: self.owned_by@,
            model_path: self.model_path@,
            tunnel_local_port: self.tunnel_local_port,
            remote_port: self.remote_port,
        }
    }
}

impl Clone for EmbeddingsBackendConfig {
    fn clone(&self) -> (r: EmbeddingsBackendConfig)
        ensures
            r@ == self@,
    {
        EmbeddingsBackendConfig {
            alias: self.alias.clone(),
            provider_id: self.provider_id.clone(),
            owned_by: self.owned_by.clone(),
            model_path: self.model_path.clone(),
            tunnel_local_port: self.tunnel_local_port,
            remote_port: self.remote_port,
        }
    }
}

/// How many requests run at once, how many wait for that, and for how long.
#[derive(Clone, Copy, Debug)]
pub struct WarmExecutionConfig {
    pub max_active_requests: usize,
    pub max_queued_requests: usize,
    pub queue_timeout: Duration,
}

impl Default for WarmExecutionConfig {
    fn default() -> (r: WarmExecutionConfig)
        ensures
            r.max_active_requests == 2,
            r.max_queued_requests == 16,
            r.queue_timeout == seconds(30),
    {
        WarmExecutionConfig {
            max_active_requests: 2,
            max_queued_requests: 16,
            queue_timeout: Duration::from_secs(30),
        }
    }
}

/// The host of the model server, and how to reach and wake it.
#[derive(Debug)]
pub struct HostConfig {
    pub host: String,
    pub ssh_user: String,
    pub ssh_port: u16,
    pub wol_mac: [u8; 6],
    pub wol_broadcast: String,
    pub wol_port: u16,
    pub helper_path: String,
    pub model_path: String,
    pub ssh_key_path: String,
    pub tunnel_local_port: u16,
    pub remote_port: u16,
}

/// What a `HostConfig` says.
#[verifier::ext_equal]
pub struct HostConfigView {
    pub host: Seq<char>,
    pub ssh_user: Seq<char>,
    pub ssh_port: u16,
    pub wol_mac: Seq<u8>,
    pub wol_broadcast: Seq<char>,
    pub wol_port: u16,
    pub helper_path: Seq<char>,
    pub model_path: Seq<char>,
    pub ssh_key_path: Seq<char>,
    pub tunnel_local_port: u16,
    pub remote_port: u16,
}

impl View for HostConfig {
    type V = HostConfigView;

    open spec fn view(&self) -> HostConfigView {
        HostConfigView {
            host: self.host@,
            ssh_user: self.ssh_user@,
            ssh_port: self.ssh_port,
            wol_mac: self.wol_mac@,
            wol_broadcast: self.wol_broadcast@,
            wol_port: self.wol_port,
            helper_path: self.helper_path@,
            model_path: self.model_path@,
            ssh_key_path: self.ssh_key_path@,
            tunnel_local_port: self.tunnel_local_port,
            remote_port: self.remote_port,
        }
    }
}

impl Clone for HostConfig {
    fn clone(&self) -> (r: HostConfig)
        ensures
            r@ == self@,
    {
        HostConfig {
            host: self.host.clone(),
            ssh_user: self.ssh_user.clone(),
            ssh_port: self.ssh_port,
            wol_mac: self.wol_mac,
            wol_broadcast: self.wol_broadcast.clone(),
            wol_port: self.wol_port,
            helper_path: self.helper_path.clone(),
            model_path: self.model_path.clone(),
            ssh_key_path: self.ssh_key_path.clone(),
            tunnel_local_port: self.tunnel_local_port,
            remote_port: self.remote_port,
        }
    }
}

/// An environment variable, if it is set to more than white space.
pub open spec fn variable(env: Map<Seq<char>, Seq<char>>, name: Seq<char>) -> Option<Seq<char>> {
    if env.contains_key(name) && !blank(env[name]) {
        Some(env[name])
    } else {
        None
    }
}

/// An environment variable, or a default.
pub open spec fn variable_or(
    env: Map<Seq<char>, Seq<char>>,
    name: Seq<char>,
    default: Seq<char>,
) -> Seq<char> {
    match variable(env, name) {
        Some(value) => value,
        None => default,
    }
}

/// The number in an environment variable, if it is at most `max`.
pub open spec fn variable_number(
    env: Map<Seq<char>, Seq<char>>,
    name: Seq<char>,
    max: nat,
) -> Option<nat> {
    match variable(env, name) {
        Some(value) => number(value, 10, max),
        None => None,
    }
}

/// The number in an environment variable, or a default where it is missing, above `max` or not a
/// number.
pub open spec fn variable_number_or(
    env: Map<Seq<char>, Seq<char>>,
    name: Seq<char>,
    max: nat,
    default: nat,
) -> nat {
    match variable_number(env, name, max) {
        Some(value) => value,
        None => default,
    }
}

/// The port in an environment variable, or a default.
pub open spec fn port_or(env: Map<Seq<char>, Seq<char>>, name: Seq<char>, default: u16) -> u16 {
    variable_number_or(env, name, u16::MAX as nat, default as nat) as u16
}

/// The count in an environment variable, or a default.
pub open spec fn count_or(
    env: Map<Seq<char>, Seq<char>>,
    name: Seq<char>,
    default: usize,
) -> usize {
    variable_number_or(env, name, usize::MAX as nat, default as nat) as usize
}

/// The count in an environment variable, or a default also where it is zero.
pub open spec fn positive_count_or(
    env: Map<Seq<char>, Seq<char>>,
    name: Seq<char>,
    default: usize,
) -> usize {
    if count_or(env, name, default) > 0 {
        count_or(env, name, default)
    } else {
        default
    }
}

/// The six bytes of a MAC address in hexadecimal, with colons between them.
pub open spec fn mac_bytes(text: Seq<char>) -> Option<Seq<u8>> {
    let parts = pieces(text, ':');
    if parts.len() == 6 && forall|i: int|
        0 <= i < 6 ==> number(#[trigger] parts[i], 16, 255) is Some {
        Some(Seq::new(6, |i: int| number(parts[i], 16, 255)->0 as u8))
    } else {
        None
    }
}

/// The model that the environment asks for.
pub open spec fn model_setting(env: Map<Seq<char>, Seq<char>>) -> ModelConfigView {
    ModelConfigView {
        alias: variable_or(env, "MODEL_ALIAS"@, "llm-wake-proxy"@),
        provider_id: variable_or(env, "MODEL_PROVIDER_ID"@, "llama.cpp"@),
        owned_by: variable_or(env, "MODEL_OWNED_BY"@, "llm-wake-proxy"@),
    }
}

/// The model server for embeddings that the environment asks for.
pub open spec fn embeddings_backend_setting(env: Map<Seq<char>, Seq<char>>) -> Option<
    EmbeddingsBackendView,
> {
    let model = model_setting(env);
    match variable(env, "EMBEDDINGS_MODEL_PATH"@) {
        Some(model_path) => Some(
            EmbeddingsBackendView {
                alias: variable_or(env, "EMBEDDINGS_MODEL_ALIAS"@, model.alias + "-embeddings"@),
                provider_id: variable_or(
                    env,
                    "EMBEDDINGS_MODEL_PROVIDER_ID"@,
                    model.provider_id,
                ),
                owned_by: variable_or(env, "EMBEDDINGS_MODEL_OWNED_BY"@, model.owned_by),
                model_path,
                tunnel_local_port: port_or(env, "EMBEDDINGS_TUNNEL_LOCAL_PORT"@, 18081),
                remote_port: port_or(env, "EMBEDDINGS_LLAMA_SERVER_PORT"@, 8081),
            },
        ),
        None => None,
    }
}

/// Whether a variable says yes.
pub open spec fn says_yes(value: Seq<char>) -> bool {
    value == "1"@ || value == "true"@ || value == "TRUE"@ || value == "yes"@
}

/// What the environment asks for about embeddings. A model server of its own implies that they are
/// enabled.
pub open spec fn embeddings_setting(env: Map<Seq<char>, Seq<char>>) -> EmbeddingsConfigView {
    let backend = embeddings_backend_setting(env);
    EmbeddingsConfigView {
        enabled: backend is Some || match variable(env, "EMBEDDINGS_ENABLED"@) {
            Some(value) => says_yes(value),
            None => true,
        },
        backend,
    }
}

/// The limits that the environment asks for.
pub open spec fn warm_execution_setting(env: Map<Seq<char>, Seq<char>>) -> WarmExecutionConfig {
    WarmExecutionConfig {
        max_active_requests: positive_count_or(env, "WARM_MAX_ACTIVE_REQUESTS"@, 2),
        max_queued_requests: count_or(env, "WARM_MAX_QUEUED_REQUESTS"@, 16),
        queue_timeout: seconds(
            variable_number_or(env, "WARM_QUEUE_TIMEOUT_SECS"@, u64::MAX as nat, 30) as u64,
        ),
    }
}

/// The host that the environment names, or what it fails to say.
pub open spec fn host_setting(env: Map<Seq<char>, Seq<char>>) -> Result<
    HostConfigView,
    Seq<char>,
> {
    match variable(env, "SSH_HOST"@) {
        None => Err("SSH_HOST must be set"@),
        Some(host) => match variable(env, "SSH_USER"@) {
            None => Err("SSH_USER must be set"@),
            Some(ssh_user) => match variable(env, "WOL_MAC_ADDRESS"@) {
                None => Err("WOL_MAC_ADDRESS must be set"@),
                Some(mac) => match mac_bytes(mac) {
                    None => Err("WOL_MAC_ADDRESS must be in XX:XX:XX:XX:XX:XX format"@),
                    Some(wol_mac) => match variable(env, "MODEL_PATH"@) {
                        None => Err("MODEL_PATH must be set"@),
                        Some(model_path) => Ok(
                            HostConfigView {
                                host,
                                ssh_user,
                                ssh_port: port_or(env, "SSH_PORT"@, 22),
                                wol_mac,
                                wol_broadcast: variable_or(
                                    env,
                                    "WOL_BROADCAST_ADDR"@,
                                    "255.255.255.255"@,
                                ),
                                wol_port: port_or(env, "WOL_PORT"@, 9),
                                helper_path: variable_or(
                                    env,
                                    "HELPER_PATH"@,
                                    "/usr/local/bin/llm-wake-proxy-helper"@,
                                ),
                                model_path,
                                ssh_key_path: variable_or(
                                    env,
                                    "SSH_KEY_PATH"@,
                                    "~/.ssh/ssh-privatekey"@,
                                ),
                                tunnel_local_port: port_or(env, "TUNNEL_LOCAL_PORT"@, 18080),
                                remote_port: port_or(env, "LLAMA_SERVER_PORT"@, 8080),
                            },
                        ),
                    },
                },
            },
        },
    }
}

/// The configuration that the environment asks for, or what it fails to say.
pub open spec fn config_setting(env: Map<Seq<char>, Seq<char>>) -> Result<
    AppConfigView,
    Seq<char>,
> {
    match host_setting(env) {
        Err(message) => Err(message),
        Ok(host) => Ok(
            AppConfigView {
                listen_port: port_or(env, "PORT"@, 3000),
                model: model_setting(env),
                embeddings: embeddings_setting(env),
                warm_execution: warm_execution_setting(env),
                host,
                cold_start_max_waiting: positive_count_or(env, "COLD_START_MAX_WAITING"@, 32),
            },
        ),
    }
}

fn read_var(env: &TextTable, name: &str) -> (r: Option<String>)
    ensures
        text::text_view(r) == variable(env@, name@),
{
    match env.get(name) {
        Some(value) => if text::trim(value.as_str()).as_str().unicode_len() == 0 {
            None
        } else {
            Some(value.clone())
        },
        None => None,
    }
}

fn read_var_or(env: &TextTable, name: &str, default: &str) -> (r: String)
    ensures
        r@ == variable_or(env@, name@, default@),
{
    match read_var(env, name) {
        Some(value) => value,
        None => default.to_string(),
    }
}

fn read_number_or(env: &TextTable, name: &str, max: u64, default: u64) -> (r: u64)
    ensures
        r == variable_number_or(env@, name@, max as nat, default as nat),
        r <= max || r == default,
{
    match read_var(env, name) {
        Some(value) => match parse_number(value.as_str(), 10, max) {
            Some(n) => n,
            None => default,
        },
        None => default,
    }
}

fn read_port_or(env: &TextTable, name: &str, default: u16) -> (r: u16)
    ensures
        r == port_or(env@, name@, default),
{
    read_number_or(env, name, 65535, default as u64) as u16
}

fn read_nonnegative_usize(env: &TextTable, name: &str, default: usize) -> (r: usize)
    ensures
        r == count_or(env@, name@, default),
{
    read_number_or(env, name, usize::MAX as u64, default as u64) as usize
}

fn read_positive_usize(env: &TextTable, name: &str, default: usize) -> (r: usize)
    ensures
        r == positive_count_or(env@, name@, default),
{
    let value: usize = read_nonnegative_usize(env, name, default);
    if value > 0 {
        value
    } else {
        default
    }
}

/// The six bytes of a MAC address in hexadecimal, with colons between them.
pub fn parse_mac(input: &str) -> (r: Option<[u8; 6]>)
    ensures
        match r {
            Some(mac) => mac_bytes(input@) == Some(mac@),
            None => mac_bytes(input@) is None,
        },
{
    let parts = text::split(input, ':');
    let ghost views = pieces(input@, ':');
    if parts.len() != 6 {
        return None;
    }
    let mut mac: [u8; 6] = [0;6];
    let mut i: usize = 0;
    while i < 6
        invariant
            i <= 6,
            parts.len() == 6,
            views == parts@.map_values(|p: String| p@),
            views == pieces(input@, ':'),
            forall|j: int|
                0 <= j < i ==> number(#[trigger] views[j], 16, 255) == Some(mac@[j] as nat),
        decreases 6 - i,
    {
        assert(views[i as int] == parts@[i as int]@);
        match parse_number(parts[i].as_str(), 16, 255) {
            Some(byte) => {
                mac[i] = byte as u8;
            },
            None => {
                return None;
            },
        }
        i += 1;
    }
    assert(mac_bytes(input@)->0 =~= mac@);
    Some(mac)
}

fn read_model(env: &TextTable) -> (r: ModelConfig)
    ensures
        r@ == model_setting(env@),
{
    ModelConfig {
        alias: read_var_or(env, "MODEL_ALIAS", "llm-wake-proxy"),
        provider_id: read_var_or(env, "MODEL_PROVIDER_ID", "llama.cpp"),
        owned_by: read_var_or(env, "MODEL_OWNED_BY", "llm-wake-proxy"),
    }
}

fn read_embeddings(env: &TextTable, model: &ModelConfig) -> (r: EmbeddingsConfig)
    requires
        model@ == model_setting(env@),
    ensures
        r@ == embeddings_setting(env@),
{
    let backend = match read_var(env, "EMBEDDINGS_MODEL_PATH") {
        Some(model_path) => Some(
            EmbeddingsBackendConfig {
                alias: read_var_or(
                    env,
                    "EMBEDDINGS_MODEL_ALIAS",
                    model.alias.clone().concat("-embeddings").as_str(),
                ),
                provider_id: read_var_or(
                    env,
                    "EMBEDDINGS_MODEL_PROVIDER_ID",
                    model.provider_id.as_str(),
                ),
                owned_by: read_var_or(env, "EMBEDDINGS_MODEL_OWNED_BY", model.owned_by.as_str()),
                model_path,
                tunnel_local_port: read_port_or(env, "EMBEDDINGS_TUNNEL_LOCAL_PORT", 18081),
                remote_port: read_port_or(env, "EMBEDDINGS_LLAMA_SERVER_PORT", 8081),
            },
        ),
        None => None,
    };
    let enabled = backend.is_some() || match read_var(env, "EMBEDDINGS_ENABLED") {
        Some(value) => text::same(value.as_str(), "1") || text::same(value.as_str(), "true")
            || text::same(value.as_str(), "TRUE") || text::same(value.as_str(), "yes"),
        None => true,
    };
    EmbeddingsConfig { enabled, backend }
}

fn read_host(env: &TextTable) -> (r: Result<HostConfig, String>)
    ensures
        match r {
            Ok(host) => host_setting(env@) == Ok::<HostConfigView, Seq<char>>(host@),
            Err(message) => host_setting(env@) == Err::<HostConfigView, Seq<char>>(message@),
        },
{
    let host = match read_var(env, "SSH_HOST") {
        Some(host) => host,
        None => {
            return Err("SSH_HOST must be set".to_string());
        },
    };
    let ssh_user = match read_var(env, "SSH_USER") {
        Some(ssh_user) => ssh_user,
        None => {
            return Err("SSH_USER must be set".to_string());
        },
    };
    let wol_mac = match read_var(env, "WOL_MAC_ADDRESS") {
        Some(mac) => match parse_mac(mac.as_str()) {
            Some(wol_mac) => wol_mac,
            None => {
                return Err("WOL_MAC_ADDRESS must be in XX:XX:XX:XX:XX:XX format".to_string());
            },
        },
        None => {
            return Err("WOL_MAC_ADDRESS must be set".to_string());
        },
    };
    let model_path = match read_var(env, "MODEL_PATH") {
        Some(model_path) => model_path,
        None => {
            return Err("MODEL_PATH must be set".to_string());
        },
    };
    Ok(
        HostConfig {
            host,
            ssh_user,
            ssh_port: read_port_or(env, "SSH_PORT", 22),
            wol_mac,
            wol_broadcast: read_var_or(env, "WOL_BROADCAST_ADDR", "255.255.255.255"),
            wol_port: read_port_or(env, "WOL_PORT", 9),
            helper_path: read_var_or(env, "HELPER_PATH", "/usr/local/bin/llm-wake-proxy-helper"),
            model_path,
            ssh_key_path: read_var_or(env, "SSH_KEY_PATH", "~/.ssh/ssh-privatekey"),
            tunnel_local_port: read_port_or(env, "TUNNEL_LOCAL_PORT", 18080),
            remote_port: read_port_or(env, "LLAMA_SERVER_PORT", 8080),
        },
    )
}

impl AppConfig {
    /// The configuration that the environment asks for, or what it fails to say.
    pub fn from_env(env: &TextTable) -> (r: Result<AppConfig, String>)
        ensures
            match r {
                Ok(config) => config_setting(env@) == Ok::<AppConfigView, Seq<char>>(config@),
                Err(message) => config_setting(env@) == Err::<AppConfigView, Seq<char>>(message@),
            },
    {
        let model = read_model(env);
        let embeddings = read_embeddings(env, &model);
        let host = match read_host(env) {
            Ok(host) => host,
            Err(message) => {
                return Err(message);
            },
        };
        let queue_timeout_secs: u64 = read_number_or(env, "WARM_QUEUE_TIMEOUT_SECS", u64::MAX, 30);
        Ok(
            AppConfig {
                listen_port: read_port_or(env, "PORT", 3000),
                model,
                embeddings,
                warm_execution: WarmExecutionConfig {
                    max_active_requests: read_positive_usize(env, "WARM_MAX_ACTIVE_REQUESTS", 2),
                    max_queued_requests: read_nonnegative_usize(
                        env,
                        "WARM_MAX_QUEUED_REQUESTS",
                        16,
                    ),
                    queue_timeout: Duration::from_secs(queue_timeout_secs),
                },
                host,
                cold_start_max_waiting: read_positive_usize(env, "COLD_START_MAX_WAITING", 32),
            },
        )
    }
}

/// At least one request may run, and at least one may wait for a cold backend, whatever the
/// environment says; and embeddings with a model server of their own are enabled.
pub proof fn limits_stay_positive(env: Map<Seq<char>, Seq<char>>)
    requires
        config_setting(env) is Ok,
    ensures
        ({
            let config = config_setting(env)->Ok_0;
            &&& config.warm_execution.max_active_requests > 0
            &&& config.cold_start_max_waiting > 0
            &&& config.embeddings.backend is Some ==> config.embeddings.enabled
        }),
{
}

/// The configuration is complete exactly where the host, the user, the model and a proper MAC
/// address are given.
pub proof fn required_variables(env: Map<Seq<char>, Seq<char>>)
    ensures
        config_setting(env) is Ok <==> {
            &&& variable(env, "SSH_HOST"@) is Some
            &&& variable(env, "SSH_USER"@) is Some
            &&& variable(env, "MODEL_PATH"@) is Some
            &&& variable(env, "WOL_MAC_ADDRESS"@) matches Some(mac) && mac_bytes(mac) is Some
        },
{
}

/// A variable that is set to white space only counts as one that is not set.
pub proof fn blank_variable_is_unset(env: Map<Seq<char>, Seq<char>>, name: Seq<char>)
    requires
        env.contains_key(name),
        blank(env[name]),
    ensures
        variable(env, name) == variable(env.remove(name), name),
{
}

/// Whether a setting is what the variable `name` says: its text as it is, or the default where it is
/// not set or blank.
pub open spec fn set_by(
    env: Map<Seq<char>, Seq<char>>,
    name: Seq<char>,
    default: Seq<char>,
    setting: Seq<char>,
) -> bool {
    &&& env.contains_key(name) && !blank(env[name]) ==> setting == env[name]
    &&& !env.contains_key(name) || blank(env[name]) ==> setting == default
}

/// Whether a setting is the number that the variable `name` says, or the default where it is not set,
/// is no decimal number or is above `max`.
pub open spec fn number_set_by(
    env: Map<Seq<char>, Seq<char>>,
    name: Seq<char>,
    max: nat,
    default: nat,
    setting: nat,
) -> bool {
    &&& forall|n: nat|
        env.contains_key(name) && !blank(env[name]) && #[trigger] number(env[name], 10, max)
            == Some(n) ==> setting == n
    &&& !env.contains_key(name) || blank(env[name]) || number(env[name], 10, max) is None ==> setting
        == default
}

/// Every setting comes from its own variable: the text or the number that it holds, or the default.
pub proof fn settings_come_from_their_variables(env: &TextTable, config: AppConfig)
    requires
        call_ensures(AppConfig::from_env, (env,), Ok(config)),
    ensures
        set_by(env@, "MODEL_ALIAS"@, "llm-wake-proxy"@, config.model.alias@),
        set_by(env@, "MODEL_PROVIDER_ID"@, "llama.cpp"@, config.model.provider_id@),
        set_by(env@, "MODEL_OWNED_BY"@, "llm-wake-proxy"@, config.model.owned_by@),
        set_by(env@, "WOL_BROADCAST_ADDR"@, "255.255.255.255"@, config.host.wol_broadcast@),
        set_by(env@, "HELPER_PATH"@, "/usr/local/bin/llm-wake-proxy-helper"@, config.host.helper_path@),
        set_by(env@, "SSH_KEY_PATH"@, "~/.ssh/ssh-privatekey"@, config.host.ssh_key_path@),
        number_set_by(env@, "PORT"@, 65_535, 3000, config.listen_port as nat),
        number_set_by(env@, "SSH_PORT"@, 65_535, 22, config.host.ssh_port as nat),
        number_set_by(env@, "WOL_PORT"@, 65_535, 9, config.host.wol_port as nat),
        number_set_by(env@, "TUNNEL_LOCAL_PORT"@, 65_535, 18080, config.host.tunnel_local_port as nat),
        number_set_by(env@, "LLAMA_SERVER_PORT"@, 65_535, 8080, config.host.remote_port as nat),
        config.host.host@ == env@["SSH_HOST"@],
        config.host.ssh_user@ == env@["SSH_USER"@],
        config.host.model_path@ == env@["MODEL_PATH"@],
        mac_bytes(env@["WOL_MAC_ADDRESS"@]) == Some(config.host.wol_mac@),
{
}

/// The limits come from their variables. So many requests may run, and so many wait for a cold
/// backend, as theirs say, unless that is none; so many may wait for a slot as theirs says; and so
/// many seconds as theirs says.
pub proof fn limits_come_from_their_variables(env: &TextTable, config: AppConfig, n: nat)
    requires
        call_ensures(AppConfig::from_env, (env,), Ok(config)),
    ensures
        number_set_by(
            env@,
            "WARM_MAX_QUEUED_REQUESTS"@,
            usize::MAX as nat,
            16,
            config.warm_execution.max_queued_requests as nat,
        ),
        number_set_by(env@, "WARM_MAX_ACTIVE_REQUESTS"@, usize::MAX as nat, 2, n) ==> (n > 0
            ==> config.warm_execution.max_active_requests == n) && (n == 0
            ==> config.warm_execution.max_active_requests == 2),
        number_set_by(env@, "COLD_START_MAX_WAITING"@, usize::MAX as nat, 32, n) ==> (n > 0
            ==> config.cold_start_max_waiting == n) && (n == 0 ==> config.cold_start_max_waiting
            == 32),
        number_set_by(env@, "WARM_QUEUE_TIMEOUT_SECS"@, u64::MAX as nat, 30, n)
            ==> config.warm_execution.queue_timeout == seconds(n as u64),
{
}

/// Embeddings have a model server of their own exactly if a model is named for them. It has its own
/// name, which is that of the chat model with an ending where it is not given, and its own ports; and
/// then they are enabled. Otherwise they are, unless the variable for that says something else than
/// yes.
pub proof fn embeddings_come_from_their_variables(env: &TextTable, config: AppConfig)
    requires
        call_ensures(AppConfig::from_env, (env,), Ok(config)),
    ensures
        match config.embeddings.backend {
            Some(backend) => {
                &&& env@.contains_key("EMBEDDINGS_MODEL_PATH"@)
                &&& !blank(env@["EMBEDDINGS_MODEL_PATH"@])
                &&& backend.model_path@ == env@["EMBEDDINGS_MODEL_PATH"@]
                &&& set_by(
                    env@,
                    "EMBEDDINGS_MODEL_ALIAS"@,
                    config.model.alias@ + "-embeddings"@,
                    backend.alias@,
                )
                &&& set_by(
                    env@,
                    "EMBEDDINGS_MODEL_PROVIDER_ID"@,
                    config.model.provider_id@,
                    backend.provider_id@,
                )
                &&& set_by(
                    env@,
                    "EMBEDDINGS_MODEL_OWNED_BY"@,
                    config.model.owned_by@,
                    backend.owned_by@,
                )
                &&& number_set_by(
                    env@,
                    "EMBEDDINGS_TUNNEL_LOCAL_PORT"@,
                    65_535,
                    18081,
                    backend.tunnel_local_port as nat,
                )
                &&& number_set_by(
                    env@,
                    "EMBEDDINGS_LLAMA_SERVER_PORT"@,
                    65_535,
                    8081,
                    backend.remote_port as nat,
                )
                &&& config.embeddings.enabled
            },
            None => {
                &&& !env@.contains_key("EMBEDDINGS_MODEL_PATH"@) || blank(
                    env@["EMBEDDINGS_MODEL_PATH"@],
                )
                &&& config.embeddings.enabled <==> !env@.contains_key("EMBEDDINGS_ENABLED"@)
                    || blank(env@["EMBEDDINGS_ENABLED"@]) || env@["EMBEDDINGS_ENABLED"@] == "1"@
                    || env@["EMBEDDINGS_ENABLED"@] == "true"@ || env@["EMBEDDINGS_ENABLED"@]
                    == "TRUE"@ || env@["EMBEDDINGS_ENABLED"@] == "yes"@
            },
        },
{
}

/// A setting changes with its own variable only: two environments that agree on the variable of the
/// model name give it the same name, whatever else they say; and so for the host, its user, its model,
/// its ports and the port to listen on.
pub proof fn other_variables_do_not_matter(
    env: &TextTable,
    other: &TextTable,
    config: AppConfig,
    changed: AppConfig,
)
    requires
        call_ensures(AppConfig::from_env, (env,), Ok(config)),
        call_ensures(AppConfig::from_env, (other,), Ok(changed)),
    ensures
        env@.contains_key("MODEL_ALIAS"@) == other@.contains_key("MODEL_ALIAS"@) && env@["MODEL_ALIAS"@] == other@["MODEL_ALIAS"@]
            ==> config.model.alias@ == changed.model.alias@,
        env@.contains_key("MODEL_PROVIDER_ID"@) == other@.contains_key("MODEL_PROVIDER_ID"@) && env@["MODEL_PROVIDER_ID"@] == other@["MODEL_PROVIDER_ID"@]
            ==> config.model.provider_id@ == changed.model.provider_id@,
        env@.contains_key("MODEL_OWNED_BY"@) == other@.contains_key("MODEL_OWNED_BY"@) && env@["MODEL_OWNED_BY"@] == other@["MODEL_OWNED_BY"@]
            ==> config.model.owned_by@ == changed.model.owned_by@,
        env@.contains_key("WOL_BROADCAST_ADDR"@) == other@.contains_key("WOL_BROADCAST_ADDR"@) && env@["WOL_BROADCAST_ADDR"@] == other@["WOL_BROADCAST_ADDR"@]
            ==> config.host.wol_broadcast@ == changed.host.wol_broadcast@,
        env@.contains_key("HELPER_PATH"@) == other@.contains_key("HELPER_PATH"@) && env@["HELPER_PATH"@] == other@["HELPER_PATH"@]
            ==> config.host.helper_path@ == changed.host.helper_path@,
        env@.contains_key("SSH_KEY_PATH"@) == other@.contains_key("SSH_KEY_PATH"@) && env@["SSH_KEY_PATH"@] == other@["SSH_KEY_PATH"@]
            ==> config.host.ssh_key_path@ == changed.host.ssh_key_path@,
        env@.contains_key("SSH_HOST"@) == other@.contains_key("SSH_HOST"@) && env@["SSH_HOST"@] == other@["SSH_HOST"@]
            ==> config.host.host@ == changed.host.host@,
        env@.contains_key("SSH_USER"@) == other@.contains_key("SSH_USER"@) && env@["SSH_USER"@] == other@["SSH_USER"@]
            ==> config.host.ssh_user@ == changed.host.ssh_user@,
        env@.contains_key("MODEL_PATH"@) == other@.contains_key("MODEL_PATH"@) && env@["MODEL_PATH"@] == other@["MODEL_PATH"@]
            ==> config.host.model_path@ == changed.host.model_path@,
        env@.contains_key("WOL_MAC_ADDRESS"@) == other@.contains_key("WOL_MAC_ADDRESS"@) && env@["WOL_MAC_ADDRESS"@] == other@["WOL_MAC_ADDRESS"@]
            ==> config.host.wol_mac@ == changed.host.wol_mac@,
        env@.contains_key("PORT"@) == other@.contains_key("PORT"@) && env@["PORT"@] == other@["PORT"@]
            ==> config.listen_port == changed.listen_port,
        env@.contains_key("SSH_PORT"@) == other@.contains_key("SSH_PORT"@) && env@["SSH_PORT"@] == other@["SSH_PORT"@]
            ==> config.host.ssh_port == changed.host.ssh_port,
        env@.contains_key("WOL_PORT"@) == other@.contains_key("WOL_PORT"@) && env@["WOL_PORT"@] == other@["WOL_PORT"@]
            ==> config.host.wol_port == changed.host.wol_port,
        env@.contains_key("TUNNEL_LOCAL_PORT"@) == other@.contains_key("TUNNEL_LOCAL_PORT"@) && env@["TUNNEL_LOCAL_PORT"@] == other@["TUNNEL_LOCAL_PORT"@]
            ==> config.host.tunnel_local_port == changed.host.tunnel_local_port,
        env@.contains_key("LLAMA_SERVER_PORT"@) == other@.contains_key("LLAMA_SERVER_PORT"@) && env@["LLAMA_SERVER_PORT"@] == other@["LLAMA_SERVER_PORT"@]
            ==> config.host.remote_port == changed.host.remote_port,
        env@.contains_key("WARM_MAX_ACTIVE_REQUESTS"@) == other@.contains_key("WARM_MAX_ACTIVE_REQUESTS"@) && env@["WARM_MAX_ACTIVE_REQUESTS"@] == other@["WARM_MAX_ACTIVE_REQUESTS"@]
            ==> config.warm_execution.max_active_requests == changed.warm_execution.max_active_requests,
        env@.contains_key("WARM_MAX_QUEUED_REQUESTS"@) == other@.contains_key("WARM_MAX_QUEUED_REQUESTS"@) && env@["WARM_MAX_QUEUED_REQUESTS"@] == other@["WARM_MAX_QUEUED_REQUESTS"@]
            ==> config.warm_execution.max_queued_requests == changed.warm_execution.max_queued_requests,
        env@.contains_key("COLD_START_MAX_WAITING"@) == other@.contains_key("COLD_START_MAX_WAITING"@) && env@["COLD_START_MAX_WAITING"@] == other@["COLD_START_MAX_WAITING"@]
            ==> config.cold_start_max_waiting == changed.cold_start_max_waiting,
{
}

/// An environment without the host, its user, its address or its model is refused with the name of the
/// first of them that is missing; an address that cannot be read is refused as such.
pub proof fn missing_variable_is_named(env: &TextTable, message: String)
    requires
        call_ensures(AppConfig::from_env, (env,), Err(message)),
    ensures
        ({
            let unset = |name: Seq<char>| !env@.contains_key(name) || blank(env@[name]);
            if unset("SSH_HOST"@) {
                message@ == "SSH_HOST must be set"@
            } else if unset("SSH_USER"@) {
                message@ == "SSH_USER must be set"@
            } else if unset("WOL_MAC_ADDRESS"@) {
                message@ == "WOL_MAC_ADDRESS must be set"@
            } else if mac_bytes(env@["WOL_MAC_ADDRESS"@]) is None {
                message@ == "WOL_MAC_ADDRESS must be in XX:XX:XX:XX:XX:XX format"@
            } else {
                unset("MODEL_PATH"@) && message@ == "MODEL_PATH must be set"@
            }
        }),
{
}

/// A configuration is never refused that names all four.
pub proof fn complete_environment_is_taken(env: &TextTable, r: Result<AppConfig, String>)
    requires
        call_ensures(AppConfig::from_env, (env,), r),
        env@.contains_key("SSH_HOST"@) && !blank(env@["SSH_HOST"@]),
        env@.contains_key("SSH_USER"@) && !blank(env@["SSH_USER"@]),
        env@.contains_key("MODEL_PATH"@) && !blank(env@["MODEL_PATH"@]),
        env@.contains_key("WOL_MAC_ADDRESS"@) && !blank(env@["WOL_MAC_ADDRESS"@]),
        mac_bytes(env@["WOL_MAC_ADDRESS"@]) is Some,
    ensures
        r is Ok,
{
}

/// Six hexadecimal bytes with colons between them are read as these bytes, in their order; other texts
/// are no address.
pub proof fn mac_address_is_read(input: &str, r: Option<[u8; 6]>, parts: Seq<Seq<char>>)
    requires
        call_ensures(parse_mac, (input,), r),
        parts.len() > 0,
        forall|i: int| 0 <= i < parts.len() ==> !(#[trigger] parts[i]).contains(':'),
        input@ == joined(parts, ':'),
    ensures
        r is Some <==> parts.len() == 6 && forall|i: int|
            0 <= i < 6 ==> number(#[trigger] parts[i], 16, 255) is Some,
        r matches Some(mac) ==> forall|i: int|
            0 <= i < 6 ==> number(#[trigger] parts[i], 16, 255) == Some(mac@[i] as nat),
{
    joined_pieces(parts, ':');
    if r is Some {
        let mac = r->0@;
        assert forall|i: int| 0 <= i < 6 implies number(#[trigger] parts[i], 16, 255) == Some(
            mac[i] as nat,
        ) by {
            assert(number(parts[i], 16, 255) is Some);
            lemma_bytes_fit(parts[i]);
        }
    }
}

proof fn lemma_bytes_fit(text: Seq<char>)
    ensures
        number(text, 16, 255) matches Some(n) ==> n <= 255,
{
}

/// Without an environment two requests run at once, sixteen wait, and for half a minute.
pub proof fn default_limits(limits: WarmExecutionConfig)
    requires
        call_ensures(WarmExecutionConfig::default, (), limits),
    ensures
        limits.max_active_requests == 2,
        limits.max_queued_requests == 16,
        limits.queue_timeout == seconds(30),
{
}

} // verus!
