//! The state of the proxy.

use std::sync::Arc;

use tokio::sync::Semaphore;
use vstd::prelude::*;

use crate::config::{AppConfig, AppConfigView, WarmExecutionConfig};
use crate::helper::Target;
use crate::host::{
    HelperRpcView, SshHelperRpc, SshTcpProbe, SshTunnelManager, TunnelView, WolView,
    WolWakeRequester,
};
use crate::lifecycle::{
    timing_setting, unknown_backend, BackendStatus, LifecycleManager, LifecycleRequest,
    LifecycleState, LifecycleView, TunnelState,
};
use crate::metrics::{zero_metrics, Metrics};
use crate::scheduler::{max_permits, slots, WarmExecutionScheduler};
use crate::table::TextTable;
use crate::text::texts_view;

verus! {

/// The state of the proxy. Where embeddings have no model server of their own, they share the
/// lifecycle of chat.
pub struct AppState {
    pub config: AppConfig,
    pub chat_lifecycle: LifecycleManager,
    pub embeddings_lifecycle: Option<LifecycleManager>,
    pub scheduler: WarmExecutionScheduler,
    pub metrics: Metrics,
    pub prev_chat_tunnel_was_ready: bool,
    pub prev_embeddings_tunnel_was_ready: bool,
    pub cold_start_semaphore: Arc<Semaphore>,
}

/// What an `AppState` holds.
#[verifier::ext_equal]
pub struct AppStateView {
    pub config: AppConfigView,
    pub chat: LifecycleView,
    pub embeddings: Option<LifecycleView>,
    pub queued: usize,
    pub limits: WarmExecutionConfig,
    pub semaphore: Semaphore,
    pub metrics: Metrics,
    pub chat_tunnel_was_ready: bool,
    pub embeddings_tunnel_was_ready: bool,
    pub cold_start_semaphore: Semaphore,
}

impl View for AppState {
    type V = AppStateView;

    open spec fn view(&self) -> AppStateView {
        AppStateView {
            config: self.config@,
            chat: self.chat_lifecycle@,
            embeddings: match self.embeddings_lifecycle {
                Some(lifecycle) => Some(lifecycle@),
                None => None,
            },
            queued: self.scheduler.queue.queued,
            limits: self.scheduler.config,
            semaphore: *self.scheduler.semaphore,
            metrics: self.metrics,
            chat_tunnel_was_ready: self.prev_chat_tunnel_was_ready,
            embeddings_tunnel_was_ready: self.prev_embeddings_tunnel_was_ready,
            cold_start_semaphore: *self.cold_start_semaphore,
        }
    }
}

/// The lifecycle that serves a kind of request.
pub open spec fn lifecycle_of(state: AppStateView, kind: LifecycleRequest) -> LifecycleView {
    match (kind, state.embeddings) {
        (LifecycleRequest::Embeddings, Some(lifecycle)) => lifecycle,
        _ => state.chat,
    }
}

/// The state with the lifecycle that serves a kind of request replaced.
pub open spec fn with_lifecycle_of(
    state: AppStateView,
    kind: LifecycleRequest,
    lifecycle: LifecycleView,
) -> AppStateView {
    if kind is Embeddings && state.embeddings is Some {
        AppStateView { embeddings: Some(lifecycle), ..state }
    } else {
        AppStateView { chat: lifecycle, ..state }
    }
}

/// The name of the model that serves a kind of request.
pub open spec fn alias_of(config: AppConfigView, kind: LifecycleRequest) -> Seq<char> {
    match (kind, config.embeddings.backend) {
        (LifecycleRequest::Embeddings, Some(backend)) => backend.alias,
        _ => config.model.alias,
    }
}

/// The port of the tunnel to the model server for a kind of request.
pub open spec fn tunnel_port_of(config: AppConfigView, kind: LifecycleRequest) -> u16 {
    match (kind, config.embeddings.backend) {
        (LifecycleRequest::Embeddings, Some(backend)) => backend.tunnel_local_port,
        _ => config.host.tunnel_local_port,
    }
}

/// Whether the tunnel for a kind of request was ready when it was last seen.
pub open spec fn tunnel_was_ready(state: AppStateView, kind: LifecycleRequest) -> bool {
    match kind {
        LifecycleRequest::Chat => state.chat_tunnel_was_ready,
        LifecycleRequest::Embeddings => state.embeddings_tunnel_was_ready,
    }
}

/// The state after the tunnel for a kind of request was seen.
pub open spec fn tunnel_seen(
    state: AppStateView,
    kind: LifecycleRequest,
    tunnel: TunnelState,
) -> AppStateView {
    match kind {
        LifecycleRequest::Chat => AppStateView { chat_tunnel_was_ready: tunnel is Ready, ..state },
        LifecycleRequest::Embeddings => AppStateView {
            embeddings_tunnel_was_ready: tunnel is Ready,
            ..state
        },
    }
}

/// Whether the semaphores for this configuration can be made.
pub open spec fn limits_fit(config: AppConfigView) -> bool {
    &&& config.warm_execution.max_active_requests <= max_permits()
    &&& config.cold_start_max_waiting <= max_permits()
}

/// The lifecycle of a backend of which nothing is known.
pub open spec fn fresh_lifecycle(env: Map<Seq<char>, Seq<char>>) -> LifecycleView {
    LifecycleView {
        status: unknown_backend(),
        active: false,
        last_error: None,
        observe_request: LifecycleRequest::Chat,
        timing: timing_setting(env),
    }
}

/// Whether nothing has happened in a state: no request waits, nothing is counted, no tunnel was
/// seen, and there are as many slots and places as the configuration asks for.
pub open spec fn fresh(
    state: AppStateView,
    config: AppConfigView,
    chat: LifecycleView,
    embeddings: Option<LifecycleView>,
) -> bool {
    &&& state.config == config
    &&& state.chat == chat
    &&& state.embeddings == embeddings
    &&& state.queued == 0
    &&& state.limits == config.warm_execution
    &&& slots(state.semaphore) == config.warm_execution.max_active_requests
    &&& state.metrics == zero_metrics()
    &&& !state.chat_tunnel_was_ready
    &&& !state.embeddings_tunnel_was_ready
    &&& slots(state.cold_start_semaphore) == config.cold_start_max_waiting
}

/// How the outside world is reached: what the lifecycle of chat needs, and what that of embeddings
/// needs where it is one of its own.
#[derive(Debug)]
pub struct ProductionServices {
    pub wake: WolWakeRequester,
    pub ssh: SshTcpProbe,
    pub chat_helper: SshHelperRpc,
    pub chat_tunnel: SshTunnelManager,
    pub embeddings: Option<(SshHelperRpc, SshTunnelManager)>,
}

/// How the helper is asked for chat.
pub open spec fn chat_helper_of(config: AppConfigView) -> HelperRpcView {
    HelperRpcView {
        ssh_user: config.host.ssh_user,
        ssh_host: config.host.host,
        helper_path: config.host.helper_path,
        model_path: config.host.model_path,
        model_alias: config.model.alias,
        ssh_key_path: config.host.ssh_key_path,
        target: Target::Chat,
    }
}

/// The tunnel to the model server for chat.
pub open spec fn chat_tunnel_of(config: AppConfigView) -> TunnelView {
    TunnelView {
        ssh_user: config.host.ssh_user,
        ssh_host: config.host.host,
        local_port: config.host.tunnel_local_port,
        remote_port: config.host.remote_port,
        ssh_key_path: config.host.ssh_key_path,
    }
}

/// How the helper is asked for embeddings, and the tunnel to their model server, where it is one of
/// its own.
pub open spec fn embeddings_services_of(config: AppConfigView) -> Option<
    (HelperRpcView, TunnelView),
> {
    match config.embeddings.backend {
        Some(backend) => Some(
            (
                HelperRpcView {
                    model_path: backend.model_path,
                    model_alias: backend.alias,
                    target: Target::Embeddings,
                    ..chat_helper_of(config)
                },
                TunnelView {
                    local_port: backend.tunnel_local_port,
                    remote_port: backend.remote_port,
                    ..chat_tunnel_of(config)
                },
            ),
        ),
        None => None,
    }
}

impl ProductionServices {
    /// How the outside world is reached in this configuration.
    pub fn new(config: &AppConfig) -> (r: ProductionServices)
        ensures
            r.wake@ == (WolView {
                mac: config@.host.wol_mac,
                broadcast: config@.host.wol_broadcast,
                port: config@.host.wol_port,
            }),
            r.ssh.host@ == config@.host.host,
            r.ssh.port == config@.host.ssh_port,
            r.chat_helper@ == chat_helper_of(config@),
            r.chat_tunnel@ == chat_tunnel_of(config@),
            match r.embeddings {
                Some((helper, tunnel)) => embeddings_services_of(config@) == Some(
                    (helper@, tunnel@),
                ),
                None => embeddings_services_of(config@) is None,
            },
    {
        let wake = WolWakeRequester::new(
            config.host.wol_mac,
            config.host.wol_broadcast.clone(),
            config.host.wol_port,
        );
        let ssh = SshTcpProbe::new(config.host.host.clone(), config.host.ssh_port);
        let chat_helper = SshHelperRpc::new(
            config.host.ssh_user.clone(),
            config.host.host.clone(),
            config.host.helper_path.clone(),
            config.host.model_path.clone(),
            config.model.alias.clone(),
            config.host.ssh_key_path.clone(),
            Target::Chat,
        );
        let chat_tunnel = SshTunnelManager::new(
            config.host.ssh_user.clone(),
            config.host.host.clone(),
            config.host.tunnel_local_port,
            config.host.remote_port,
            config.host.ssh_key_path.clone(),
        );
        let embeddings = match &config.embeddings.backend {
            Some(backend) => {
                let helper = SshHelperRpc::new(
                    config.host.ssh_user.clone(),
                    config.host.host.clone(),
                    config.host.helper_path.clone(),
                    backend.model_path.clone(),
                    backend.alias.clone(),
                    config.host.ssh_key_path.clone(),
                    Target::Embeddings,
                );
                let tunnel = SshTunnelManager::new(
                    config.host.ssh_user.clone(),
                    config.host.host.clone(),
                    backend.tunnel_local_port,
                    backend.remote_port,
                    config.host.ssh_key_path.clone(),
                );
                Some((helper, tunnel))
            },
            None => None,
        };
        ProductionServices { wake, ssh, chat_helper, chat_tunnel, embeddings }
    }
}

impl AppState {
    /// A state with one lifecycle for both kinds of request.
    pub fn new(config: AppConfig, env: &TextTable) -> (r: AppState)
        requires
            limits_fit(config@),
        ensures
            fresh(r@, config@, fresh_lifecycle(env@), None),
    {
        let lifecycle = LifecycleManager::new(BackendStatus::default(), env);
        AppState::with_lifecycle(config, lifecycle)
    }

    /// A state with a lifecycle of their own for embeddings if they have a model server of their
    /// own.
    pub fn production(config: AppConfig, env: &TextTable) -> (r: AppState)
        requires
            limits_fit(config@),
        ensures
            fresh(
                r@,
                config@,
                fresh_lifecycle(env@),
                if config@.embeddings.backend is Some {
                    Some(fresh_lifecycle(env@))
                } else {
                    None
                },
            ),
    {
        let chat_lifecycle = LifecycleManager::new(BackendStatus::default(), env);
        if config.embeddings.backend.is_some() {
            let embeddings_lifecycle = LifecycleManager::new(BackendStatus::default(), env);
            AppState::with_dual_lifecycles(config, chat_lifecycle, embeddings_lifecycle)
        } else {
            AppState::with_lifecycle(config, chat_lifecycle)
        }
    }

    pub fn with_lifecycle(config: AppConfig, lifecycle: LifecycleManager) -> (r: AppState)
        requires
            limits_fit(config@),
        ensures
            fresh(r@, config@, lifecycle@, None),
    {
        let scheduler = WarmExecutionScheduler::new(config.warm_execution);
        AppState::with_services(config, lifecycle, scheduler)
    }

    pub fn with_dual_lifecycles(
        config: AppConfig,
        chat_lifecycle: LifecycleManager,
        embeddings_lifecycle: LifecycleManager,
    ) -> (r: AppState)
        requires
            limits_fit(config@),
        ensures
            fresh(r@, config@, chat_lifecycle@, Some(embeddings_lifecycle@)),
    {
        let scheduler = WarmExecutionScheduler::new(config.warm_execution);
        let mut state = AppState::with_services(config, chat_lifecycle, scheduler);
        state.embeddings_lifecycle = Some(embeddings_lifecycle);
        state
    }

    pub fn with_services(
        config: AppConfig,
        lifecycle: LifecycleManager,
        scheduler: WarmExecutionScheduler,
    ) -> (r: AppState)
        requires
            config.cold_start_max_waiting <= max_permits(),
        ensures
            r@ == (AppStateView {
                config: config@,
                chat: lifecycle@,
                embeddings: None,
                queued: scheduler.queue.queued,
                limits: scheduler.config,
                semaphore: *scheduler.semaphore,
                metrics: zero_metrics(),
                chat_tunnel_was_ready: false,
                embeddings_tunnel_was_ready: false,
                cold_start_semaphore: r@.cold_start_semaphore,
            }),
            slots(r@.cold_start_semaphore) == config.cold_start_max_waiting,
    {
        let cold_start_max: usize = config.cold_start_max_waiting;
        AppState {
            config,
            chat_lifecycle: lifecycle,
            embeddings_lifecycle: None,
            scheduler,
            metrics: Metrics::default(),
            prev_chat_tunnel_was_ready: false,
            prev_embeddings_tunnel_was_ready: false,
            cold_start_semaphore: Arc::new(Semaphore::new(cold_start_max)),
        }
    }

    /// The lifecycle that serves a kind of request.
    pub fn lifecycle_for(&self, kind: LifecycleRequest) -> (r: &LifecycleManager)
        ensures
            r@ == lifecycle_of(self@, kind),
    {
        match kind {
            LifecycleRequest::Chat => &self.chat_lifecycle,
            LifecycleRequest::Embeddings => match &self.embeddings_lifecycle {
                Some(lifecycle) => lifecycle,
                None => &self.chat_lifecycle,
            },
        }
    }

    /// The lifecycle that serves a kind of request, to be changed.
    pub fn lifecycle_for_mut(&mut self, kind: LifecycleRequest) -> (r: &mut LifecycleManager)
        ensures
            r@ == lifecycle_of(old(self)@, kind),
            final(self)@ == with_lifecycle_of(old(self)@, kind, final(r)@),
    {
        match kind {
            LifecycleRequest::Chat => &mut self.chat_lifecycle,
            LifecycleRequest::Embeddings => match &mut self.embeddings_lifecycle {
                Some(lifecycle) => lifecycle,
                None => &mut self.chat_lifecycle,
            },
        }
    }

    /// The name of the model that serves a kind of request.
    pub fn model_alias_for(&self, kind: LifecycleRequest) -> (r: &str)
        ensures
            r@ == alias_of(self@.config, kind),
    {
        match kind {
            LifecycleRequest::Chat => self.config.model.alias.as_str(),
            LifecycleRequest::Embeddings => match &self.config.embeddings.backend {
                Some(backend) => backend.alias.as_str(),
                None => self.config.model.alias.as_str(),
            },
        }
    }

    /// The port of the tunnel to the model server for a kind of request.
    pub fn tunnel_port_for(&self, kind: LifecycleRequest) -> (r: u16)
        ensures
            r == tunnel_port_of(self@.config, kind),
    {
        match kind {
            LifecycleRequest::Chat => self.config.host.tunnel_local_port,
            LifecycleRequest::Embeddings => match &self.config.embeddings.backend {
                Some(backend) => backend.tunnel_local_port,
                None => self.config.host.tunnel_local_port,
            },
        }
    }

    /// Whether the backend for a kind of request is asleep, as far as is known.
    pub fn is_cold(&self, kind: LifecycleRequest) -> (r: bool)
        ensures
            r == lifecycle_of(self@, kind).status.lifecycle is Cold,
    {
        matches!(self.lifecycle_for(kind).status.lifecycle, LifecycleState::Cold)
    }

    /// Notes the state of the tunnel for a kind of request, and tells whether it has gone down since
    /// it was last seen.
    pub fn check_tunnel_drop(&mut self, kind: LifecycleRequest, current_tunnel: TunnelState) -> (r:
        bool)
        ensures
            r == (tunnel_was_ready(old(self)@, kind) && !(current_tunnel is Ready)),
            final(self)@ == tunnel_seen(old(self)@, kind, current_tunnel),
    {
        let ready = matches!(current_tunnel, TunnelState::Ready);
        let was_ready = match kind {
            LifecycleRequest::Chat => {
                let was_ready = self.prev_chat_tunnel_was_ready;
                self.prev_chat_tunnel_was_ready = ready;
                was_ready
            },
            LifecycleRequest::Embeddings => {
                let was_ready = self.prev_embeddings_tunnel_was_ready;
                self.prev_embeddings_tunnel_was_ready = ready;
                was_ready
            },
        };
        was_ready && !ready
    }
}

/// Embeddings without a model server of their own are served as chat is: by the same lifecycle,
/// through the same tunnel, under the same name.
pub proof fn shared_backend(state: AppStateView)
    requires
        state.embeddings is None,
        state.config.embeddings.backend is None,
    ensures
        lifecycle_of(state, LifecycleRequest::Embeddings) == lifecycle_of(
            state,
            LifecycleRequest::Chat,
        ),
        tunnel_port_of(state.config, LifecycleRequest::Embeddings) == tunnel_port_of(
            state.config,
            LifecycleRequest::Chat,
        ),
        alias_of(state.config, LifecycleRequest::Embeddings) == alias_of(
            state.config,
            LifecycleRequest::Chat,
        ),
        embeddings_services_of(state.config) is None,
{
}

/// Two lifecycles are independent: what happens to one leaves the other alone.
pub proof fn lifecycles_are_independent(
    state: AppStateView,
    kind: LifecycleRequest,
    other: LifecycleRequest,
    lifecycle: LifecycleView,
)
    requires
        state.embeddings is Some,
        kind != other,
    ensures
        lifecycle_of(with_lifecycle_of(state, kind, lifecycle), kind) == lifecycle,
        lifecycle_of(with_lifecycle_of(state, kind, lifecycle), other) == lifecycle_of(
            state,
            other,
        ),
{
}

/// A tunnel that has gone down is noticed once, whatever was seen of the other tunnel in between.
pub proof fn tunnel_drop_is_noticed_once(
    state: AppStateView,
    kind: LifecycleRequest,
    other: LifecycleRequest,
    down: TunnelState,
    elsewhere: TunnelState,
)
    requires
        kind != other,
        !(down is Ready),
    ensures
        ({
            let up = tunnel_seen(state, kind, TunnelState::Ready);
            let between = tunnel_seen(up, other, elsewhere);
            &&& tunnel_was_ready(between, kind)
            &&& !tunnel_was_ready(tunnel_seen(between, kind, down), kind)
            &&& tunnel_was_ready(tunnel_seen(between, kind, down), other) == elsewhere is Ready
        }),
{
}

/// Requests go where they are expected: through the tunnel that is opened for their kind, to the
/// model that the helper is asked to start for it.
pub proof fn requests_reach_their_server(config: AppConfigView)
    ensures
        tunnel_port_of(config, LifecycleRequest::Chat) == chat_tunnel_of(config).local_port,
        alias_of(config, LifecycleRequest::Chat) == chat_helper_of(config).model_alias,
        chat_helper_of(config).target is Chat,
        embeddings_services_of(config) matches Some((helper, tunnel)) ==> {
            &&& tunnel_port_of(config, LifecycleRequest::Embeddings) == tunnel.local_port
            &&& alias_of(config, LifecycleRequest::Embeddings) == helper.model_alias
            &&& helper.target is Embeddings
        },
{
}

/// Everything is reached as the configuration says: the host is woken by its address, probed at its
/// SSH port, and logged in to as its user with its key, by the helper calls and by the tunnels alike.
/// The calls run its helper for its model, and the tunnels join its ports.
pub proof fn host_is_reached_as_configured(config: &AppConfig, services: ProductionServices)
    requires
        call_ensures(ProductionServices::new, (config,), services),
    ensures
        services.wake.mac@ == config.host.wol_mac@,
        services.wake.broadcast@ == config.host.wol_broadcast@,
        services.wake.port == config.host.wol_port,
        services.ssh.host@ == config.host.host@,
        services.ssh.port == config.host.ssh_port,
        services.chat_helper.ssh_user@ == config.host.ssh_user@,
        services.chat_helper.ssh_host@ == config.host.host@,
        services.chat_helper.ssh_key_path@ == config.host.ssh_key_path@,
        services.chat_helper.helper_path@ == config.host.helper_path@,
        services.chat_helper.model_path@ == config.host.model_path@,
        services.chat_helper.model_alias@ == config.model.alias@,
        services.chat_helper.target is Chat,
        services.chat_tunnel.ssh_user@ == config.host.ssh_user@,
        services.chat_tunnel.ssh_host@ == config.host.host@,
        services.chat_tunnel.ssh_key_path@ == config.host.ssh_key_path@,
        services.chat_tunnel.local_port == config.host.tunnel_local_port,
        services.chat_tunnel.remote_port == config.host.remote_port,
        services.embeddings is Some <==> config.embeddings.backend is Some,
        config.embeddings.backend matches Some(backend) ==> {
            let (helper, tunnel) = services.embeddings->0;
            &&& helper.ssh_user@ == config.host.ssh_user@
            &&& helper.ssh_host@ == config.host.host@
            &&& helper.ssh_key_path@ == config.host.ssh_key_path@
            &&& helper.helper_path@ == config.host.helper_path@
            &&& helper.model_path@ == backend.model_path@
            &&& helper.model_alias@ == backend.alias@
            &&& helper.target is Embeddings
            &&& tunnel.ssh_user@ == config.host.ssh_user@
            &&& tunnel.ssh_host@ == config.host.host@
            &&& tunnel.ssh_key_path@ == config.host.ssh_key_path@
            &&& tunnel.local_port == backend.tunnel_local_port
            &&& tunnel.remote_port == backend.remote_port
        },
{
}

/// The same, from the environment to the command line: every tunnel is opened as the user and at the
/// host that the environment names.
pub proof fn tunnels_go_to_the_host_of_the_environment(
    env: &TextTable,
    config: AppConfig,
    services: ProductionServices,
    args: Vec<String>,
)
    requires
        call_ensures(AppConfig::from_env, (env,), Ok(config)),
        call_ensures(ProductionServices::new, (&config,), services),
        call_ensures(SshTunnelManager::tunnel_args, (&services.chat_tunnel,), args),
    ensures
        args@.len() > 0,
        args@.last()@ == env@["SSH_USER"@] + "@"@ + env@["SSH_HOST"@],
{
    assert(texts_view(args@).last() == args@.last()@);
}

/// Chat goes through its tunnel and under its name. Embeddings go through theirs and under theirs
/// where they have a model server of their own, and as chat does otherwise.
pub proof fn kinds_have_their_servers(
    state: &AppState,
    kind: LifecycleRequest,
    alias: &str,
    port: u16,
)
    requires
        call_ensures(AppState::model_alias_for, (state, kind), alias),
        call_ensures(AppState::tunnel_port_for, (state, kind), port),
    ensures
        match (kind, state.config.embeddings.backend) {
            (LifecycleRequest::Embeddings, Some(backend)) => alias@ == backend.alias@ && port
                == backend.tunnel_local_port,
            _ => alias@ == state.config.model.alias@ && port == state.config.host.tunnel_local_port,
        },
{
}

/// Chat has its lifecycle, and embeddings have theirs where there is one and that of chat otherwise;
/// a backend is asleep exactly if its own lifecycle says so.
pub proof fn kinds_have_their_lifecycles(
    state: &AppState,
    kind: LifecycleRequest,
    lifecycle: &LifecycleManager,
    cold: bool,
)
    requires
        call_ensures(AppState::lifecycle_for, (state, kind), lifecycle),
        call_ensures(AppState::is_cold, (state, kind), cold),
    ensures
        match (kind, state.embeddings_lifecycle) {
            (LifecycleRequest::Embeddings, Some(own)) => lifecycle@ == own@ && (cold
                <==> own.status.lifecycle is Cold),
            _ => lifecycle@ == state.chat_lifecycle@ && (cold
                <==> state.chat_lifecycle.status.lifecycle is Cold),
        },
{
}

/// A tunnel has gone down exactly if it was ready when it was last seen for that kind of request and
/// is not now; nothing else is noted, and nothing of the other kind.
pub proof fn tunnel_drop_is_seen(
    state: &mut AppState,
    kind: LifecycleRequest,
    tunnel: TunnelState,
    dropped: bool,
)
    requires
        call_ensures(AppState::check_tunnel_drop, (state, kind, tunnel), dropped),
    ensures
        match kind {
            LifecycleRequest::Chat => {
                &&& dropped <==> old(state).prev_chat_tunnel_was_ready && !(tunnel is Ready)
                &&& final(state).prev_chat_tunnel_was_ready <==> tunnel is Ready
                &&& final(state).prev_embeddings_tunnel_was_ready
                    == old(state).prev_embeddings_tunnel_was_ready
            },
            LifecycleRequest::Embeddings => {
                &&& dropped <==> old(state).prev_embeddings_tunnel_was_ready && !(tunnel is Ready)
                &&& final(state).prev_embeddings_tunnel_was_ready <==> tunnel is Ready
                &&& final(state).prev_chat_tunnel_was_ready
                    == old(state).prev_chat_tunnel_was_ready
            },
        },
        final(state).chat_lifecycle@ == old(state).chat_lifecycle@,
        final(state).metrics == old(state).metrics,
        final(state).config@ == old(state).config@,
        final(state).scheduler.queue.queued == old(state).scheduler.queue.queued,
{
}

/// Whether a lifecycle is that of a backend of which nothing is known, timed as the environment says.
pub open spec fn untouched(lifecycle: LifecycleManager, env: Map<Seq<char>, Seq<char>>) -> bool {
    &&& lifecycle.status.lifecycle is Cold
    &&& lifecycle.status.tunnel is Down
    &&& lifecycle.status.chat is Ready
    &&& lifecycle.status.embeddings is Ready
    &&& lifecycle.status.embeddings_reason is None
    &&& lifecycle.status.last_wake_attempt_at is None
    &&& lifecycle.status.lease_expires_at is None
    &&& !lifecycle.bootstrap.active
    &&& lifecycle.bootstrap.last_error is None
    &&& lifecycle.timing == timing_setting(env)
}

/// Whether nothing has happened in a state, and its limits are those of the configuration.
pub open spec fn unused(state: AppState, config: AppConfig) -> bool {
    &&& state.config@ == config@
    &&& state.scheduler.queue.queued == 0
    &&& state.scheduler.config == config.warm_execution
    &&& slots(*state.scheduler.semaphore) == config.warm_execution.max_active_requests
    &&& slots(*state.cold_start_semaphore) == config.cold_start_max_waiting
    &&& state.metrics.cold_starts == 0 && state.metrics.warm_requests == 0
    &&& state.metrics.queue_full_rejections == 0 && state.metrics.queue_timeouts == 0
    &&& state.metrics.wake_attempts == 0 && state.metrics.wake_failures == 0
    &&& state.metrics.tunnel_drops == 0 && state.metrics.embeddings_degraded == 0
    &&& state.metrics.forwarding_errors == 0 && state.metrics.chat_requests == 0
    &&& state.metrics.embeddings_requests == 0
    &&& !state.prev_chat_tunnel_was_ready
    &&& !state.prev_embeddings_tunnel_was_ready
}

/// The proxy starts with a backend of which nothing is known, and with another one for embeddings
/// exactly if they have a model server of their own. Nothing waits, nothing is counted, and there are
/// as many slots and places as configured.
pub proof fn proxy_starts_knowing_nothing(config: AppConfig, env: &TextTable, state: AppState)
    requires
        call_ensures(AppState::production, (config, env), state),
    ensures
        unused(state, config),
        untouched(state.chat_lifecycle, env@),
        state.embeddings_lifecycle is Some <==> config.embeddings.backend is Some,
        state.embeddings_lifecycle matches Some(lifecycle) ==> untouched(lifecycle, env@),
{
}

/// A state with one lifecycle, or with the lifecycles that it is given, starts unused as well.
pub proof fn other_states_start_unused(
    config: AppConfig,
    env: &TextTable,
    chat: LifecycleManager,
    embeddings: LifecycleManager,
    shared: AppState,
    given: AppState,
    dual: AppState,
)
    requires
        call_ensures(AppState::new, (config, env), shared),
        call_ensures(AppState::with_lifecycle, (config, chat), given),
        call_ensures(AppState::with_dual_lifecycles, (config, chat, embeddings), dual),
    ensures
        unused(shared, config),
        untouched(shared.chat_lifecycle, env@),
        shared.embeddings_lifecycle is None,
        unused(given, config),
        given.chat_lifecycle@ == chat@,
        given.embeddings_lifecycle is None,
        unused(dual, config),
        dual.chat_lifecycle@ == chat@,
        dual.embeddings_lifecycle matches Some(own) && own@ == embeddings@,
{
}

/// A scheduler that is handed in is used as it is.
pub proof fn given_scheduler_is_used(
    config: AppConfig,
    lifecycle: LifecycleManager,
    scheduler: WarmExecutionScheduler,
    state: AppState,
)
    requires
        call_ensures(AppState::with_services, (config, lifecycle, scheduler), state),
    ensures
        state.config@ == config@,
        state.chat_lifecycle@ == lifecycle@,
        state.embeddings_lifecycle is None,
        state.scheduler.queue.queued == scheduler.queue.queued,
        state.scheduler.config == scheduler.config,
        *state.scheduler.semaphore == *scheduler.semaphore,
        slots(*state.cold_start_semaphore) == config.cold_start_max_waiting,
        state.metrics.chat_requests == 0 && state.metrics.embeddings_requests == 0,
        !state.prev_chat_tunnel_was_ready && !state.prev_embeddings_tunnel_was_ready,
{
}

/// A lifecycle that is replaced is the one that serves that kind of request; everything else in the
/// state stays.
pub proof fn replaced_lifecycle_is_its_own(
    state: AppStateView,
    kind: LifecycleRequest,
    lifecycle: LifecycleView,
)
    ensures
        ({
            let after = with_lifecycle_of(state, kind, lifecycle);
            let own = kind is Embeddings && state.embeddings is Some;
            &&& own ==> after.embeddings == Some(lifecycle) && after.chat == state.chat
            &&& !own ==> after.chat == lifecycle && after.embeddings == state.embeddings
            &&& after == (AppStateView {
                chat: after.chat,
                embeddings: after.embeddings,
                ..state
            })
        }),
{
}

} // verus!
