//! The host of the model server: waking it, reaching its helper over SSH, and the tunnel to it.

use vstd::prelude::*;

use crate::helper::{
    same_model, start_outcome, target_name, unit_view, EnsureStartedResponse, EnsureStartedView, HelperStatus,
    StatusResponse, StatusView, Target, UnitInfo, UnitInfoView,
};
use crate::lifecycle::{
    CapabilityState, LifecycleError, LifecycleState, ObservedBackendState, ObservedView,
    TunnelState, UnitState,
};
use crate::numeral::{decimal, decimal_text};
use crate::systemd::CommandOutput;
use crate::text;
use crate::text::{owned, texts_view, utf8_error, utf8_lossy};

verus! {

/// How a host is woken: its MAC address, and where the packet is sent.
#[derive(Debug)]
pub struct WolWakeRequester {
    pub mac: [u8; 6],
    pub broadcast: String,
    pub port: u16,
}

/// What a `WolWakeRequester` says.
#[verifier::ext_equal]
pub struct WolView {
    pub mac: Seq<u8>,
    pub broadcast: Seq<char>,
    pub port: u16,
}

impl View for WolWakeRequester {
    type V = WolView;

    open spec fn view(&self) -> WolView {
        WolView { mac: self.mac@, broadcast: self.broadcast@, port: self.port }
    }
}

/// `n` copies of a MAC address.
pub open spec fn mac_copies(mac: Seq<u8>, n: nat) -> Seq<u8>
    decreases n,
{
    if n == 0 {
        Seq::empty()
    } else {
        mac_copies(mac, (n - 1) as nat) + mac
    }
}

/// The packet that wakes a host: six bytes of ones, and its MAC address sixteen times.
pub open spec fn wake_packet(mac: Seq<u8>) -> Seq<u8> {
    seq![0xFFu8, 0xFFu8, 0xFFu8, 0xFFu8, 0xFFu8, 0xFFu8] + mac_copies(mac, 16)
}

/// A host and a port.
pub open spec fn socket_address(host: Seq<char>, port: u16) -> Seq<char> {
    host + ":"@ + decimal(port as nat)
}

fn address_text(host: &String, port: u16) -> (r: String)
    ensures
        r@ == socket_address(host@, port),
{
    host.clone().concat(":").concat(decimal_text(port as u64).as_str())
}

/// The steps of sending a wake packet.
#[derive(Clone, Copy, Debug, PartialEq, Eq, Structural)]
pub enum WakeStage {
    Bind,
    Broadcast,
    Send,
}

/// The error of a wake packet that could not be sent.
pub open spec fn wake_error_message(stage: WakeStage, error: Seq<char>) -> Seq<char> {
    match stage {
        WakeStage::Bind => "WOL bind failed: "@ + error,
        WakeStage::Broadcast => "WOL broadcast failed: "@ + error,
        WakeStage::Send => "WOL send failed: "@ + error,
    }
}

/// The error of a wake packet that could not be sent.
pub fn wake_error(stage: WakeStage, error: &str) -> (r: LifecycleError)
    ensures
        r@ == wake_error_message(stage, error@),
{
    let message = match stage {
        WakeStage::Bind => "WOL bind failed: ".to_string(),
        WakeStage::Broadcast => "WOL broadcast failed: ".to_string(),
        WakeStage::Send => "WOL send failed: ".to_string(),
    };
    LifecycleError { message: message.concat(error) }
}

impl WolWakeRequester {
    pub fn new(mac: [u8; 6], broadcast: String, port: u16) -> (r: WolWakeRequester)
        ensures
            r@ == (WolView { mac: mac@, broadcast: broadcast@, port }),
    {
        WolWakeRequester { mac, broadcast, port }
    }

    /// The packet that wakes the host.
    pub fn magic_packet(&self) -> (r: Vec<u8>)
        ensures
            r@ == wake_packet(self@.mac),
    {
        let mut packet: Vec<u8> = vec![0xFF, 0xFF, 0xFF, 0xFF, 0xFF, 0xFF];
        let ghost head = packet@;
        assert(head =~= seq![0xFFu8, 0xFFu8, 0xFFu8, 0xFFu8, 0xFFu8, 0xFFu8]);
        assert(head + mac_copies(self.mac@, 0) =~= head);
        let mut n: usize = 0;
        while n < 16
            invariant
                n <= 16,
                packet@ == head + mac_copies(self.mac@, n as nat),
            decreases 16 - n,
        {
            let ghost before = packet@;
            let mut i: usize = 0;
            while i < 6
                invariant
                    i <= 6,
                    self.mac@.len() == 6,
                    packet@ == before + self.mac@.take(i as int),
                decreases 6 - i,
            {
                packet.push(self.mac[i]);
                i += 1;
                assert(self.mac@.take(i as int) =~= self.mac@.take(i - 1).push(self.mac@[i - 1]));
            }
            assert(self.mac@.take(6) =~= self.mac@);
            n += 1;
            assert(packet@ =~= head + mac_copies(self.mac@, n as nat));
        }
        packet
    }

    /// Where the packet is sent.
    pub fn address(&self) -> (r: String)
        ensures
            r@ == socket_address(self@.broadcast, self.port),
    {
        address_text(&self.broadcast, self.port)
    }
}

/// How it is found out whether a host can be reached: by a connection to its SSH port.
#[derive(Debug)]
pub struct SshTcpProbe {
    pub host: String,
    pub port: u16,
}

impl SshTcpProbe {
    pub fn new(host: String, port: u16) -> (r: SshTcpProbe)
        ensures
            r.host == host,
            r.port == port,
    {
        SshTcpProbe { host, port }
    }

    /// Where to connect to.
    pub fn address(&self) -> (r: String)
        ensures
            r@ == socket_address(self.host@, self.port),
    {
        address_text(&self.host, self.port)
    }
}

/// How the helper is reached, and what it is told to provide.
#[derive(Debug)]
pub struct SshHelperRpc {
    pub ssh_user: String,
    pub ssh_host: String,
    pub helper_path: String,
    pub model_path: String,
    pub model_alias: String,
    pub ssh_key_path: String,
    pub target: Target,
}

/// What a `SshHelperRpc` says.
#[verifier::ext_equal]
pub struct HelperRpcView {
    pub ssh_user: Seq<char>,
    pub ssh_host: Seq<char>,
    pub helper_path: Seq<char>,
    pub model_path: Seq<char>,
    pub model_alias: Seq<char>,
    pub ssh_key_path: Seq<char>,
    pub target: Target,
}

impl View for SshHelperRpc {
    type V = HelperRpcView;

    open spec fn view(&self) -> HelperRpcView {
        HelperRpcView {
            ssh_user: self.ssh_user@,
            ssh_host: self.ssh_host@,
            helper_path: self.helper_path@,
            model_path: self.model_path@,
            model_alias: self.model_alias@,
            ssh_key_path: self.ssh_key_path@,
            target: self.target,
        }
    }
}

/// The login of a user at a host.
pub open spec fn login(user: Seq<char>, host: Seq<char>) -> Seq<char> {
    user + "@"@ + host
}

/// The arguments of `ssh` that run a command at the host.
pub open spec fn remote_command(rpc: HelperRpcView, command: Seq<Seq<char>>) -> Seq<Seq<char>> {
    seq![
        "-o"@,
        "ConnectTimeout=10"@,
        "-o"@,
        "BatchMode=yes"@,
        "-o"@,
        "StrictHostKeyChecking=accept-new"@,
        "-i"@,
        rpc.ssh_key_path,
        login(rpc.ssh_user, rpc.ssh_host),
    ] + command
}

/// The command that starts the model server.
pub open spec fn start_command(rpc: HelperRpcView) -> Seq<Seq<char>> {
    seq![
        "env"@,
        "EXPECTED_MODEL_PATH="@ + rpc.model_path,
        rpc.helper_path,
        "ensure-started"@,
        target_name(rpc.target),
        rpc.model_alias,
    ]
}

/// The command that asks for the state of the host.
pub open spec fn status_command(rpc: HelperRpcView) -> Seq<Seq<char>> {
    seq![rpc.helper_path, "status"@]
}

/// What the helper printed, or why there is nothing.
pub open spec fn helper_said(ran: Result<CommandOutput, String>) -> Result<Seq<char>, Seq<char>> {
    match ran {
        Err(error) => Err("ssh failed: "@ + error@),
        Ok(output) => if !output.success {
            Err("helper command failed: "@ + utf8_lossy(output.stderr@))
        } else if vstd::utf8::valid_utf8(output.stdout@) {
            Ok(vstd::utf8::decode_utf8(output.stdout@))
        } else {
            Err("invalid UTF-8 from helper: "@ + utf8_error(output.stdout@))
        },
    }
}

/// The state of a unit, by the name that systemd has for it.
pub open spec fn unit_state_named(name: Option<Seq<char>>) -> UnitState {
    match name {
        Some(name) => if name == "active"@ {
            UnitState::Active
        } else if name == "activating"@ || name == "reloading"@ {
            UnitState::Activating
        } else if name == "inactive"@ {
            UnitState::Inactive
        } else if name == "failed"@ || name == "error"@ {
            UnitState::Failed
        } else {
            UnitState::Unknown
        },
        None => UnitState::Unknown,
    }
}

/// The state of a unit, by the name that systemd has for it.
pub fn map_unit_state(active_state: Option<&str>) -> (r: UnitState)
    ensures
        r == unit_state_named(
            match active_state {
                Some(name) => Some(name@),
                None => None,
            },
        ),
{
    match active_state {
        Some(name) => if text::same(name, "active") {
            UnitState::Active
        } else if text::same(name, "activating") || text::same(name, "reloading") {
            UnitState::Activating
        } else if text::same(name, "inactive") {
            UnitState::Inactive
        } else if text::same(name, "failed") || text::same(name, "error") {
            UnitState::Failed
        } else {
            UnitState::Unknown
        },
        None => UnitState::Unknown,
    }
}

/// The state of an optional unit.
pub open spec fn reported_unit(unit: Option<UnitInfoView>) -> UnitState {
    unit_state_named(
        match unit {
            Some(u) => Some(u.active_state),
            None => None,
        },
    )
}

fn unit_state_of(unit: &Option<UnitInfo>) -> (r: UnitState)
    ensures
        r == reported_unit(unit_view(*unit)),
{
    match unit {
        Some(u) => map_unit_state(Some(u.active_state.as_str())),
        None => map_unit_state(None),
    }
}

/// What the answer to `ensure-started` says of the backend. It is ready only with the right model.
pub open spec fn start_report(response: EnsureStartedView) -> ObservedView {
    ObservedView {
        lifecycle: if !(response.status is Okay) {
            LifecycleState::Error
        } else if response.model_verified {
            LifecycleState::Ready
        } else {
            LifecycleState::Warming
        },
        chat: CapabilityState::Ready,
        embeddings: CapabilityState::Ready,
        embeddings_reason: None,
        error: if response.status is Okay {
            None
        } else {
            Some(response.message)
        },
        llama_server_unit: reported_unit(response.llama_server),
        inhibit_unit: UnitState::Unknown,
    }
}

/// What the answer to `status` says of the backend.
pub open spec fn status_report(response: StatusView) -> ObservedView {
    ObservedView {
        lifecycle: if response.status is Error {
            LifecycleState::Error
        } else if reported_unit(response.llama_server) is Active {
            LifecycleState::Ready
        } else {
            LifecycleState::Warming
        },
        chat: CapabilityState::Ready,
        embeddings: CapabilityState::Ready,
        embeddings_reason: None,
        error: None,
        llama_server_unit: reported_unit(response.llama_server),
        inhibit_unit: reported_unit(response.inhibit_holder),
    }
}

/// A report, or an error.
pub open spec fn report_view(report: Result<ObservedBackendState, LifecycleError>) -> Result<
    ObservedView,
    Seq<char>,
> {
    match report {
        Ok(state) => Ok(state@),
        Err(error) => Err(error@),
    }
}

/// What the parsed answer to `ensure-started` says of the backend, or the error of parsing it.
pub fn ensure_started_report(parsed: Result<EnsureStartedResponse, String>) -> (r: Result<
    ObservedBackendState,
    LifecycleError,
>)
    ensures
        report_view(r) == match parsed {
            Ok(response) => Ok::<ObservedView, Seq<char>>(start_report(response@)),
            Err(error) => Err("failed to parse ensure-started response: "@ + error@),
        },
{
    let response = match parsed {
        Ok(response) => response,
        Err(error) => {
            return Err(
                LifecycleError {
                    message: "failed to parse ensure-started response: ".to_string().concat(
                        error.as_str(),
                    ),
                },
            );
        },
    };
    let llama_server_unit = unit_state_of(&response.llama_server);
    let (lifecycle, error) = match response.status {
        HelperStatus::Okay => if response.model_verified {
            (LifecycleState::Ready, None)
        } else {
            (LifecycleState::Warming, None)
        },
        _ => (LifecycleState::Error, Some(response.message)),
    };
    Ok(
        ObservedBackendState {
            lifecycle,
            chat: CapabilityState::Ready,
            embeddings: CapabilityState::Ready,
            embeddings_reason: None,
            error,
            llama_server_unit,
            inhibit_unit: UnitState::Unknown,
        },
    )
}

/// What the parsed answer to `status` says of the backend, or the error of parsing it.
pub fn fetch_status_report(parsed: Result<StatusResponse, String>) -> (r: Result<
    ObservedBackendState,
    LifecycleError,
>)
    ensures
        report_view(r) == match parsed {
            Ok(response) => Ok::<ObservedView, Seq<char>>(status_report(response@)),
            Err(error) => Err("failed to parse status response: "@ + error@),
        },
{
    let response = match parsed {
        Ok(response) => response,
        Err(error) => {
            return Err(
                LifecycleError {
                    message: "failed to parse status response: ".to_string().concat(error.as_str()),
                },
            );
        },
    };
    let llama_server_unit = unit_state_of(&response.llama_server);
    let inhibit_unit = unit_state_of(&response.inhibit_holder);
    let lifecycle = if matches!(response.status, HelperStatus::Error) {
        LifecycleState::Error
    } else if matches!(llama_server_unit, UnitState::Active) {
        LifecycleState::Ready
    } else {
        LifecycleState::Warming
    };
    Ok(
        ObservedBackendState {
            lifecycle,
            chat: CapabilityState::Ready,
            embeddings: CapabilityState::Ready,
            embeddings_reason: None,
            error: None,
            llama_server_unit,
            inhibit_unit,
        },
    )
}

/// What looking at the backend needs next.
#[derive(Debug)]
pub enum HelperStep {
    /// Ask for the state of the host; then `with_unit_states`.
    FetchStatus(ObservedBackendState),
    Done(Result<ObservedBackendState, LifecycleError>),
}

/// What follows from the answer to `ensure-started`: the units of a backend that is ready are
/// looked up too.
pub fn after_ensure_started(report: Result<ObservedBackendState, LifecycleError>) -> (r: HelperStep)
    ensures
        match r {
            HelperStep::FetchStatus(state) => report_view(report) == Ok::<ObservedView, Seq<char>>(
                state@,
            ) && state.lifecycle is Ready,
            HelperStep::Done(done) => report_view(done) == report_view(report) && !(report is Ok
                && report->Ok_0.lifecycle is Ready),
        },
{
    match report {
        Ok(state) => if matches!(state.lifecycle, LifecycleState::Ready) {
            HelperStep::FetchStatus(state)
        } else {
            HelperStep::Done(Ok(state))
        },
        Err(error) => HelperStep::Done(Err(error)),
    }
}

/// A report with the units that the state of the host shows, if that could be had.
pub open spec fn with_units(
    state: ObservedView,
    status: Result<ObservedView, Seq<char>>,
) -> ObservedView {
    match status {
        Ok(status) => ObservedView {
            llama_server_unit: status.llama_server_unit,
            inhibit_unit: status.inhibit_unit,
            ..state
        },
        Err(_) => state,
    }
}

/// A report with the units that the state of the host shows, if that could be had.
pub fn with_unit_states(
    state: ObservedBackendState,
    status: Result<ObservedBackendState, LifecycleError>,
) -> (r: ObservedBackendState)
    ensures
        r@ == with_units(state@, report_view(status)),
{
    let mut state = state;
    if let Ok(status) = status {
        state.llama_server_unit = status.llama_server_unit;
        state.inhibit_unit = status.inhibit_unit;
    }
    state
}

impl SshHelperRpc {
    pub fn new(
        ssh_user: String,
        ssh_host: String,
        helper_path: String,
        model_path: String,
        model_alias: String,
        ssh_key_path: String,
        target: Target,
    ) -> (r: SshHelperRpc)
        ensures
            r@ == (HelperRpcView {
                ssh_user: ssh_user@,
                ssh_host: ssh_host@,
                helper_path: helper_path@,
                model_path: model_path@,
                model_alias: model_alias@,
                ssh_key_path: ssh_key_path@,
                target,
            }),
    {
        SshHelperRpc {
            ssh_user,
            ssh_host,
            helper_path,
            model_path,
            model_alias,
            ssh_key_path,
            target,
        }
    }

    fn remote_args(&self, command: &[&str]) -> (r: Vec<String>)
        ensures
            texts_view(r@) == remote_command(self@, command@.map_values(|a: &str| a@)),
    {
        let user_at_host = login_text(&self.ssh_user, &self.ssh_host);
        let parts: Vec<&str> = vec![
            "-o",
            "ConnectTimeout=10",
            "-o",
            "BatchMode=yes",
            "-o",
            "StrictHostKeyChecking=accept-new",
            "-i",
            self.ssh_key_path.as_str(),
            user_at_host.as_str(),
        ];
        let mut r = owned(parts.as_slice());
        let ghost first = texts_view(r@);
        assert(first =~= parts@.map_values(|p: &str| p@));
        let mut rest = owned(command);
        let ghost last = texts_view(rest@);
        r.append(&mut rest);
        assert(texts_view(r@) =~= first + last);
        r
    }

    /// The arguments of `ssh` that start the model server.
    pub fn ensure_started_args(&self) -> (r: Vec<String>)
        ensures
            texts_view(r@) == remote_command(self@, start_command(self@)),
    {
        let expected = "EXPECTED_MODEL_PATH=".to_string().concat(self.model_path.as_str());
        let parts: Vec<&str> = vec![
            "env",
            expected.as_str(),
            self.helper_path.as_str(),
            "ensure-started",
            self.target.as_str(),
            self.model_alias.as_str(),
        ];
        assert(parts@.map_values(|p: &str| p@) =~= start_command(self@));
        self.remote_args(parts.as_slice())
    }

    /// The arguments of `ssh` that ask for the state of the host.
    pub fn status_args(&self) -> (r: Vec<String>)
        ensures
            texts_view(r@) == remote_command(self@, status_command(self@)),
    {
        let parts: Vec<&str> = vec![self.helper_path.as_str(), "status"];
        assert(parts@.map_values(|p: &str| p@) =~= status_command(self@));
        self.remote_args(parts.as_slice())
    }
}

fn login_text(user: &String, host: &String) -> (r: String)
    ensures
        r@ == login(user@, host@),
{
    user.clone().concat("@").concat(host.as_str())
}

/// What the helper printed, or why there is nothing.
pub fn helper_output(ran: Result<CommandOutput, String>) -> (r: Result<String, LifecycleError>)
    ensures
        match r {
            Ok(output) => helper_said(ran) == Ok::<Seq<char>, Seq<char>>(output@),
            Err(error) => helper_said(ran) == Err::<Seq<char>, Seq<char>>(error@),
        },
{
    let message = match ran {
        Ok(output) => if output.success {
            match text::from_utf8(output.stdout.as_slice()) {
                Ok(said) => {
                    return Ok(said);
                },
                Err(error) => "invalid UTF-8 from helper: ".to_string().concat(error.as_str()),
            }
        } else {
            "helper command failed: ".to_string().concat(
                text::from_utf8_lossy(output.stderr.as_slice()).as_str(),
            )
        },
        Err(error) => "ssh failed: ".to_string().concat(error.as_str()),
    };
    Err(LifecycleError { message })
}

/// The tunnel to the model server.
#[derive(Debug)]
pub struct SshTunnelManager {
    pub ssh_user: String,
    pub ssh_host: String,
    pub local_port: u16,
    pub remote_port: u16,
    pub ssh_key_path: String,
}

/// What a `SshTunnelManager` says.
#[verifier::ext_equal]
pub struct TunnelView {
    pub ssh_user: Seq<char>,
    pub ssh_host: Seq<char>,
    pub local_port: u16,
    pub remote_port: u16,
    pub ssh_key_path: Seq<char>,
}

impl View for SshTunnelManager {
    type V = TunnelView;

    open spec fn view(&self) -> TunnelView {
        TunnelView {
            ssh_user: self.ssh_user@,
            ssh_host: self.ssh_host@,
            local_port: self.local_port,
            remote_port: self.remote_port,
            ssh_key_path: self.ssh_key_path@,
        }
    }
}

/// The arguments of `ssh` that open the tunnel.
pub open spec fn tunnel_command(tunnel: TunnelView) -> Seq<Seq<char>> {
    seq![
        "-o"@,
        "ConnectTimeout=10"@,
        "-o"@,
        "BatchMode=yes"@,
        "-o"@,
        "StrictHostKeyChecking=accept-new"@,
        "-o"@,
        "ExitOnForwardFailure=yes"@,
        "-i"@,
        tunnel.ssh_key_path,
        "-L"@,
        "127.0.0.1:"@ + decimal(tunnel.local_port as nat) + ":127.0.0.1:"@ + decimal(
            tunnel.remote_port as nat,
        ),
        "-N"@,
        login(tunnel.ssh_user, tunnel.ssh_host),
    ]
}

/// What is known of the process that holds the tunnel.
#[derive(Debug)]
pub enum TunnelProcess {
    Absent,
    Running,
    Exited,
    /// It could not be asked.
    Unknown,
}

/// What has to be done about the tunnel.
#[derive(Clone, Copy, Debug, PartialEq, Eq, Structural)]
pub enum TunnelAction {
    /// Forget the process, if there was one, and open a new tunnel.
    Create,
    Report(TunnelState),
}

/// What has to be done about the tunnel: one that runs is kept.
pub fn tunnel_action(process: TunnelProcess) -> (r: TunnelAction)
    ensures
        r == match process {
            TunnelProcess::Absent => TunnelAction::Create,
            TunnelProcess::Exited => TunnelAction::Create,
            TunnelProcess::Running => TunnelAction::Report(TunnelState::Ready),
            TunnelProcess::Unknown => TunnelAction::Report(TunnelState::Down),
        },
{
    match process {
        TunnelProcess::Absent => TunnelAction::Create,
        TunnelProcess::Exited => TunnelAction::Create,
        TunnelProcess::Running => TunnelAction::Report(TunnelState::Ready),
        TunnelProcess::Unknown => TunnelAction::Report(TunnelState::Down),
    }
}

/// What came of opening a tunnel.
#[derive(Debug)]
pub enum TunnelStart {
    NotSpawned(String),
    /// The process ended at once, with this status.
    Exited(String),
    Running,
    /// It could not be asked.
    NotChecked(String),
}

/// The state of a tunnel that was opened, or the error.
pub open spec fn tunnel_opened(start: TunnelStart) -> Result<TunnelState, Seq<char>> {
    match start {
        TunnelStart::Running => Ok(TunnelState::Ready),
        TunnelStart::NotSpawned(error) => Err("failed to spawn SSH tunnel: "@ + error@),
        TunnelStart::Exited(status) => Err(
            "SSH tunnel exited immediately with status: "@ + status@,
        ),
        TunnelStart::NotChecked(error) => Err("failed to check tunnel: "@ + error@),
    }
}

/// The state of a tunnel that was opened, or the error.
pub fn tunnel_outcome(start: TunnelStart) -> (r: Result<TunnelState, LifecycleError>)
    ensures
        crate::lifecycle::result_view(r) == tunnel_opened(start),
{
    let message = match start {
        TunnelStart::Running => {
            return Ok(TunnelState::Ready);
        },
        TunnelStart::NotSpawned(error) => "failed to spawn SSH tunnel: ".to_string().concat(
            error.as_str(),
        ),
        TunnelStart::Exited(status) => "SSH tunnel exited immediately with status: ".to_string().concat(
        status.as_str()),
        TunnelStart::NotChecked(error) => "failed to check tunnel: ".to_string().concat(
            error.as_str(),
        ),
    };
    Err(LifecycleError { message })
}

impl SshTunnelManager {
    pub fn new(
        ssh_user: String,
        ssh_host: String,
        local_port: u16,
        remote_port: u16,
        ssh_key_path: String,
    ) -> (r: SshTunnelManager)
        ensures
            r@ == (TunnelView {
                ssh_user: ssh_user@,
                ssh_host: ssh_host@,
                local_port,
                remote_port,
                ssh_key_path: ssh_key_path@,
            }),
    {
        SshTunnelManager { ssh_user, ssh_host, local_port, remote_port, ssh_key_path }
    }

    /// The arguments of `ssh` that open the tunnel.
    pub fn tunnel_args(&self) -> (r: Vec<String>)
        ensures
            texts_view(r@) == tunnel_command(self@),
    {
        let ports = "127.0.0.1:".to_string().concat(
            decimal_text(self.local_port as u64).as_str(),
        ).concat(":127.0.0.1:").concat(decimal_text(self.remote_port as u64).as_str());
        let user_at_host = login_text(&self.ssh_user, &self.ssh_host);
        let parts: Vec<&str> = vec![
            "-o",
            "ConnectTimeout=10",
            "-o",
            "BatchMode=yes",
            "-o",
            "StrictHostKeyChecking=accept-new",
            "-o",
            "ExitOnForwardFailure=yes",
            "-i",
            self.ssh_key_path.as_str(),
            "-L",
            ports.as_str(),
            "-N",
            user_at_host.as_str(),
        ];
        let r = owned(parts.as_slice());
        assert(texts_view(r@) =~= parts@.map_values(|p: &str| p@));
        assert(texts_view(r@) =~= tunnel_command(self@));
        r
    }
}

/// A wake packet has 102 bytes: six of ones, then the bytes of the MAC address over and over.
pub proof fn wake_packet_shape(mac: Seq<u8>)
    requires
        mac.len() == 6,
    ensures
        wake_packet(mac).len() == 102,
        forall|i: int| 0 <= i < 6 ==> wake_packet(mac)[i] == 0xFF,
        forall|i: int| 6 <= i < 102 ==> wake_packet(mac)[i] == mac[i % 6],
{
    lemma_mac_copies(mac, 16);
    assert forall|i: int| 6 <= i < 102 implies wake_packet(mac)[i] == mac[i % 6] by {
        assert(wake_packet(mac)[i] == mac_copies(mac, 16)[i - 6]);
    }
}

proof fn lemma_mac_copies(mac: Seq<u8>, n: nat)
    requires
        mac.len() == 6,
    ensures
        mac_copies(mac, n).len() == 6 * n,
        forall|i: int| 0 <= i < 6 * n ==> mac_copies(mac, n)[i] == mac[i % 6],
    decreases n,
{
    if n > 0 {
        let m = (n - 1) as nat;
        lemma_mac_copies(mac, m);
        assert forall|i: int| 0 <= i < 6 * n implies mac_copies(mac, n)[i] == mac[i % 6] by {
            if i >= 6 * m {
                assert(mac_copies(mac, n)[i] == mac[i - 6 * m]);
                assert(i % 6 == i - 6 * m);
            }
        }
    }
}

/// The backend is taken for ready exactly if the model server answered in time and named the
/// expected model; in every other case the reason is passed on.
pub proof fn ready_with_the_expected_model_only(
    alias: Seq<char>,
    path: Seq<char>,
    timeout_secs: u64,
    triggered: bool,
    identity: Option<Result<Option<Seq<char>>, Seq<char>>>,
    unit: UnitInfoView,
)
    ensures
        ({
            let response = start_outcome(alias, path, timeout_secs, triggered, identity, unit);
            let report = start_report(response);
            &&& report.lifecycle is Ready <==> (identity matches Some(Ok(Some(reported)))
                && same_model(reported, path))
            &&& !(report.lifecycle is Ready) ==> report.lifecycle is Error && report.error == Some(
                response.message,
            )
        }),
{
}

/// The state of the host tells of its units only: it changes neither whether the backend is ready
/// nor its error.
pub proof fn unit_states_leave_readiness(
    state: ObservedView,
    status: Result<ObservedView, Seq<char>>,
)
    ensures
        with_units(state, status).lifecycle == state.lifecycle,
        with_units(state, status).error == state.error,
{
}

/// Commands at the host run as its user, with its key, and end in what is to be run there: the helper,
/// told to start the model server for its target and its model, or to show the state of the host.
pub proof fn commands_run_at_the_host(
    rpc: &SshHelperRpc,
    started: Vec<String>,
    shown: Vec<String>,
)
    requires
        call_ensures(SshHelperRpc::ensure_started_args, (rpc,), started),
        call_ensures(SshHelperRpc::status_args, (rpc,), shown),
    ensures
        started@.len() == 15,
        started@[6]@ == "-i"@,
        started@[7]@ == rpc.ssh_key_path@,
        started@[8]@ == rpc.ssh_user@ + "@"@ + rpc.ssh_host@,
        started@[9]@ == "env"@,
        started@[10]@ == "EXPECTED_MODEL_PATH="@ + rpc.model_path@,
        started@[11]@ == rpc.helper_path@,
        started@[12]@ == "ensure-started"@,
        rpc.target is Chat ==> started@[13]@ == "chat"@,
        rpc.target is Embeddings ==> started@[13]@ == "embeddings"@,
        started@[14]@ == rpc.model_alias@,
        shown@.len() == 11,
        forall|i: int| 0 <= i < 9 ==> (#[trigger] shown@[i])@ == started@[i]@,
        shown@[9]@ == rpc.helper_path@,
        shown@[10]@ == "status"@,
        never_asks(texts_view(started@)),
        never_asks(texts_view(shown@)),
{
    let one = texts_view(started@);
    let other = texts_view(shown@);
    let start = start_command(rpc@);
    let status = status_command(rpc@);
    assert(start.len() == 6);
    assert(status.len() == 2);
    assert(one == remote_command(rpc@, start));
    assert(other == remote_command(rpc@, status));
    assert(one.len() == 15);
    assert(other.len() == 11);
    assert forall|i: int| 9 <= i < 15 implies #[trigger] one[i] == start[i - 9] by {}
    assert forall|i: int| 9 <= i < 11 implies #[trigger] other[i] == status[i - 9] by {}
    assert forall|i: int| 0 <= i < started@.len() implies (#[trigger] started@[i])@ == one[i] by {}
    assert forall|i: int| 0 <= i < shown@.len() implies (#[trigger] shown@[i])@ == other[i] by {}
}

/// Whether `ssh` with these arguments never asks anybody anything: it takes new hosts as they are,
/// asks for no password, and gives up after ten seconds.
pub open spec fn never_asks(args: Seq<Seq<char>>) -> bool {
    &&& args.len() >= 6
    &&& args[0] == "-o"@ && args[1] == "ConnectTimeout=10"@
    &&& args[2] == "-o"@ && args[3] == "BatchMode=yes"@
    &&& args[4] == "-o"@ && args[5] == "StrictHostKeyChecking=accept-new"@
}

/// A tunnel joins its local port to its remote port, both of them at their own machine only, and runs
/// no command at the host that it logs in to as its user. It fails where the port cannot be had.
pub proof fn tunnel_joins_its_ports(tunnel: &SshTunnelManager, args: Vec<String>)
    requires
        call_ensures(SshTunnelManager::tunnel_args, (tunnel,), args),
    ensures
        args@.len() == 14,
        never_asks(texts_view(args@)),
        args@[6]@ == "-o"@ && args@[7]@ == "ExitOnForwardFailure=yes"@,
        args@[8]@ == "-i"@ && args@[9]@ == tunnel.ssh_key_path@,
        args@[10]@ == "-L"@,
        args@[11]@ == "127.0.0.1:"@ + decimal(tunnel.local_port as nat) + ":127.0.0.1:"@ + decimal(
            tunnel.remote_port as nat,
        ),
        args@[12]@ == "-N"@,
        args@[13]@ == tunnel.ssh_user@ + "@"@ + tunnel.ssh_host@,
{
    let texts = texts_view(args@);
    assert(texts == tunnel_command(tunnel@));
    assert(texts.len() == 14);
    assert forall|i: int| 0 <= i < args@.len() implies (#[trigger] args@[i])@ == texts[i] by {}
}

/// What is made of its parts has them: how a host is woken, probed, reached and tunnelled to.
pub proof fn services_keep_their_parts(
    mac: [u8; 6],
    one: String,
    other: String,
    third: String,
    fourth: String,
    fifth: String,
    sixth: String,
    port: u16,
    far_port: u16,
    target: Target,
    wake: WolWakeRequester,
    probe: SshTcpProbe,
    rpc: SshHelperRpc,
    tunnel: SshTunnelManager,
)
    requires
        call_ensures(WolWakeRequester::new, (mac, one, port), wake),
        call_ensures(SshTcpProbe::new, (one, port), probe),
        call_ensures(SshHelperRpc::new, (one, other, third, fourth, fifth, sixth, target), rpc),
        call_ensures(SshTunnelManager::new, (one, other, port, far_port, third), tunnel),
    ensures
        wake.mac@ == mac@ && wake.broadcast@ == one@ && wake.port == port,
        probe.host@ == one@ && probe.port == port,
        rpc.ssh_user@ == one@ && rpc.ssh_host@ == other@ && rpc.helper_path@ == third@,
        rpc.model_path@ == fourth@ && rpc.model_alias@ == fifth@ && rpc.ssh_key_path@ == sixth@,
        rpc.target == target,
        tunnel.ssh_user@ == one@ && tunnel.ssh_host@ == other@ && tunnel.ssh_key_path@ == third@,
        tunnel.local_port == port && tunnel.remote_port == far_port,
{
}

/// The packet that is sent to wake a host has its own address in it, and goes to the broadcast address
/// and port; the probe goes to the SSH port of the host.
pub proof fn packets_go_where_they_should(
    wake: &WolWakeRequester,
    packet: Vec<u8>,
    to: String,
    probe: &SshTcpProbe,
    at: String,
)
    requires
        call_ensures(WolWakeRequester::magic_packet, (wake,), packet),
        call_ensures(WolWakeRequester::address, (wake,), to),
        call_ensures(SshTcpProbe::address, (probe,), at),
    ensures
        packet@.len() == 102,
        forall|i: int| 0 <= i < 6 ==> #[trigger] packet@[i] == 0xFF,
        forall|i: int| 6 <= i < 102 ==> #[trigger] packet@[i] == wake.mac@[i % 6],
        to@ == wake.broadcast@ + ":"@ + decimal(wake.port as nat),
        at@ == probe.host@ + ":"@ + decimal(probe.port as nat),
{
    wake_packet_shape(wake.mac@);
}

/// A unit is active, starting, inactive or failed exactly by the names that systemd has for that, and
/// otherwise nothing is known of it.
pub proof fn unit_states_by_their_names(name: &str, state: UnitState, unnamed: UnitState)
    requires
        call_ensures(map_unit_state, (Some(name),), state),
        call_ensures(map_unit_state, (None,), unnamed),
    ensures
        state is Active <==> name@ == "active"@,
        state is Activating <==> name@ == "activating"@ || name@ == "reloading"@,
        state is Inactive <==> name@ == "inactive"@,
        state is Failed <==> name@ == "failed"@ || name@ == "error"@,
        unnamed is Unknown,
{
    reveal_strlit("active");
    reveal_strlit("activating");
    reveal_strlit("reloading");
    reveal_strlit("inactive");
    reveal_strlit("failed");
    reveal_strlit("error");
    assert("active"@.len() == 6);
    assert("activating"@.len() == 10);
    assert("reloading"@.len() == 9);
    assert("inactive"@.len() == 8);
    assert("failed"@.len() == 6);
    assert("error"@.len() == 5);
    assert("active"@[0] != "failed"@[0]);
}

/// Whether a unit state is the one that systemd showed for a unit.
pub open spec fn state_as_shown(state: UnitState, unit: Option<UnitInfo>) -> bool {
    match unit {
        Some(unit) => {
            &&& state is Active <==> unit.active_state@ == "active"@
            &&& state is Activating <==> unit.active_state@ == "activating"@ || unit.active_state@
                == "reloading"@
            &&& state is Inactive <==> unit.active_state@ == "inactive"@
            &&& state is Failed <==> unit.active_state@ == "failed"@ || unit.active_state@
                == "error"@
        },
        None => state is Unknown,
    }
}

/// The backend has failed where the helper says so, for its reason; is ready where the helper has
/// verified its model; and is starting otherwise. Both abilities are expected of it, and its unit is
/// as shown.
pub proof fn start_answer_is_believed(
    response: EnsureStartedResponse,
    r: Result<ObservedBackendState, LifecycleError>,
)
    requires
        call_ensures(ensure_started_report, (Ok(response),), r),
    ensures
        r matches Ok(report) && {
            &&& report.lifecycle is Error <==> !(response.status is Okay)
            &&& report.lifecycle is Ready <==> response.status is Okay && response.model_verified
            &&& report.lifecycle is Warming <==> response.status is Okay && !response.model_verified
            &&& report.chat is Ready
            &&& report.embeddings is Ready
            &&& report.embeddings_reason is None
            &&& report.error is Some <==> !(response.status is Okay)
            &&& report.error matches Some(error) ==> error@ == response.message@
            &&& state_as_shown(report.llama_server_unit, response.llama_server)
            &&& report.inhibit_unit is Unknown
        },
{
    lemma_state_as_shown(response.llama_server);
}

/// The state of the host says whether the model server runs, and of each unit what is shown of that
/// unit.
pub proof fn status_answer_is_believed(
    response: StatusResponse,
    r: Result<ObservedBackendState, LifecycleError>,
)
    requires
        call_ensures(fetch_status_report, (Ok(response),), r),
    ensures
        r matches Ok(report) && {
            &&& report.lifecycle is Error <==> response.status is Error
            &&& report.lifecycle is Ready <==> !(response.status is Error) && (
            response.llama_server matches Some(unit) && unit.active_state@ == "active"@)
            &&& report.lifecycle is Error || report.lifecycle is Ready || report.lifecycle
                is Warming
            &&& report.chat is Ready
            &&& report.embeddings is Ready
            &&& report.embeddings_reason is None
            &&& report.error is None
            &&& state_as_shown(report.llama_server_unit, response.llama_server)
            &&& state_as_shown(report.inhibit_unit, response.inhibit_holder)
        },
{
    lemma_state_as_shown(response.llama_server);
    lemma_state_as_shown(response.inhibit_holder);
}

proof fn lemma_state_as_shown(unit: Option<UnitInfo>)
    ensures
        state_as_shown(reported_unit(unit_view(unit)), unit),
{
    reveal_strlit("active");
    reveal_strlit("activating");
    reveal_strlit("reloading");
    reveal_strlit("inactive");
    reveal_strlit("failed");
    reveal_strlit("error");
    assert("active"@.len() == 6);
    assert("activating"@.len() == 10);
    assert("reloading"@.len() == 9);
    assert("inactive"@.len() == 8);
    assert("failed"@.len() == 6);
    assert("error"@.len() == 5);
    assert("active"@[0] != "failed"@[0]);
}

/// An answer of the helper that cannot be read is an error that says so, and why.
pub proof fn unreadable_answers_are_errors(
    error: String,
    started: Result<ObservedBackendState, LifecycleError>,
    shown: Result<ObservedBackendState, LifecycleError>,
)
    requires
        call_ensures(ensure_started_report, (Err(error),), started),
        call_ensures(fetch_status_report, (Err(error),), shown),
    ensures
        started matches Err(told) && told.message@ == "failed to parse ensure-started response: "@
            + error@,
        shown matches Err(told) && told.message@ == "failed to parse status response: "@ + error@,
{
}

/// Only the units of a backend that is ready are looked up, and what is then known of it is what was
/// known, but for its units where they could be had.
pub proof fn units_are_looked_up_for_ready_backends(
    report: Result<ObservedBackendState, LifecycleError>,
    step: HelperStep,
    state: ObservedBackendState,
    status: Result<ObservedBackendState, LifecycleError>,
    known: ObservedBackendState,
)
    requires
        call_ensures(after_ensure_started, (report,), step),
        call_ensures(with_unit_states, (state, status), known),
    ensures
        step is FetchStatus <==> (report matches Ok(ready) && ready.lifecycle is Ready),
        step matches HelperStep::FetchStatus(kept) ==> report_view(Ok(kept)) == report_view(report),
        step matches HelperStep::Done(done) ==> report_view(done) == report_view(report),
        known.lifecycle == state.lifecycle,
        known.chat == state.chat,
        known.embeddings == state.embeddings,
        known@.embeddings_reason == state@.embeddings_reason,
        known@.error == state@.error,
        status matches Ok(units) ==> known.llama_server_unit == units.llama_server_unit
            && known.inhibit_unit == units.inhibit_unit,
        status is Err ==> known.llama_server_unit == state.llama_server_unit && known.inhibit_unit
            == state.inhibit_unit,
{
}

/// What the helper printed is taken as it is if the helper succeeded and printed text; in every other
/// case the error says what went wrong.
pub proof fn helper_output_is_taken_from_success_only(
    ran: Result<CommandOutput, String>,
    r: Result<String, LifecycleError>,
)
    requires
        call_ensures(helper_output, (ran,), r),
    ensures
        r is Ok <==> (ran matches Ok(output) && output.success && vstd::utf8::valid_utf8(
            output.stdout@,
        )),
        r matches Ok(said) ==> said@ == vstd::utf8::decode_utf8(ran->Ok_0.stdout@),
        r matches Err(error) ==> match ran {
            Err(why) => error.message@ == "ssh failed: "@ + why@,
            Ok(output) => if output.success {
                error.message@ == "invalid UTF-8 from helper: "@ + utf8_error(output.stdout@)
            } else {
                error.message@ == "helper command failed: "@ + utf8_lossy(output.stderr@)
            },
        },
{
}

/// A tunnel that runs is kept, one that is not there or has ended is opened anew, and one that cannot
/// be asked is down. One that was opened is ready if it runs then; otherwise the error says why not.
pub proof fn tunnels_are_kept_while_they_run(
    process: TunnelProcess,
    action: TunnelAction,
    start: TunnelStart,
    r: Result<TunnelState, LifecycleError>,
)
    requires
        call_ensures(tunnel_action, (process,), action),
        call_ensures(tunnel_outcome, (start,), r),
    ensures
        action is Create <==> process is Absent || process is Exited,
        action == TunnelAction::Report(TunnelState::Ready) <==> process is Running,
        action == TunnelAction::Report(TunnelState::Down) <==> process is Unknown,
        r is Ok <==> start is Running,
        r matches Ok(state) ==> state is Ready,
        match (start, r) {
            (TunnelStart::NotSpawned(why), Err(error)) => error.message@
                == "failed to spawn SSH tunnel: "@ + why@,
            (TunnelStart::Exited(why), Err(error)) => error.message@
                == "SSH tunnel exited immediately with status: "@ + why@,
            (TunnelStart::NotChecked(why), Err(error)) => error.message@
                == "failed to check tunnel: "@ + why@,
            (TunnelStart::Running, Ok(_)) => true,
            _ => false,
        },
{
}

/// The error of a wake request says which step of it failed, and why.
pub proof fn wake_error_names_its_step(stage: WakeStage, error: &str, r: LifecycleError)
    requires
        call_ensures(wake_error, (stage, error), r),
    ensures
        r.message@ == (match stage {
            WakeStage::Bind => "WOL bind failed: "@,
            WakeStage::Broadcast => "WOL broadcast failed: "@,
            WakeStage::Send => "WOL send failed: "@,
        }) + error@,
{
}

} // verus!
