//! The command line of the helper.

use vstd::prelude::*;

use crate::helper::{
    target_named, target_read_back, EnsureStartedResponse, EnsureStartedView, HelperStatus, Target,
};
use crate::host::{start_command, status_command, HelperRpcView};
use crate::numeral::{number, parse_number};
use crate::text;
use crate::text::{owned, texts_view};

verus! {

/// Which instructions are printed.
#[derive(Clone, Copy, Debug, PartialEq, Eq, Structural)]
pub enum Usage {
    General,
    EnsureStarted,
    Lease,
}

/// The lines of the instructions.
pub open spec fn usage_lines(usage: Usage) -> Seq<Seq<char>> {
    match usage {
        Usage::General => seq![
            "Usage:"@,
            "  helper status                    Show host unit and model status"@,
            "  helper ensure-started <chat|embeddings> <alias>    Start and verify model server"@,
            "  helper lease <acquire|release|inspect>  Manage inhibit lease"@,
            ""@,
            "Environment:"@,
            "  EXPECTED_MODEL_PATH    Path to the model file for verification"@,
            "  LLAMA_SERVER_UNIT      systemd unit name (default: llama-server)"@,
            "  INHIBIT_HOLDER_UNIT    systemd unit name (default: llm-wake-proxy-inhibit)"@,
            "  LLAMA_SERVER_PORT      Port for server health check (default: 8080)"@,
            "  SERVER_START_TIMEOUT_SECS  How long to wait for server (default: 60)"@,
        ],
        Usage::EnsureStarted => seq![
            "Usage: helper ensure-started <chat|embeddings> <model-alias>"@,
            ""@,
            "Environment:"@,
            "  EXPECTED_MODEL_PATH    Path to verify against running server"@,
            "  LLAMA_SERVER_UNIT      systemd unit name (default: llama-server)"@,
            "  LLAMA_SERVER_PORT      Port for server health check (default: 8080)"@,
            "  SERVER_START_TIMEOUT_SECS  How long to wait for server (default: 60)"@,
        ],
        Usage::Lease => seq![
            "Usage: helper lease <acquire|release|inspect>"@,
            ""@,
            "  acquire [--ttl <secs>]    Create or renew inhibit lease"@,
            "  release                  Stop inhibit lease"@,
            "  inspect                  Show current lease state"@,
            ""@,
            "Environment:"@,
            "  INHIBIT_HOLDER_UNIT    systemd unit name (default: llm-wake-proxy-inhibit)"@,
        ],
    }
}

impl Usage {
    /// The lines of the instructions.
    pub fn lines(self) -> (r: Vec<String>)
        ensures
            texts_view(r@) == usage_lines(self),
    {
        let parts: Vec<&str> = match self {
            Usage::General => vec![
                "Usage:",
                "  helper status                    Show host unit and model status",
                "  helper ensure-started <chat|embeddings> <alias>    Start and verify model server",
                "  helper lease <acquire|release|inspect>  Manage inhibit lease",
                "",
                "Environment:",
                "  EXPECTED_MODEL_PATH    Path to the model file for verification",
                "  LLAMA_SERVER_UNIT      systemd unit name (default: llama-server)",
                "  INHIBIT_HOLDER_UNIT    systemd unit name (default: llm-wake-proxy-inhibit)",
                "  LLAMA_SERVER_PORT      Port for server health check (default: 8080)",
                "  SERVER_START_TIMEOUT_SECS  How long to wait for server (default: 60)",
            ],
            Usage::EnsureStarted => vec![
                "Usage: helper ensure-started <chat|embeddings> <model-alias>",
                "",
                "Environment:",
                "  EXPECTED_MODEL_PATH    Path to verify against running server",
                "  LLAMA_SERVER_UNIT      systemd unit name (default: llama-server)",
                "  LLAMA_SERVER_PORT      Port for server health check (default: 8080)",
                "  SERVER_START_TIMEOUT_SECS  How long to wait for server (default: 60)",
            ],
            Usage::Lease => vec![
                "Usage: helper lease <acquire|release|inspect>",
                "",
                "  acquire [--ttl <secs>]    Create or renew inhibit lease",
                "  release                  Stop inhibit lease",
                "  inspect                  Show current lease state",
                "",
                "Environment:",
                "  INHIBIT_HOLDER_UNIT    systemd unit name (default: llm-wake-proxy-inhibit)",
            ],
        };
        let r = owned(parts.as_slice());
        assert(texts_view(r@) =~= usage_lines(self));
        r
    }
}

/// What the helper is told to do.
#[derive(Debug)]
pub enum HelperCommand {
    Status,
    EnsureStarted { target: Target, model_alias: String, model_path: String },
    /// Acquire a lease, after printing a warning if there is one.
    LeaseAcquire { ttl_secs: u64, warning: Option<String> },
    LeaseRelease,
    LeaseInspect,
    /// Print these instructions and fail.
    Help(Usage),
    /// Print this message and fail.
    Refused(String),
}

/// What a `HelperCommand` says.
#[verifier::ext_equal]
pub enum CommandView {
    Status,
    EnsureStarted { target: Target, model_alias: Seq<char>, model_path: Seq<char> },
    LeaseAcquire { ttl_secs: u64, warning: Option<Seq<char>> },
    LeaseRelease,
    LeaseInspect,
    Help(Usage),
    Refused(Seq<char>),
}

impl View for HelperCommand {
    type V = CommandView;

    open spec fn view(&self) -> CommandView {
        match *self {
            HelperCommand::Status => CommandView::Status,
            HelperCommand::EnsureStarted {
                target,
                model_alias,
                model_path,
            } => CommandView::EnsureStarted {
                target,
                model_alias: model_alias@,
                model_path: model_path@,
            },
            HelperCommand::LeaseAcquire { ttl_secs, warning } => CommandView::LeaseAcquire {
                ttl_secs,
                warning: text::text_view(warning),
            },
            HelperCommand::LeaseRelease => CommandView::LeaseRelease,
            HelperCommand::LeaseInspect => CommandView::LeaseInspect,
            HelperCommand::Help(usage) => CommandView::Help(usage),
            HelperCommand::Refused(message) => CommandView::Refused(message@),
        }
    }
}

/// The seconds that a lease is asked for, and a warning where they could not be read.
pub open spec fn ttl_asked(args: Seq<Seq<char>>, pos: int) -> (u64, Option<Seq<char>>) {
    if pos >= args.len() {
        (900, None)
    } else if args[pos] != "--ttl"@ {
        (900, Some("Warning: unexpected argument '"@ + args[pos] + "', use --ttl <secs>"@))
    } else if pos + 1 >= args.len() {
        (900, Some("Warning: --ttl requires a value, using default 900"@))
    } else {
        match number(args[pos + 1], 10, u64::MAX as nat) {
            Some(ttl) => (ttl as u64, None),
            None => (
                900,
                Some(
                    "Warning: --ttl value '"@ + args[pos + 1]
                        + "' is not a valid number, using default 900"@,
                ),
            ),
        }
    }
}

/// The seconds that a lease is asked for, and a warning where they could not be read.
pub fn parse_ttl_arg(args: &Vec<String>, pos: usize) -> (r: (u64, Option<String>))
    ensures
        (r.0, text::text_view(r.1)) == ttl_asked(texts_view(args@), pos as int),
{
    if pos >= args.len() {
        return (900, None);
    }
    let flag = args[pos].as_str();
    assert(texts_view(args@)[pos as int] == flag@);
    if !text::same(flag, "--ttl") {
        return (
            900,
            Some(
                "Warning: unexpected argument '".to_string().concat(flag).concat(
                    "', use --ttl <secs>",
                ),
            ),
        );
    }
    if pos + 1 >= args.len() {
        return (900, Some("Warning: --ttl requires a value, using default 900".to_string()));
    }
    let value = args[pos + 1].as_str();
    assert(texts_view(args@)[pos + 1] == value@);
    match parse_number(value, 10, u64::MAX) {
        Some(ttl) => (ttl, None),
        None => (
            900,
            Some(
                "Warning: --ttl value '".to_string().concat(value).concat(
                    "' is not a valid number, using default 900",
                ),
            ),
        ),
    }
}

/// What the arguments of `ensure-started` say, where the environment names this model.
pub open spec fn ensure_started_named(
    args: Seq<Seq<char>>,
    expected_model_path: Option<Seq<char>>,
) -> CommandView {
    if args.len() < 4 {
        CommandView::Help(Usage::EnsureStarted)
    } else {
        match (target_named(args[2]), expected_model_path) {
            (None, _) => CommandView::Refused(
                "unknown target '"@ + args[2] + "', expected 'chat' or 'embeddings'"@,
            ),
            (Some(target), Some(path)) => if path.len() > 0 {
                CommandView::EnsureStarted { target, model_alias: args[3], model_path: path }
            } else {
                CommandView::Refused("EXPECTED_MODEL_PATH must be set for ensure-started"@)
            },
            (Some(_), None) => CommandView::Refused(
                "EXPECTED_MODEL_PATH must be set for ensure-started"@,
            ),
        }
    }
}

/// What the arguments of `lease` say.
pub open spec fn lease_named(args: Seq<Seq<char>>) -> CommandView {
    if args.len() < 3 {
        CommandView::Help(Usage::Lease)
    } else if args[2] == "acquire"@ {
        CommandView::LeaseAcquire {
            ttl_secs: ttl_asked(args, 3).0,
            warning: ttl_asked(args, 3).1,
        }
    } else if args[2] == "release"@ {
        CommandView::LeaseRelease
    } else if args[2] == "inspect"@ {
        CommandView::LeaseInspect
    } else {
        CommandView::Help(Usage::Lease)
    }
}

/// What the arguments of the program say, where the environment names this model.
pub open spec fn command_named(
    args: Seq<Seq<char>>,
    expected_model_path: Option<Seq<char>>,
) -> CommandView {
    if args.len() < 2 {
        CommandView::Help(Usage::General)
    } else if args[1] == "status"@ {
        CommandView::Status
    } else if args[1] == "ensure-started"@ {
        ensure_started_named(args, expected_model_path)
    } else if args[1] == "lease"@ {
        lease_named(args)
    } else {
        CommandView::Help(Usage::General)
    }
}

fn parse_ensure_started(args: &Vec<String>, expected_model_path: Option<String>) -> (r:
    HelperCommand)
    ensures
        r@ == ensure_started_named(texts_view(args@), text::text_view(expected_model_path)),
{
    if args.len() < 4 {
        return HelperCommand::Help(Usage::EnsureStarted);
    }
    let target = match Target::parse(args[2].as_str()) {
        Ok(target) => target,
        Err(message) => {
            return HelperCommand::Refused(message);
        },
    };
    match expected_model_path {
        Some(path) => if path.as_str().unicode_len() > 0 {
            HelperCommand::EnsureStarted {
                target,
                model_alias: args[3].clone(),
                model_path: path,
            }
        } else {
            HelperCommand::Refused("EXPECTED_MODEL_PATH must be set for ensure-started".to_string())
        },
        None => HelperCommand::Refused(
            "EXPECTED_MODEL_PATH must be set for ensure-started".to_string(),
        ),
    }
}

fn parse_lease(args: &Vec<String>) -> (r: HelperCommand)
    ensures
        r@ == lease_named(texts_view(args@)),
{
    if args.len() < 3 {
        return HelperCommand::Help(Usage::Lease);
    }
    let verb = args[2].as_str();
    assert(texts_view(args@)[2] == verb@);
    if text::same(verb, "acquire") {
        let (ttl_secs, warning) = parse_ttl_arg(args, 3);
        HelperCommand::LeaseAcquire { ttl_secs, warning }
    } else if text::same(verb, "release") {
        HelperCommand::LeaseRelease
    } else if text::same(verb, "inspect") {
        HelperCommand::LeaseInspect
    } else {
        HelperCommand::Help(Usage::Lease)
    }
}

/// What the arguments of the program say. `expected_model_path` is the environment variable of that
/// name.
pub fn parse_command(args: &Vec<String>, expected_model_path: Option<String>) -> (r: HelperCommand)
    ensures
        r@ == command_named(texts_view(args@), text::text_view(expected_model_path)),
{
    if args.len() < 2 {
        return HelperCommand::Help(Usage::General);
    }
    let verb = args[1].as_str();
    assert(texts_view(args@)[1] == verb@);
    if text::same(verb, "status") {
        HelperCommand::Status
    } else if text::same(verb, "ensure-started") {
        parse_ensure_started(args, expected_model_path)
    } else if text::same(verb, "lease") {
        parse_lease(args)
    } else {
        HelperCommand::Help(Usage::General)
    }
}

/// How the program ends: whether with success, and what it says to the user.
#[derive(Debug)]
pub struct CommandExit {
    pub success: bool,
    pub stderr: Option<String>,
}

/// How a command ends, by its status.
pub fn exit_for_status(status: HelperStatus, message: Option<&str>) -> (r: CommandExit)
    ensures
        r.success == status is Okay,
        text::text_view(r.stderr) == match message {
            Some(message) => if status is Okay {
                None
            } else {
                Some(message@)
            },
            None => None,
        },
{
    if matches!(status, HelperStatus::Okay) {
        return CommandExit { success: true, stderr: None };
    }
    CommandExit {
        success: false,
        stderr: match message {
            Some(message) => Some(message.to_string()),
            None => None,
        },
    }
}

/// What `ensure-started` says to the user.
pub open spec fn start_complaint(response: EnsureStartedView) -> Option<Seq<char>> {
    match response.status {
        HelperStatus::Okay => None,
        HelperStatus::Mismatch => Some("Model mismatch: "@ + response.message),
        HelperStatus::Error => Some("Error: "@ + response.message),
    }
}

/// How `ensure-started` ends.
pub fn ensure_started_exit(response: &EnsureStartedResponse) -> (r: CommandExit)
    ensures
        r.success == response.status is Okay,
        text::text_view(r.stderr) == start_complaint(response@),
{
    match response.status {
        HelperStatus::Okay => CommandExit { success: true, stderr: None },
        HelperStatus::Mismatch => CommandExit {
            success: false,
            stderr: Some("Model mismatch: ".to_string().concat(response.message.as_str())),
        },
        HelperStatus::Error => CommandExit {
            success: false,
            stderr: Some("Error: ".to_string().concat(response.message.as_str())),
        },
    }
}

/// What the proxy tells the helper over SSH is what the helper understands: `env` sets the model,
/// and the rest is its command line.
pub proof fn helper_understands_proxy(rpc: HelperRpcView)
    requires
        rpc.model_path.len() > 0,
    ensures
        start_command(rpc)[0] == "env"@,
        start_command(rpc)[1] == "EXPECTED_MODEL_PATH="@ + rpc.model_path,
        command_named(start_command(rpc).skip(2), Some(rpc.model_path))
            == (CommandView::EnsureStarted {
            target: rpc.target,
            model_alias: rpc.model_alias,
            model_path: rpc.model_path,
        }),
        command_named(status_command(rpc), None) == CommandView::Status,
{
    reveal_strlit("status");
    reveal_strlit("ensure-started");
    assert("status"@.len() != "ensure-started"@.len());
    target_read_back(rpc.target);
}

proof fn lemma_verbs_differ()
    ensures
        "status"@ != "ensure-started"@,
        "status"@ != "lease"@,
        "ensure-started"@ != "lease"@,
{
    reveal_strlit("status");
    reveal_strlit("ensure-started");
    reveal_strlit("lease");
    assert("status"@.len() == 6);
    assert("ensure-started"@.len() == 14);
    assert("lease"@.len() == 5);
}
proof fn lemma_lease_verbs_differ()
    ensures
        "acquire"@ != "release"@,
        "acquire"@ != "inspect"@,
        "release"@ != "inspect"@,
{
    reveal_strlit("acquire");
    reveal_strlit("release");
    reveal_strlit("inspect");
    assert("acquire"@[0] != "release"@[0]);
    assert("acquire"@[0] != "inspect"@[0]);
    assert("release"@[0] != "inspect"@[0]);
    assert("acquire"@.len() == 7);
    assert("release"@.len() == 7);
    assert("inspect"@.len() == 7);
}

/// The first word says what is done: show the state, start a server, or manage the lease. Anything else
/// gets the instructions.
pub proof fn commands_are_told_apart(
    args: &Vec<String>,
    path: Option<String>,
    command: HelperCommand,
)
    requires
        call_ensures(parse_command, (args, path), command),
    ensures
        args@.len() < 2 ==> command == HelperCommand::Help(Usage::General),
        args@.len() >= 2 ==> {
            let verb = args@[1]@;
            &&& verb == "status"@ <==> command is Status
            &&& verb != "status"@ && verb != "ensure-started"@ && verb != "lease"@ ==> command
                == HelperCommand::Help(Usage::General)
            &&& command is EnsureStarted || command is Refused ==> verb == "ensure-started"@
            &&& command is LeaseAcquire || command is LeaseRelease || command is LeaseInspect
                ==> verb == "lease"@
        },
{
    lemma_verbs_differ();
    if args@.len() >= 2 {
        assert(texts_view(args@)[1] == args@[1]@);
    }
}

/// A server is started for the target, under the name and with the model that are given. It is refused
/// for another target or without a model, and gets the instructions without a name.
pub proof fn start_command_is_read(args: &Vec<String>, path: Option<String>, command: HelperCommand)
    requires
        call_ensures(parse_command, (args, path), command),
        args@.len() >= 2,
        args@[1]@ == "ensure-started"@,
    ensures
        args@.len() < 4 ==> command == HelperCommand::Help(Usage::EnsureStarted),
        args@.len() >= 4 ==> {
            let named = args@[2]@ == "chat"@ || args@[2]@ == "embeddings"@;
            let given = path matches Some(text) && text@.len() > 0;
            &&& command is EnsureStarted <==> named && given
            &&& command matches HelperCommand::EnsureStarted { target, model_alias, model_path } ==> {
                &&& target is Chat <==> args@[2]@ == "chat"@
                &&& model_alias@ == args@[3]@
                &&& model_path@ == path->0@
            }
            &&& !named ==> (command matches HelperCommand::Refused(message) && message@
                == "unknown target '"@ + args@[2]@ + "', expected 'chat' or 'embeddings'"@)
            &&& named && !given ==> (command matches HelperCommand::Refused(message) && message@
                == "EXPECTED_MODEL_PATH must be set for ensure-started"@)
        },
{
    lemma_verbs_differ();
    let texts = texts_view(args@);
    assert(texts[1] == args@[1]@);
    if args@.len() >= 4 {
        assert(texts[2] == args@[2]@);
        assert(texts[3] == args@[3]@);
    }
}

/// A lease is acquired for the time that is given, for fifteen minutes where none is given, and for
/// that with a warning where it cannot be read; it is released or inspected by these words.
pub proof fn lease_command_is_read(args: &Vec<String>, path: Option<String>, command: HelperCommand)
    requires
        call_ensures(parse_command, (args, path), command),
        args@.len() >= 2,
        args@[1]@ == "lease"@,
    ensures
        args@.len() < 3 ==> command == HelperCommand::Help(Usage::Lease),
        args@.len() >= 3 ==> {
            let verb = args@[2]@;
            &&& verb == "acquire"@ <==> command is LeaseAcquire
            &&& verb == "release"@ <==> command is LeaseRelease
            &&& verb == "inspect"@ <==> command is LeaseInspect
            &&& verb != "acquire"@ && verb != "release"@ && verb != "inspect"@ ==> command
                == HelperCommand::Help(Usage::Lease)
        },
        command matches HelperCommand::LeaseAcquire { ttl_secs, warning } ==> {
            &&& args@.len() == 3 ==> ttl_secs == 900 && warning is None
            &&& args@.len() > 3 && args@[3]@ != "--ttl"@ ==> ttl_secs == 900 && warning is Some
            &&& args@.len() == 4 ==> ttl_secs == 900 && warning is Some
            &&& args@.len() > 4 && args@[3]@ == "--ttl"@ ==> match number(
                args@[4]@,
                10,
                u64::MAX as nat,
            ) {
                Some(n) => ttl_secs == n && warning is None,
                None => ttl_secs == 900 && warning is Some,
            }
        },
{
    lemma_verbs_differ();
    lemma_lease_verbs_differ();
    let texts = texts_view(args@);
    assert(texts[1] == args@[1]@);
    if args@.len() >= 3 {
        assert(texts[2] == args@[2]@);
    }
    if args@.len() > 3 {
        assert(texts[3] == args@[3]@);
    }
    if args@.len() > 4 {
        assert(texts[4] == args@[4]@);
    }
}

/// The time that is asked for is the number after its flag; without the flag, without a number or with
/// something else there, it is fifteen minutes, and what is wrong is said.
pub proof fn lease_time_is_read(args: &Vec<String>, pos: usize, r: (u64, Option<String>))
    requires
        call_ensures(parse_ttl_arg, (args, pos), r),
    ensures
        pos >= args@.len() ==> r.0 == 900 && r.1 is None,
        pos < args@.len() && args@[pos as int]@ != "--ttl"@ ==> r.0 == 900 && (
        r.1 matches Some(warning) && warning@ == "Warning: unexpected argument '"@
            + args@[pos as int]@ + "', use --ttl <secs>"@),
        pos < args@.len() && args@[pos as int]@ == "--ttl"@ && pos + 1 >= args@.len() ==> r.0 == 900
            && (r.1 matches Some(warning) && warning@
            == "Warning: --ttl requires a value, using default 900"@),
        pos + 1 < args@.len() && args@[pos as int]@ == "--ttl"@ ==> match number(
            args@[pos + 1]@,
            10,
            u64::MAX as nat,
        ) {
            Some(n) => r.0 == n && r.1 is None,
            None => r.0 == 900 && (r.1 matches Some(warning) && warning@
                == "Warning: --ttl value '"@ + args@[pos + 1]@
                + "' is not a valid number, using default 900"@),
        },
{
    let texts = texts_view(args@);
    if pos < args@.len() {
        assert(texts[pos as int] == args@[pos as int]@);
    }
    if pos + 1 < args@.len() {
        assert(texts[pos + 1] == args@[pos + 1]@);
    }
}

/// A command ends with success exactly if its status is that, and says what went wrong otherwise.
pub proof fn failures_end_without_success(
    status: HelperStatus,
    message: Option<&str>,
    exit: CommandExit,
    response: &EnsureStartedResponse,
    started: CommandExit,
)
    requires
        call_ensures(exit_for_status, (status, message), exit),
        call_ensures(ensure_started_exit, (response,), started),
    ensures
        exit.success <==> status is Okay,
        exit.stderr is Some <==> !(status is Okay) && message is Some,
        exit.stderr matches Some(said) ==> said@ == message->0@,
        started.success <==> response.status is Okay,
        response.status is Okay ==> started.stderr is None,
        response.status is Mismatch ==> (started.stderr matches Some(said) && said@
            == "Model mismatch: "@ + response.message@),
        response.status is Error ==> (started.stderr matches Some(said) && said@ == "Error: "@
            + response.message@),
{
}

} // verus!
