//! The commands by which the helper reaches systemd and the model servers, and what their output
//! means.

use vstd::prelude::*;

use crate::helper::{parse_systemctl_output, properties};
use crate::table::TextTable;
use crate::text;
use crate::text::{owned, texts_view, utf8_error, utf8_lossy};

verus! {

/// What a command that ran left behind.
#[derive(Debug)]
pub struct CommandOutput {
    pub success: bool,
    pub stdout: Vec<u8>,
    pub stderr: Vec<u8>,
}

/// The message of a command that could not be run.
pub open spec fn not_run(tool: Seq<char>, error: Seq<char>) -> Seq<char> {
    "failed to run "@ + tool + ": "@ + error
}

/// The message of a command that failed.
pub open spec fn failed_with(what: Seq<char>, stderr: Seq<u8>) -> Seq<char> {
    what + " failed: "@ + utf8_lossy(stderr)
}

fn not_run_message(tool: &str, error: String) -> (r: String)
    ensures
        r@ == not_run(tool@, error@),
{
    "failed to run ".to_string().concat(tool).concat(": ").concat(error.as_str())
}

fn failed_message(what: &str, stderr: &Vec<u8>) -> (r: String)
    ensures
        r@ == failed_with(what@, stderr@),
{
    what.to_string().concat(" failed: ").concat(text::from_utf8_lossy(stderr.as_slice()).as_str())
}

/// Whether a command did what it was for: nothing more is to be learned of its output.
pub open spec fn command_result(
    tool: Seq<char>,
    what: Seq<char>,
    ran: Result<CommandOutput, String>,
) -> Result<(), Seq<char>> {
    match ran {
        Err(error) => Err(not_run(tool, error@)),
        Ok(output) => if output.success {
            Ok(())
        } else {
            Err(failed_with(what, output.stderr@))
        },
    }
}

fn command_outcome(tool: &str, what: &str, ran: Result<CommandOutput, String>) -> (r: Result<
    (),
    String,
>)
    ensures
        match r {
            Ok(_) => command_result(tool@, what@, ran) is Ok,
            Err(message) => command_result(tool@, what@, ran) == Err::<(), Seq<char>>(message@),
        },
{
    match ran {
        Ok(output) => if output.success {
            Ok(())
        } else {
            Err(failed_message(what, &output.stderr))
        },
        Err(error) => Err(not_run_message(tool, error)),
    }
}

/// The arguments of `systemctl` that show a unit.
pub fn show_unit_args(unit: &str) -> (r: Vec<String>)
    ensures
        texts_view(r@) == seq![
            "--user"@,
            "show"@,
            unit@,
            "--property=ActiveState"@,
            "--property=SubState"@,
            "--property=Description"@,
        ],
{
    let parts: Vec<&str> = vec![
        "--user",
        "show",
        unit,
        "--property=ActiveState",
        "--property=SubState",
        "--property=Description",
    ];
    let r = owned(parts.as_slice());
    assert(texts_view(r@) =~= parts@.map_values(|p: &str| p@));
    r
}

/// What the output of `systemctl show` says of a unit.
pub open spec fn shown_properties(ran: Result<CommandOutput, String>) -> Result<
    Map<Seq<char>, Seq<char>>,
    Seq<char>,
> {
    match ran {
        Err(error) => Err(not_run("systemctl"@, error@)),
        Ok(output) => if !output.success {
            Err(failed_with("systemctl show"@, output.stderr@))
        } else if vstd::utf8::valid_utf8(output.stdout@) {
            Ok(properties(text::text_lines(vstd::utf8::decode_utf8(output.stdout@))))
        } else {
            Err("invalid UTF-8 in systemctl output: "@ + utf8_error(output.stdout@))
        },
    }
}

/// What the output of `systemctl show` says of a unit.
pub fn show_unit_outcome(ran: Result<CommandOutput, String>) -> (r: Result<TextTable, String>)
    ensures
        match r {
            Ok(table) => shown_properties(ran) == Ok::<Map<Seq<char>, Seq<char>>, Seq<char>>(
                table@,
            ),
            Err(message) => shown_properties(ran) == Err::<Map<Seq<char>, Seq<char>>, Seq<char>>(
                message@,
            ),
        },
{
    match ran {
        Ok(output) => if !output.success {
            Err(failed_message("systemctl show", &output.stderr))
        } else {
            parse_systemctl_output(output.stdout.as_slice())
        },
        Err(error) => Err(not_run_message("systemctl", error)),
    }
}

/// The arguments of `systemctl` that apply `verb` to a unit.
fn unit_args(verb: &str, unit: &str) -> (r: Vec<String>)
    ensures
        texts_view(r@) == seq!["--user"@, verb@, unit@],
{
    let parts: Vec<&str> = vec!["--user", verb, unit];
    let r = owned(parts.as_slice());
    assert(texts_view(r@) =~= parts@.map_values(|p: &str| p@));
    r
}

/// The arguments of `systemctl` that tell whether a unit is active.
pub fn is_active_args(unit: &str) -> (r: Vec<String>)
    ensures
        texts_view(r@) == seq!["--user"@, "is-active"@, unit@],
{
    unit_args("is-active", unit)
}

/// Whether `systemctl is-active` found the unit active.
pub fn is_active_outcome(ran: Result<CommandOutput, String>) -> (r: Result<bool, String>)
    ensures
        match r {
            Ok(active) => ran is Ok && active == ran->Ok_0.success,
            Err(message) => ran is Err && message@ == not_run("systemctl"@, ran->Err_0@),
        },
{
    match ran {
        Ok(output) => Ok(output.success),
        Err(error) => Err(not_run_message("systemctl", error)),
    }
}

/// The arguments of `systemctl` that start a unit.
pub fn start_unit_args(unit: &str) -> (r: Vec<String>)
    ensures
        texts_view(r@) == seq!["--user"@, "start"@, unit@],
{
    unit_args("start", unit)
}

/// Whether `systemctl start` started the unit.
pub fn start_unit_outcome(ran: Result<CommandOutput, String>) -> (r: Result<(), String>)
    ensures
        match r {
            Ok(_) => command_result("systemctl"@, "systemctl start"@, ran) is Ok,
            Err(message) => command_result("systemctl"@, "systemctl start"@, ran) == Err::<
                (),
                Seq<char>,
            >(message@),
        },
{
    command_outcome("systemctl", "systemctl start", ran)
}

/// The arguments of `systemctl` that stop a unit.
pub fn stop_unit_args(unit: &str) -> (r: Vec<String>)
    ensures
        texts_view(r@) == seq!["--user"@, "stop"@, unit@],
{
    unit_args("stop", unit)
}

/// Whether `systemctl stop` stopped the unit.
pub fn stop_unit_outcome(ran: Result<CommandOutput, String>) -> (r: Result<(), String>)
    ensures
        match r {
            Ok(_) => command_result("systemctl"@, "systemctl stop"@, ran) is Ok,
            Err(message) => command_result("systemctl"@, "systemctl stop"@, ran) == Err::<
                (),
                Seq<char>,
            >(message@),
        },
{
    command_outcome("systemctl", "systemctl stop", ran)
}

/// The arguments of `systemd-run` that run `args` as a transient unit, in place of the one that has
/// its name.
pub fn replace_unit_args(unit: &str, description: &str, args: &[&str]) -> (r: Vec<String>)
    ensures
        texts_view(r@) == seq![
            "--user"@,
            "--unit"@,
            unit@,
            "--replace"@,
            "--description"@,
            description@,
            "--collect"@,
        ] + args@.map_values(|a: &str| a@),
{
    let parts: Vec<&str> = vec![
        "--user",
        "--unit",
        unit,
        "--replace",
        "--description",
        description,
        "--collect",
    ];
    let mut r = owned(parts.as_slice());
    assert(texts_view(r@) =~= parts@.map_values(|p: &str| p@));
    let ghost first = texts_view(r@);
    let mut rest = owned(args);
    let ghost last = texts_view(rest@);
    r.append(&mut rest);
    assert(texts_view(r@) =~= first + last);
    r
}

/// Whether `systemd-run` started the transient unit.
pub fn replace_unit_outcome(ran: Result<CommandOutput, String>) -> (r: Result<(), String>)
    ensures
        match r {
            Ok(_) => command_result("systemd-run"@, "systemd-run"@, ran) is Ok,
            Err(message) => command_result("systemd-run"@, "systemd-run"@, ran) == Err::<
                (),
                Seq<char>,
            >(message@),
        },
{
    command_outcome("systemd-run", "systemd-run", ran)
}

/// The arguments of `curl` that fetch `url`, silently, and fail where the server does.
pub fn get_text_args(url: &str) -> (r: Vec<String>)
    ensures
        texts_view(r@) == seq!["-sf"@, url@],
{
    let parts: Vec<&str> = vec!["-sf", url];
    let r = owned(parts.as_slice());
    assert(texts_view(r@) =~= parts@.map_values(|p: &str| p@));
    r
}

/// The text that `curl` fetched.
pub open spec fn fetched_text(ran: Result<CommandOutput, String>) -> Result<Seq<char>, Seq<char>> {
    match ran {
        Err(error) => Err(not_run("curl"@, error@)),
        Ok(output) => if !output.success {
            Err(failed_with("curl"@, output.stderr@))
        } else if vstd::utf8::valid_utf8(output.stdout@) {
            Ok(vstd::utf8::decode_utf8(output.stdout@))
        } else {
            Err("invalid UTF-8: "@ + utf8_error(output.stdout@))
        },
    }
}

/// The text that `curl` fetched.
pub fn get_text_outcome(ran: Result<CommandOutput, String>) -> (r: Result<String, String>)
    ensures
        match r {
            Ok(body) => fetched_text(ran) == Ok::<Seq<char>, Seq<char>>(body@),
            Err(message) => fetched_text(ran) == Err::<Seq<char>, Seq<char>>(message@),
        },
{
    match ran {
        Ok(output) => if output.success {
            match text::from_utf8(output.stdout.as_slice()) {
                Ok(body) => Ok(body),
                Err(error) => Err("invalid UTF-8: ".to_string().concat(error.as_str())),
            }
        } else {
            Err(failed_message("curl", &output.stderr))
        },
        Err(error) => Err(not_run_message("curl", error)),
    }
}

/// Every command is for the units of the user, and for the unit that is asked about: each verb for its
/// own purpose.
pub proof fn verbs_have_their_purpose(
    unit: &str,
    active: Vec<String>,
    start: Vec<String>,
    stop: Vec<String>,
    show: Vec<String>,
)
    requires
        call_ensures(is_active_args, (unit,), active),
        call_ensures(start_unit_args, (unit,), start),
        call_ensures(stop_unit_args, (unit,), stop),
        call_ensures(show_unit_args, (unit,), show),
    ensures
        active@.len() == 3 && active@[0]@ == "--user"@ && active@[1]@ == "is-active"@
            && active@[2]@ == unit@,
        start@.len() == 3 && start@[0]@ == "--user"@ && start@[1]@ == "start"@ && start@[2]@
            == unit@,
        stop@.len() == 3 && stop@[0]@ == "--user"@ && stop@[1]@ == "stop"@ && stop@[2]@ == unit@,
        show@.len() == 6 && show@[0]@ == "--user"@ && show@[1]@ == "show"@ && show@[2]@ == unit@,
        show@[3]@ == "--property=ActiveState"@ && show@[4]@ == "--property=SubState"@,
        show@[5]@ == "--property=Description"@,
{
    lemma_texts(active@);
    lemma_texts(start@);
    lemma_texts(stop@);
    lemma_texts(show@);
    assert(texts_view(active@).len() == 3);
    assert(texts_view(start@).len() == 3);
    assert(texts_view(stop@).len() == 3);
    assert(texts_view(show@).len() == 6);
}

proof fn lemma_texts(texts: Seq<String>)
    ensures
        texts_view(texts).len() == texts.len(),
        forall|i: int| 0 <= i < texts.len() ==> (#[trigger] texts[i])@ == texts_view(texts)[i],
{
}

/// A transient unit takes the place of the one that has its name, under its description, and runs just
/// the command that it is given.
pub proof fn transient_unit_runs_its_command(
    unit: &str,
    description: &str,
    args: &[&str],
    r: Vec<String>,
)
    requires
        call_ensures(replace_unit_args, (unit, description, args), r),
    ensures
        r@.len() == 7 + args@.len(),
        r@[0]@ == "--user"@,
        r@[1]@ == "--unit"@ && r@[2]@ == unit@,
        r@[3]@ == "--replace"@,
        r@[4]@ == "--description"@ && r@[5]@ == description@,
        r@[6]@ == "--collect"@,
        forall|i: int| 0 <= i < args@.len() ==> r@[7 + i]@ == (#[trigger] args@[i])@,
{
    lemma_texts(r@);
    let texts = texts_view(r@);
    let rest = args@.map_values(|a: &str| a@);
    assert(rest.len() == args@.len());
    assert(texts.len() == 7 + args@.len());
    assert forall|i: int| 0 <= i < args@.len() implies r@[7 + i]@ == (#[trigger] args@[i])@ by {
        assert(texts[7 + i] == rest[i]);
        assert(r@[7 + i]@ == texts[7 + i]);
    }
}

/// A unit is active exactly if the command that asks for that succeeds.
pub proof fn success_means_active(ran: Result<CommandOutput, String>, r: Result<bool, String>)
    requires
        call_ensures(is_active_outcome, (ran,), r),
    ensures
        match (ran, r) {
            (Ok(output), Ok(active)) => active == output.success,
            (Err(error), Err(told)) => told@ == "failed to run "@ + "systemctl"@ + ": "@ + error@,
            _ => false,
        },
{
}

/// Whether the outcome of a command is what it should be: success if it succeeded, and otherwise an
/// error with what it complained of, or with why it did not run.
pub open spec fn done_or_why(
    tool: Seq<char>,
    what: Seq<char>,
    ran: Result<CommandOutput, String>,
    r: Result<(), String>,
) -> bool {
    match (ran, r) {
        (Ok(output), Ok(_)) => output.success,
        (Ok(output), Err(told)) => !output.success && told@ == what + " failed: "@ + utf8_lossy(
            output.stderr@,
        ),
        (Err(error), Err(told)) => told@ == "failed to run "@ + tool + ": "@ + error@,
        _ => false,
    }
}

/// A unit is started, stopped or replaced exactly if the command for that succeeds.
pub proof fn commands_are_done_or_why(
    ran: Result<CommandOutput, String>,
    started: Result<(), String>,
    stopped: Result<(), String>,
    replaced: Result<(), String>,
)
    requires
        call_ensures(start_unit_outcome, (ran,), started),
        call_ensures(stop_unit_outcome, (ran,), stopped),
        call_ensures(replace_unit_outcome, (ran,), replaced),
    ensures
        done_or_why("systemctl"@, "systemctl start"@, ran, started),
        done_or_why("systemctl"@, "systemctl stop"@, ran, stopped),
        done_or_why("systemd-run"@, "systemd-run"@, ran, replaced),
{
}

/// What is fetched is taken from a command that succeeded and printed text, and only from such a one.
pub proof fn fetched_text_comes_from_success(
    ran: Result<CommandOutput, String>,
    r: Result<String, String>,
    url: &str,
    args: Vec<String>,
)
    requires
        call_ensures(get_text_outcome, (ran,), r),
        call_ensures(get_text_args, (url,), args),
    ensures
        match (ran, r) {
            (Ok(output), Ok(body)) => output.success && vstd::utf8::valid_utf8(output.stdout@)
                && body@ == vstd::utf8::decode_utf8(output.stdout@),
            (Ok(output), Err(told)) => if output.success {
                !vstd::utf8::valid_utf8(output.stdout@) && told@ == "invalid UTF-8: "@
                    + utf8_error(output.stdout@)
            } else {
                told@ == "curl"@ + " failed: "@ + utf8_lossy(output.stderr@)
            },
            (Err(error), Err(told)) => told@ == "failed to run "@ + "curl"@ + ": "@ + error@,
            _ => false,
        },
        args@.len() == 2 && args@[0]@ == "-sf"@ && args@[1]@ == url@,
{
    lemma_texts(args@);
    assert(texts_view(args@).len() == 2);
}

/// The properties of a unit are those that the lines of a command that succeeded set, and only those.
pub proof fn shown_properties_come_from_success(
    ran: Result<CommandOutput, String>,
    r: Result<TextTable, String>,
    lines: Seq<Seq<char>>,
    key: Seq<char>,
    value: Seq<char>,
)
    requires
        call_ensures(show_unit_outcome, (ran,), r),
    ensures
        r is Ok <==> (ran matches Ok(output) && output.success && vstd::utf8::valid_utf8(
            output.stdout@,
        )),
        r matches Ok(table) ==> (text::text_lines(vstd::utf8::decode_utf8(ran->Ok_0.stdout@))
            == lines.push(key + seq!['='] + value) && !key.contains('=') ==> table@.contains_key(key)
            && table@[key] == value),
        r matches Err(told) ==> match ran {
            Err(error) => told@ == "failed to run "@ + "systemctl"@ + ": "@ + error@,
            Ok(output) => if output.success {
                told@ == "invalid UTF-8 in systemctl output: "@ + utf8_error(output.stdout@)
            } else {
                told@ == "systemctl show"@ + " failed: "@ + utf8_lossy(output.stderr@)
            },
        },
{
    if !key.contains('=') {
        text::cut_at_the_first_mark(key, '=', value);
        assert(lines.push(key + seq!['='] + value).drop_last() =~= lines);
    }
}

} // verus!
