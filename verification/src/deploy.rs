//! Building a job's closure and activating it on its node: the commands that
//! run, the order in which they run, and how their answers are read.

use vstd::prelude::*;

use crate::error::DeployError;
use crate::models::{find_output, lookup_output, output_views, BuildResult, JobSpec, SystemType};
use crate::op::{darwin_boot_error, darwin_boot_message, operation_name, Operation};
use crate::ssh::{ssh_option_text, HostKeyPolicy};
use crate::systemd::{
    parse_systemd_state, poll_outcome, poll_verdict, split_lines, systemd_state, timed_out_error,
    timed_out_message, utf8_lossy, PollOutcome, ACTIVATION_TIMEOUT_SECONDS,
    FIRST_POLL_DELAY_SECONDS, MAX_POLL_DELAY_SECONDS, next_poll_delay,
};
use crate::text::{
    blank, chars_of, has_prefix, i32_to_text, int_decimal, is_blank, owned, parse_i32, parse_int,
    same_text, starts_with, trim, trimmed, views,
};

verus! {

// ---------------------------------------------------------------------------
// Commands
// ---------------------------------------------------------------------------

/// A command to run on a node over SSH.
#[derive(Debug)]
pub struct RemoteCommand {
    pub program: String,
    pub arguments: Vec<String>,
}

/// A command to run on this machine, with extra environment variables.
#[derive(Debug)]
pub struct LocalCommand {
    pub program: String,
    pub arguments: Vec<String>,
    pub environment: Vec<(String, String)>,
}

/// The view of a remote command: its program and its arguments.
pub open spec fn remote_view(c: RemoteCommand) -> (Seq<char>, Seq<Seq<char>>) {
    (c.program@, views(c.arguments@))
}

/// The views of a sequence of remote commands.
pub open spec fn remote_views(cs: Seq<RemoteCommand>) -> Seq<(Seq<char>, Seq<Seq<char>>)> {
    cs.map_values(|c: RemoteCommand| remote_view(c))
}

/// The view of a local command: program, arguments, environment.
pub open spec fn local_view(c: LocalCommand) -> (
    Seq<char>,
    Seq<Seq<char>>,
    Seq<(Seq<char>, Seq<char>)>,
) {
    (c.program@, views(c.arguments@), output_views(c.environment@))
}

/// A fresh copy of a list of strings.
pub fn copy_strings(v: &Vec<String>) -> (res: Vec<String>)
    ensures
        views(res@) == views(v@),
{
    let mut res: Vec<String> = Vec::new();
    let mut i: usize = 0;
    while i < v.len()
        invariant
            i <= v.len(),
            views(res@) =~= views(v@).take(i as int),
        decreases v.len() - i,
    {
        let ghost before = views(res@);
        let c = v[i].clone();
        assert(c@ == views(v@)[i as int]);
        res.push(c);
        assert(views(res@) =~= before.push(views(v@)[i as int]));
        assert(views(v@).take(i + 1) =~= views(v@).take(i as int).push(views(v@)[i as int]));
        i = i + 1;
    }
    assert(views(v@).take(i as int) =~= views(v@));
    res
}

impl RemoteCommand {
    /// A copy of the command.
    pub fn duplicate(&self) -> (res: RemoteCommand)
        ensures
            remote_view(res) == remote_view(*self),
    {
        RemoteCommand { program: self.program.clone(), arguments: copy_strings(&self.arguments) }
    }
}

/// The command that runs `program` with `arguments` as root: directly when
/// the node's user is root, through non-interactive `sudo` otherwise.
pub open spec fn root_command_view(user: Seq<char>, program: Seq<char>, args: Seq<Seq<char>>) -> (
    Seq<char>,
    Seq<Seq<char>>,
) {
    if user == "root"@ {
        (program, args)
    } else {
        ("sudo"@, seq!["-n"@, program] + args)
    }
}

/// Wraps a command so that it runs as root on the job's node.
pub fn root_command(spec: &JobSpec, program: &str, arguments: Vec<String>) -> (res: RemoteCommand)
    ensures
        remote_view(res) == root_command_view(spec.user@, program@, views(arguments@)),
{
    if same_text(spec.user.as_str(), "root") {
        return RemoteCommand { program: owned(program), arguments };
    }
    let mut sudo_arguments: Vec<String> = Vec::new();
    sudo_arguments.push(owned("-n"));
    sudo_arguments.push(owned(program));
    let mut rest = arguments;
    let ghost args_view = views(rest@);
    let mut i: usize = 0;
    let n0 = rest.len();
    let ghost n = rest@.len();
    assert(views(rest@).skip(0) =~= views(rest@));
    while rest.len() > 0
        invariant
            views(sudo_arguments@) =~= seq!["-n"@, program@] + args_view.take(i as int),
            views(rest@) =~= args_view.skip(i as int),
            i + rest@.len() == n,
            n == args_view.len(),
            n == n0,
        decreases rest.len(),
    {
        assert(rest@[0]@ == views(rest@)[0]);
        let ghost before = views(sudo_arguments@);
        let ghost old_rest = rest@;
        let a = rest.remove(0);
        assert(a@ == args_view[i as int]);
        assert(rest@ =~= old_rest.drop_first());
        assert(views(rest@) =~= views(old_rest).drop_first());
        assert(views(rest@) =~= args_view.skip(i + 1));
        sudo_arguments.push(a);
        assert(views(sudo_arguments@) =~= before.push(args_view[i as int]));
        assert(args_view.take(i + 1) =~= args_view.take(i as int).push(args_view[i as int]));
        i = i + 1;
    }
    assert(args_view.take(i as int) =~= args_view);
    RemoteCommand { program: owned("sudo"), arguments: sudo_arguments }
}

// ---------------------------------------------------------------------------
// Activation
// ---------------------------------------------------------------------------

/// The commands that activate a closure at `output` on a node, before each
/// is wrapped by `root_command_view`: first point the system profile at the
/// closure, then activate it as the operation asks. `None` for darwin with
/// `boot`, which nix-darwin cannot do.
pub open spec fn activation_plan(
    system: SystemType,
    output: Seq<char>,
    op: Operation,
    unit: Seq<char>,
) -> Option<Seq<(Seq<char>, Seq<Seq<char>>)>> {
    let update_profile = (
        "/run/current-system/sw/bin/nix-env"@,
        seq!["-p"@, "/nix/var/nix/profiles/system"@, "--set"@, output],
    );
    match (system, op) {
        (SystemType::Darwin, Operation::Switch) => Some(
            seq![update_profile, (output + "/activate"@, Seq::empty())],
        ),
        (SystemType::Darwin, Operation::Boot) => None,
        (SystemType::Nixos, Operation::Switch) => Some(
            seq![
                update_profile,
                (
                    "/run/current-system/sw/bin/systemd-run"@,
                    seq![
                        "--unit"@,
                        unit,
                        "--remain-after-exit"@,
                        "--no-block"@,
                        "--"@,
                        output + "/bin/switch-to-configuration"@,
                        operation_name(op),
                    ],
                ),
            ],
        ),
        (SystemType::Nixos, Operation::Boot) => Some(
            seq![
                update_profile,
                (output + "/bin/switch-to-configuration"@, seq![operation_name(op)]),
            ],
        ),
    }
}

/// The planned commands, each made to run as root for `user`.
pub open spec fn as_root(user: Seq<char>, cmds: Seq<(Seq<char>, Seq<Seq<char>>)>) -> Seq<
    (Seq<char>, Seq<Seq<char>>),
> {
    cmds.map_values(|c: (Seq<char>, Seq<Seq<char>>)| root_command_view(user, c.0, c.1))
}

/// The remote commands that activate `output_path` on the job's node with
/// the given operation; a NixOS switch runs in the transient systemd unit
/// `activation_unit`. Fails for darwin with `boot`.
pub fn activation_commands(
    spec: &JobSpec,
    output_path: &str,
    operation: Operation,
    activation_unit: &str,
) -> (res: Result<Vec<RemoteCommand>, DeployError>)
    ensures
        match activation_plan(spec.system, output_path@, operation, activation_unit@) {
            Some(plan) => res matches Ok(cmds) && remote_views(cmds@) == as_root(spec.user@, plan),
            None => res matches Err(e) && e.message@ == darwin_boot_message(spec.hostname@)
                && e.context@.len() == 0,
        },
{
    let mut profile_args: Vec<String> = Vec::new();
    profile_args.push(owned("-p"));
    profile_args.push(owned("/nix/var/nix/profiles/system"));
    profile_args.push(owned("--set"));
    profile_args.push(owned(output_path));
    assert(views(profile_args@) =~= seq!["-p"@, "/nix/var/nix/profiles/system"@, "--set"@, output_path@]);
    let update_profile = root_command(spec, "/run/current-system/sw/bin/nix-env", profile_args);
    let activate = match (spec.system, operation) {
        (SystemType::Darwin, Operation::Switch) => {
            let mut program = owned(output_path);
            program.append("/activate");
            let none: Vec<String> = Vec::new();
            assert(views(none@) =~= Seq::<Seq<char>>::empty());
            root_command(spec, program.as_str(), none)
        },
        (SystemType::Darwin, Operation::Boot) => {
            return Err(darwin_boot_error(spec.hostname.as_str()));
        },
        (SystemType::Nixos, Operation::Switch) => {
            let mut switch = owned(output_path);
            switch.append("/bin/switch-to-configuration");
            let mut args: Vec<String> = Vec::new();
            args.push(owned("--unit"));
            args.push(owned(activation_unit));
            args.push(owned("--remain-after-exit"));
            args.push(owned("--no-block"));
            args.push(owned("--"));
            args.push(switch);
            args.push(operation.to_string());
            assert(views(args@) =~= seq![
                "--unit"@,
                activation_unit@,
                "--remain-after-exit"@,
                "--no-block"@,
                "--"@,
                output_path@ + "/bin/switch-to-configuration"@,
                operation_name(operation),
            ]);
            root_command(spec, "/run/current-system/sw/bin/systemd-run", args)
        },
        (SystemType::Nixos, Operation::Boot) => {
            let mut program = owned(output_path);
            program.append("/bin/switch-to-configuration");
            let mut args: Vec<String> = Vec::new();
            args.push(operation.to_string());
            assert(views(args@) =~= seq![operation_name(operation)]);
            root_command(spec, program.as_str(), args)
        },
    };
    let mut commands: Vec<RemoteCommand> = Vec::new();
    commands.push(update_profile);
    commands.push(activate);
    proof {
        let plan = activation_plan(spec.system, output_path@, operation, activation_unit@)->Some_0;
        assert(remote_views(commands@) =~= as_root(spec.user@, plan));
    }
    Ok(commands)
}

// ---------------------------------------------------------------------------
// Build results
// ---------------------------------------------------------------------------

/// The message when `nix build --json` reports no `out` output.
pub open spec fn missing_out_message() -> Seq<char> {
    "build result missing 'out' output"@
}

/// The `out` path of the first build result, if both exist.
pub open spec fn first_out_path(results: Seq<BuildResult>) -> Option<Seq<char>> {
    if results.len() == 0 {
        None
    } else {
        lookup_output(output_views(results[0].outputs@), "out"@)
    }
}

/// The `out` store path of the first entry of `nix build --json`.
pub fn build_output_path(results: Vec<BuildResult>) -> (res: Result<String, DeployError>)
    ensures
        match first_out_path(results@) {
            Some(path) => res matches Ok(p) && p@ == path,
            None => res matches Err(e) && e.message@ == missing_out_message() && e.context@.len()
                == 0,
        },
{
    if results.len() == 0 {
        return Err(DeployError::new(owned("build result missing 'out' output")));
    }
    match find_output(&results[0].outputs, "out") {
        Some(path) => Ok(path),
        None => Err(DeployError::new(owned("build result missing 'out' output"))),
    }
}

// ---------------------------------------------------------------------------
// SSH options
// ---------------------------------------------------------------------------

/// `NIX_SSHOPTS` for nix's own SSH connections: the options already in the
/// environment, if not blank, followed by the host key option.
pub open spec fn nix_ssh_options_text(existing: Option<Seq<char>>, policy: HostKeyPolicy) -> Seq<
    char,
> {
    match existing {
        Some(e) if !is_blank(e) => e + " "@ + ssh_option_text(policy),
        _ => ssh_option_text(policy),
    }
}

/// The view of an optional string.
pub open spec fn opt_view(o: Option<String>) -> Option<Seq<char>> {
    match o {
        Some(s) => Some(s@),
        None => None,
    }
}

/// The value for `NIX_SSHOPTS`, given its value in the environment.
pub fn nix_ssh_options(existing: Option<String>, policy: HostKeyPolicy) -> (res: String)
    ensures
        res@ == nix_ssh_options_text(opt_view(existing), policy),
        existing is None ==> res@ == ssh_option_text(policy),
        res@.len() >= ssh_option_text(policy).len(),
        res@.skip(res@.len() - ssh_option_text(policy).len()) == ssh_option_text(policy),
{
    let option = policy.nix_ssh_option();
    match existing {
        Some(e) => {
            if !blank(e.as_str()) {
                let mut res = e;
                res.append(" ");
                res.append(option);
                res
            } else {
                owned(option)
            }
        },
        None => owned(option),
    }
}

// ---------------------------------------------------------------------------
// Activation unit names
// ---------------------------------------------------------------------------

/// A lowercase hexadecimal digit.
pub open spec fn is_lower_hex(c: char) -> bool {
    ('0' <= c && c <= '9') || ('a' <= c && c <= 'f')
}

/// Calls `uuid::Uuid::new_v4` and formats the result with `simple()`: the
/// contract claims 32 lowercase hexadecimal digits, which is the format of
/// `Simple`; which digits come out is random and not stated.
#[verifier::external_body]
fn random_uuid_simple() -> (res: String)
    ensures
        res@.len() == 32,
        forall|i: int| 0 <= i < 32 ==> is_lower_hex(#[trigger] res@[i]),
{
    uuid::Uuid::new_v4().simple().to_string()
}

/// The prefix of every activation unit name.
pub open spec fn unit_prefix() -> Seq<char> {
    "blzrd-activate-"@
}

/// A well-formed activation unit name: the prefix and 32 lowercase
/// hexadecimal digits.
pub open spec fn is_unit_name(name: Seq<char>) -> bool {
    &&& name.len() == unit_prefix().len() + 32
    &&& name.take(unit_prefix().len() as int) == unit_prefix()
    &&& forall|i: int| unit_prefix().len() <= i < name.len() ==> is_lower_hex(#[trigger] name[i])
}

/// A fresh name for the transient systemd unit of an activation.
pub fn activation_unit_name() -> (res: String)
    ensures
        is_unit_name(res@),
{
    let mut res = owned("blzrd-activate-");
    let id = random_uuid_simple();
    let ghost p = res@;
    res.append(id.as_str());
    proof {
        assert(res@.take(p.len() as int) =~= p);
        assert forall|i: int| p.len() <= i < res@.len() implies is_lower_hex(#[trigger] res@[i]) by {
            assert(res@[i] == id@[i - p.len()]);
        }
    }
    res
}

} // verus!
