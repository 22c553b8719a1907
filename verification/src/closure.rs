//! The two multi-step jobs of a deployment, written as state machines that
//! the caller drives: building a job's closure (locally or on a build host)
//! and deploying it to its node (copy, activate, and for a NixOS switch wait
//! for the activation unit). Each step takes what the last command gave and
//! says what to do next.

use vstd::prelude::*;

use crate::deploy::{
    activation_commands, activation_plan, activation_unit_name, as_root, build_output_path,
    first_out_path, is_unit_name, local_view, missing_out_message, nix_ssh_options,
    nix_ssh_options_text, opt_view, remote_view, remote_views, LocalCommand, RemoteCommand,
};
use crate::error::{wrapped, DeployError};
use crate::models::{output_views, BuildResult, JobSpec, SystemType};
use crate::op::{darwin_boot_message, Operation};
use crate::ssh::HostKeyPolicy;
use crate::systemd::{
    next_poll_delay, parse_systemd_state, poll_outcome, poll_verdict, split_lines, systemd_state,
    timed_out_error, timed_out_message, utf8_lossy, PollOutcome, ACTIVATION_TIMEOUT_SECONDS,
    FIRST_POLL_DELAY_SECONDS, MAX_POLL_DELAY_SECONDS,
};
use crate::text::{owned, same_text, views};

verus! {

/// The view of a local command: program, arguments and environment.
pub type LocalView = (Seq<char>, Seq<Seq<char>>, Seq<(Seq<char>, Seq<char>)>);

/// A local `nix` command with the given arguments and, for a remote store,
/// `NIX_SSHOPTS` in its environment.
pub open spec fn nix_view(args: Seq<Seq<char>>, ssh_options: Option<Seq<char>>) -> LocalView {
    (
        "nix"@,
        args,
        match ssh_options {
            Some(o) => seq![("NIX_SSHOPTS"@, o)],
            None => Seq::empty(),
        },
    )
}

fn nix_command(args: Vec<String>, ssh_options: Option<&str>) -> (res: LocalCommand)
    ensures
        local_view(res) == nix_view(
            views(args@),
            match ssh_options {
                Some(o) => Some(o@),
                None => None,
            },
        ),
{
    let mut environment: Vec<(String, String)> = Vec::new();
    match ssh_options {
        Some(o) => {
            environment.push((owned("NIX_SSHOPTS"), owned(o)));
        },
        None => {},
    }
    assert(output_views(environment@) =~= match ssh_options {
        Some(o) => seq![("NIX_SSHOPTS"@, o@)],
        None => Seq::empty(),
    });
    LocalCommand { program: owned("nix"), arguments: args, environment }
}

fn strings2(a: String, b: String) -> (res: Vec<String>)
    ensures
        views(res@) == seq![a@, b@],
{
    let mut v = Vec::new();
    v.push(a);
    v.push(b);
    assert(views(v@) =~= seq![a@, b@]);
    v
}

fn strings4(a: String, b: String, c: String, d: String) -> (res: Vec<String>)
    ensures
        views(res@) == seq![a@, b@, c@, d@],
{
    let mut v = Vec::new();
    v.push(a);
    v.push(b);
    v.push(c);
    v.push(d);
    assert(views(v@) =~= seq![a@, b@, c@, d@]);
    v
}

fn strings5(a: String, b: String, c: String, d: String, e: String) -> (res: Vec<String>)
    ensures
        views(res@) == seq![a@, b@, c@, d@, e@],
{
    let mut v = Vec::new();
    v.push(a);
    v.push(b);
    v.push(c);
    v.push(d);
    v.push(e);
    assert(views(v@) =~= seq![a@, b@, c@, d@, e@]);
    v
}

fn strings6(a: String, b: String, c: String, d: String, e: String, f: String) -> (res: Vec<
    String,
>)
    ensures
        views(res@) == seq![a@, b@, c@, d@, e@, f@],
{
    let mut v = Vec::new();
    v.push(a);
    v.push(b);
    v.push(c);
    v.push(d);
    v.push(e);
    v.push(f);
    assert(views(v@) =~= seq![a@, b@, c@, d@, e@, f@]);
    v
}

// ---------------------------------------------------------------------------
// Building a closure
// ---------------------------------------------------------------------------

/// Where a closure build is.
#[derive(Debug, Clone, Copy, PartialEq, Eq, Structural)]
pub enum BuildStage {
    Start,
    /// `nix build` runs here.
    BuildingLocally,
    /// The derivation is being copied to the build host.
    CopyingTo,
    /// `nix build` runs on the build host's store.
    BuildingRemotely,
    /// The built closure is being copied back from the build host.
    CopyingBack,
    Done,
}

/// What the caller reports to a closure build.
#[derive(Debug)]
pub enum BuildEvent {
    /// Start the build.
    Begin,
    /// The command ran and succeeded.
    Succeeded,
    /// The `nix build --json` command succeeded with these results.
    Built(Vec<BuildResult>),
    /// The command could not run, failed, or gave output that is not JSON.
    Failed(DeployError),
}

/// What a closure build asks the caller to do.
#[derive(Debug)]
pub enum BuildAction {
    /// Run the command and report `Succeeded` or `Failed`.
    Run(LocalCommand),
    /// Run the command, decode its output as `nix build --json` results, and
    /// report `Built` or `Failed`.
    RunJson(LocalCommand),
    /// The build is over: the `out` store path, or why it failed.
    Finish(Result<String, DeployError>),
}

/// Whether a build in `stage` takes `event`.
pub open spec fn build_accepts(stage: BuildStage, event: BuildEvent) -> bool {
    match stage {
        BuildStage::Start => event is Begin,
        BuildStage::BuildingLocally | BuildStage::BuildingRemotely => event is Built
            || event is Failed,
        BuildStage::CopyingTo | BuildStage::CopyingBack => event is Succeeded || event is Failed,
        BuildStage::Done => false,
    }
}

/// The build of one job's closure.
#[derive(Debug)]
pub struct ClosureBuild {
    derivation: String,
    build_host: String,
    store: String,
    remote: bool,
    nix_ssh_options: String,
    output: String,
    stage: BuildStage,
}

impl ClosureBuild {
    /// Where the build is.
    pub closed spec fn stage(&self) -> BuildStage {
        self.stage
    }

    /// The installable that is built: the derivation with all its outputs.
    pub closed spec fn derivation(&self) -> Seq<char> {
        self.derivation@
    }

    /// The build host.
    pub closed spec fn build_host(&self) -> Seq<char> {
        self.build_host@
    }

    /// The build host's store, `ssh-ng://<host>`.
    pub closed spec fn store(&self) -> Seq<char> {
        self.store@
    }

    /// Whether the build runs on a build host rather than locally.
    pub closed spec fn remote(&self) -> bool {
        self.remote
    }

    /// `NIX_SSHOPTS` for the commands that reach the build host.
    pub closed spec fn ssh_options(&self) -> Seq<char> {
        self.nix_ssh_options@
    }

    /// The `out` path that the build host produced, once known.
    pub closed spec fn output(&self) -> Seq<char> {
        self.output@
    }

    /// Where the build is.
    pub fn current_stage(&self) -> (res: BuildStage)
        ensures
            res == self.stage(),
    {
        self.stage
    }

    /// Whether the build takes `event` now.
    pub fn accepts(&self, event: &BuildEvent) -> (res: bool)
        ensures
            res == build_accepts(self.stage(), *event),
    {
        match self.stage {
            BuildStage::Start => matches!(event, BuildEvent::Begin),
            BuildStage::BuildingLocally | BuildStage::BuildingRemotely => matches!(
                event,
                BuildEvent::Built(_) | BuildEvent::Failed(_)
            ),
            BuildStage::CopyingTo | BuildStage::CopyingBack => matches!(
                event,
                BuildEvent::Succeeded | BuildEvent::Failed(_)
            ),
            BuildStage::Done => false,
        }
    }

    /// Advances the build by one event.
    pub fn step(&mut self, event: BuildEvent) -> (action: BuildAction)
        requires
            build_accepts(old(self).stage(), event),
        ensures
            final(self).derivation() == old(self).derivation(),
            final(self).build_host() == old(self).build_host(),
            final(self).store() == old(self).store(),
            final(self).remote() == old(self).remote(),
            final(self).ssh_options() == old(self).ssh_options(),
            (final(self).stage() == BuildStage::Done) == (action is Finish),
            // Local: one `nix build`, whose first result's `out` path is the answer.
            old(self).stage() == BuildStage::Start && !old(self).remote() ==> {
                &&& final(self).stage() == BuildStage::BuildingLocally
                &&& action matches BuildAction::RunJson(c)
                &&& local_view(c) == nix_view(
                    seq!["build"@, "--no-link"@, "--json"@, old(self).derivation()],
                    None,
                )
            },
            old(self).stage() == BuildStage::BuildingLocally ==> {
                &&& final(self).stage() == BuildStage::Done
                &&& action matches BuildAction::Finish(r)
                &&& match event {
                    BuildEvent::Built(results) => match first_out_path(results@) {
                        Some(path) => r matches Ok(p) && p@ == path,
                        None => r matches Err(e) && e.message@ == missing_out_message()
                            && e.context@.len() == 0,
                    },
                    BuildEvent::Failed(e) => r == Err::<String, DeployError>(e),
                    _ => false,
                }
            },
            // Remote: copy the derivation over, build there, copy the result back.
            old(self).stage() == BuildStage::Start && old(self).remote() ==> {
                &&& final(self).stage() == BuildStage::CopyingTo
                &&& action matches BuildAction::Run(c)
                &&& local_view(c) == nix_view(
                    seq!["copy"@, "--to"@, old(self).store(), old(self).derivation()],
                    Some(old(self).ssh_options()),
                )
            },
            old(self).stage() == BuildStage::CopyingTo && event is Succeeded ==> {
                &&& final(self).stage() == BuildStage::BuildingRemotely
                &&& action matches BuildAction::RunJson(c)
                &&& local_view(c) == nix_view(
                    seq![
                        "build"@,
                        "--no-link"@,
                        "--json"@,
                        "--store"@,
                        old(self).store(),
                        old(self).derivation(),
                    ],
                    Some(old(self).ssh_options()),
                )
            },
            old(self).stage() == BuildStage::CopyingTo && event is Failed ==> {
                &&& final(self).stage() == BuildStage::Done
                &&& action matches BuildAction::Finish(Err(f))
                &&& wrapped(f, event->Failed_0, "copy to "@ + old(self).build_host())
            },
            old(self).stage() == BuildStage::BuildingRemotely && event is Built ==> match first_out_path(
                event->Built_0@,
            ) {
                Some(path) => {
                    &&& final(self).stage() == BuildStage::CopyingBack
                    &&& final(self).output() == path
                    &&& action matches BuildAction::Run(c)
                    &&& local_view(c) == nix_view(
                        seq!["copy"@, "--from"@, old(self).store(), path, "--no-check-sigs"@],
                        Some(old(self).ssh_options()),
                    )
                },
                None => {
                    &&& final(self).stage() == BuildStage::Done
                    &&& action matches BuildAction::Finish(Err(e))
                    &&& e.message@ == missing_out_message()
                    &&& e.context@.len() == 0
                },
            },
            old(self).stage() == BuildStage::BuildingRemotely && event is Failed ==> {
                &&& final(self).stage() == BuildStage::Done
                &&& action matches BuildAction::Finish(Err(f))
                &&& wrapped(f, event->Failed_0, "build on "@ + old(self).build_host())
            },
            old(self).stage() == BuildStage::CopyingBack && event is Succeeded ==> {
                &&& final(self).stage() == BuildStage::Done
                &&& action matches BuildAction::Finish(Ok(p))
                &&& p@ == old(self).output()
            },
            old(self).stage() == BuildStage::CopyingBack && event is Failed ==> {
                &&& final(self).stage() == BuildStage::Done
                &&& action matches BuildAction::Finish(Err(f))
                &&& wrapped(f, event->Failed_0, "copy from "@ + old(self).build_host())
            },
    {
        match self.stage {
            BuildStage::Start => {
                if self.remote {
                    self.stage = BuildStage::CopyingTo;
                    let args = strings4(
                        owned("copy"),
                        owned("--to"),
                        self.store.clone(),
                        self.derivation.clone(),
                    );
                    BuildAction::Run(nix_command(args, Some(self.nix_ssh_options.as_str())))
                } else {
                    self.stage = BuildStage::BuildingLocally;
                    let args = strings4(
                        owned("build"),
                        owned("--no-link"),
                        owned("--json"),
                        self.derivation.clone(),
                    );
                    BuildAction::RunJson(nix_command(args, None))
                }
            },
            BuildStage::BuildingLocally => {
                self.stage = BuildStage::Done;
                match event {
                    BuildEvent::Built(results) => BuildAction::Finish(build_output_path(results)),
                    BuildEvent::Failed(e) => BuildAction::Finish(Err(e)),
                    _ => vstd::pervasive::unreached(),
                }
            },
            BuildStage::CopyingTo => {
                match event {
                    BuildEvent::Succeeded => {
                        self.stage = BuildStage::BuildingRemotely;
                        let args = strings6(
                            owned("build"),
                            owned("--no-link"),
                            owned("--json"),
                            owned("--store"),
                            self.store.clone(),
                            self.derivation.clone(),
                        );
                        BuildAction::RunJson(nix_command(args, Some(self.nix_ssh_options.as_str())))
                    },
                    BuildEvent::Failed(e) => {
                        self.stage = BuildStage::Done;
                        let mut context = owned("copy to ");
                        context.append(self.build_host.as_str());
                        BuildAction::Finish(Err(e.with_context(context)))
                    },
                    _ => vstd::pervasive::unreached(),
                }
            },
            BuildStage::BuildingRemotely => {
                match event {
                    BuildEvent::Built(results) => {
                        match build_output_path(results) {
                            Ok(path) => {
                                self.stage = BuildStage::CopyingBack;
                                let args = strings5(
                                    owned("copy"),
                                    owned("--from"),
                                    self.store.clone(),
                                    path.clone(),
                                    owned("--no-check-sigs"),
                                );
                                self.output = path;
                                BuildAction::Run(
                                    nix_command(args, Some(self.nix_ssh_options.as_str())),
                                )
                            },
                            Err(e) => {
                                self.stage = BuildStage::Done;
                                BuildAction::Finish(Err(e))
                            },
                        }
                    },
                    BuildEvent::Failed(e) => {
                        self.stage = BuildStage::Done;
                        let mut context = owned("build on ");
                        context.append(self.build_host.as_str());
                        BuildAction::Finish(Err(e.with_context(context)))
                    },
                    _ => vstd::pervasive::unreached(),
                }
            },
            BuildStage::CopyingBack => {
                self.stage = BuildStage::Done;
                match event {
                    BuildEvent::Succeeded => BuildAction::Finish(Ok(self.output.clone())),
                    BuildEvent::Failed(e) => {
                        let mut context = owned("copy from ");
                        context.append(self.build_host.as_str());
                        BuildAction::Finish(Err(e.with_context(context)))
                    },
                    _ => vstd::pervasive::unreached(),
                }
            },
            BuildStage::Done => vstd::pervasive::unreached(),
        }
    }
}

/// Starts the build of a job's closure (`<drv_path>^*`): locally when the
/// build host is `localhost`, otherwise on the build host's store over
/// `ssh-ng`, with `NIX_SSHOPTS` made from the options already set
/// (`existing_ssh_options`) and the host key policy.
pub fn build_closure(
    spec: &JobSpec,
    build_host: &str,
    host_key_policy: HostKeyPolicy,
    existing_ssh_options: Option<String>,
) -> (res: ClosureBuild)
    ensures
        res.stage() == BuildStage::Start,
        res.derivation() == spec.drv_path@ + "^*"@,
        res.build_host() == build_host@,
        res.remote() == (build_host@ != "localhost"@),
        res.store() == "ssh-ng://"@ + build_host@,
        res.ssh_options() == nix_ssh_options_text(opt_view(existing_ssh_options), host_key_policy),
{
    let mut derivation = spec.drv_path.clone();
    derivation.append("^*");
    let mut store = owned("ssh-ng://");
    store.append(build_host);
    ClosureBuild {
        derivation,
        build_host: owned(build_host),
        store,
        remote: !same_text(build_host, "localhost"),
        nix_ssh_options: nix_ssh_options(existing_ssh_options, host_key_policy),
        output: String::new(),
        stage: BuildStage::Start,
    }
}

// ---------------------------------------------------------------------------
// Deploying a closure
// ---------------------------------------------------------------------------

/// Where a deployment is.
#[derive(Debug, Clone, Copy, PartialEq, Eq, Structural)]
pub enum DeployStage {
    Start,
    /// The closure is being copied to the node.
    Copying,
    /// An activation command runs on the node.
    Activating,
    /// The caller is starting the activation timeout.
    StartingPoll,
    /// The activation unit's state is being asked for.
    Querying,
    /// Waiting before asking again.
    Sleeping,
    Done,
}

/// What the caller reports to a deployment.
#[derive(Debug)]
pub enum DeployEvent {
    /// Start the deployment.
    Begin,
    /// The command ran and succeeded.
    Succeeded,
    /// The command could not run or failed.
    Failed(DeployError),
    /// The activation timeout is running.
    PollStarted,
    /// The activation timeout has passed; nothing was asked.
    PollExpired,
    /// The query ran: its standard output, or none when it failed.
    PollAnswered(Option<Vec<u8>>),
    /// The wait is over.
    Woke,
}

/// What a deployment asks the caller to do.
#[derive(Debug)]
pub enum DeployAction {
    /// Run the command here; report `Succeeded` or `Failed`.
    RunLocal(LocalCommand),
    /// Run the command on the node; report `Succeeded` or `Failed`.
    RunRemote(RemoteCommand),
    /// Start a timeout of this many seconds; report `PollStarted`.
    StartPolling { timeout_seconds: u64 },
    /// If the timeout has passed report `PollExpired`; otherwise run the
    /// command on the node and report `PollAnswered`.
    Query(RemoteCommand),
    /// Wait this many seconds; report `Woke`.
    Sleep { seconds: u64 },
    /// The deployment is over.
    Finish(Result<(), DeployError>),
}

/// Whether a deployment in `stage` takes `event`.
pub open spec fn deploy_accepts(stage: DeployStage, event: DeployEvent) -> bool {
    match stage {
        DeployStage::Start => event is Begin,
        DeployStage::Copying | DeployStage::Activating => event is Succeeded || event is Failed,
        DeployStage::StartingPoll => event is PollStarted,
        DeployStage::Querying => event is PollExpired || event is PollAnswered,
        DeployStage::Sleeping => event is Woke,
        DeployStage::Done => false,
    }
}

/// Whether an activation is followed by waiting for its unit: only a NixOS
/// switch runs in the background.
pub open spec fn waits_for_unit(system: SystemType, op: Operation) -> bool {
    system == SystemType::Nixos && op == Operation::Switch
}

/// The unit state that a query answer reports; none when the query failed.
pub open spec fn answered_state(answer: Option<Vec<u8>>) -> (Option<Seq<char>>, Option<i32>) {
    match answer {
        Some(out) => systemd_state(split_lines(utf8_lossy(out@))),
        None => (None, None),
    }
}

/// The context of every activation error.
pub open spec fn activation_context(target: Seq<char>) -> Seq<char> {
    "activation on "@ + target
}

/// The deployment of one job's built closure to its node.
#[derive(Debug)]
pub struct ClosureDeployment {
    target: String,
    hostname: String,
    user: String,
    system: SystemType,
    operation: Operation,
    output_path: String,
    unit: String,
    nix_ssh_options: String,
    commands: Vec<RemoteCommand>,
    next: usize,
    delay: u64,
    stage: DeployStage,
}

impl ClosureDeployment {
    #[verifier::type_invariant]
    spec fn well_formed(&self) -> bool {
        &&& self.stage == DeployStage::Activating ==> self.next < self.commands.len()
        &&& self.delay <= MAX_POLL_DELAY_SECONDS
    }

    pub closed spec fn stage(&self) -> DeployStage {
        self.stage
    }

    /// The SSH target, `user@hostname`.
    pub closed spec fn target(&self) -> Seq<char> {
        self.target@
    }

    pub closed spec fn hostname(&self) -> Seq<char> {
        self.hostname@
    }

    pub closed spec fn user(&self) -> Seq<char> {
        self.user@
    }

    pub closed spec fn system(&self) -> SystemType {
        self.system
    }

    pub closed spec fn operation(&self) -> Operation {
        self.operation
    }

    /// The store path of the closure.
    pub closed spec fn output(&self) -> Seq<char> {
        self.output_path@
    }

    /// The name of the transient unit that runs a NixOS switch.
    pub closed spec fn unit(&self) -> Seq<char> {
        self.unit@
    }

    /// `NIX_SSHOPTS` for copying the closure.
    pub closed spec fn ssh_options(&self) -> Seq<char> {
        self.nix_ssh_options@
    }

    /// The activation commands, once known.
    pub closed spec fn commands(&self) -> Seq<(Seq<char>, Seq<Seq<char>>)> {
        remote_views(self.commands@)
    }

    /// The activation command that runs now.
    pub closed spec fn next(&self) -> int {
        self.next as int
    }

    /// The wait before the next query, in seconds.
    pub closed spec fn delay(&self) -> u64 {
        self.delay
    }

    /// The same job, output, unit and options.
    pub open spec fn same_job(&self, other: &Self) -> bool {
        &&& self.target() == other.target()
        &&& self.hostname() == other.hostname()
        &&& self.user() == other.user()
        &&& self.system() == other.system()
        &&& self.operation() == other.operation()
        &&& self.output() == other.output()
        &&& self.unit() == other.unit()
        &&& self.ssh_options() == other.ssh_options()
    }

    /// Where the deployment is.
    pub fn current_stage(&self) -> (res: DeployStage)
        ensures
            res == self.stage(),
    {
        self.stage
    }

    /// Whether the deployment takes `event` now.
    pub fn accepts(&self, event: &DeployEvent) -> (res: bool)
        ensures
            res == deploy_accepts(self.stage(), *event),
    {
        match self.stage {
            DeployStage::Start => matches!(event, DeployEvent::Begin),
            DeployStage::Copying | DeployStage::Activating => matches!(
                event,
                DeployEvent::Succeeded | DeployEvent::Failed(_)
            ),
            DeployStage::StartingPoll => matches!(event, DeployEvent::PollStarted),
            DeployStage::Querying => matches!(
                event,
                DeployEvent::PollExpired | DeployEvent::PollAnswered(_)
            ),
            DeployStage::Sleeping => matches!(event, DeployEvent::Woke),
            DeployStage::Done => false,
        }
    }

    fn query_command(&self) -> (res: RemoteCommand)
        ensures
            remote_view(res) == ("systemctl"@, seq!["show"@, self.unit()]),
    {
        RemoteCommand { program: owned("systemctl"), arguments: strings2(owned("show"), self.unit.clone()) }
    }

    fn activation_error(&self, e: DeployError) -> (res: DeployError)
        ensures
            wrapped(res, e, activation_context(self.target())),
    {
        let mut context = owned("activation on ");
        context.append(self.target.as_str());
        e.with_context(context)
    }

    /// Advances the deployment by one event.
    pub fn step(&mut self, event: DeployEvent) -> (action: DeployAction)
        requires
            deploy_accepts(old(self).stage(), event),
        ensures
            final(self).same_job(old(self)),
            (final(self).stage() == DeployStage::Done) == (action is Finish),
            // Copy the closure to the node's store.
            old(self).stage() == DeployStage::Start ==> {
                &&& final(self).stage() == DeployStage::Copying
                &&& action matches DeployAction::RunLocal(c)
                &&& local_view(c) == nix_view(
                    seq!["copy"@, "--to"@, "ssh-ng://"@ + old(self).target(), old(self).output(), "--no-check-sigs"@],
                    Some(old(self).ssh_options()),
                )
            },
            old(self).stage() == DeployStage::Copying && event is Failed ==> {
                &&& final(self).stage() == DeployStage::Done
                &&& action matches DeployAction::Finish(Err(f))
                &&& wrapped(f, event->Failed_0, "copy to "@ + old(self).target())
            },
            // Then run the activation commands one after the other.
            old(self).stage() == DeployStage::Copying && event is Succeeded ==> match activation_plan(
                old(self).system(),
                old(self).output(),
                old(self).operation(),
                old(self).unit(),
            ) {
                Some(plan) => {
                    &&& final(self).stage() == DeployStage::Activating
                    &&& final(self).commands() == as_root(old(self).user(), plan)
                    &&& final(self).next() == 0
                    &&& action matches DeployAction::RunRemote(c)
                    &&& remote_view(c) == final(self).commands()[0]
                },
                None => {
                    &&& final(self).stage() == DeployStage::Done
                    &&& action matches DeployAction::Finish(Err(e))
                    &&& e.message@ == darwin_boot_message(old(self).hostname())
                    &&& e.context@.len() == 0
                },
            },
            old(self).stage() == DeployStage::Activating && event is Failed ==> {
                &&& final(self).stage() == DeployStage::Done
                &&& action matches DeployAction::Finish(Err(f))
                &&& wrapped(f, event->Failed_0, activation_context(old(self).target()))
            },
            old(self).stage() == DeployStage::Activating && event is Succeeded ==> {
                &&& final(self).commands() == old(self).commands()
                &&& if old(self).next() + 1 < old(self).commands().len() {
                    &&& final(self).stage() == DeployStage::Activating
                    &&& final(self).next() == old(self).next() + 1
                    &&& action matches DeployAction::RunRemote(c)
                    &&& remote_view(c) == old(self).commands()[old(self).next() + 1]
                } else if waits_for_unit(old(self).system(), old(self).operation()) {
                    &&& final(self).stage() == DeployStage::StartingPoll
                    &&& final(self).delay() == FIRST_POLL_DELAY_SECONDS
                    &&& action matches DeployAction::StartPolling { timeout_seconds }
                    &&& timeout_seconds == ACTIVATION_TIMEOUT_SECONDS
                } else {
                    &&& final(self).stage() == DeployStage::Done
                    &&& action matches DeployAction::Finish(Ok(()))
                }
            },
            // A NixOS switch: ask for the unit's state until it is over or time is up,
            // waiting 5 s, then twice as long each time, up to a minute.
            (old(self).stage() == DeployStage::StartingPoll || old(self).stage() == DeployStage::Sleeping) ==> {
                &&& final(self).stage() == DeployStage::Querying
                &&& final(self).delay() == old(self).delay()
                &&& action matches DeployAction::Query(c)
                &&& remote_view(c) == ("systemctl"@, seq!["show"@, old(self).unit()])
            },
            old(self).stage() == DeployStage::Querying && event is PollExpired ==> {
                &&& final(self).stage() == DeployStage::Done
                &&& action matches DeployAction::Finish(Err(f))
                &&& f.message@ == timed_out_message(old(self).target(), old(self).unit())
                &&& f.contexts() == seq![activation_context(old(self).target())]
            },
            old(self).stage() == DeployStage::Querying && event is PollAnswered ==> match poll_verdict(
                old(self).target(),
                answered_state(event->PollAnswered_0).0,
                answered_state(event->PollAnswered_0).1,
            ) {
                None => {
                    &&& final(self).stage() == DeployStage::Sleeping
                    &&& action matches DeployAction::Sleep { seconds }
                    &&& seconds == old(self).delay()
                    &&& final(self).delay() == if 2 * old(self).delay() < MAX_POLL_DELAY_SECONDS {
                        2 * old(self).delay()
                    } else {
                        MAX_POLL_DELAY_SECONDS as int
                    }
                },
                Some(Ok(())) => {
                    &&& final(self).stage() == DeployStage::Done
                    &&& action matches DeployAction::Finish(Ok(()))
                },
                Some(Err(m)) => {
                    &&& final(self).stage() == DeployStage::Done
                    &&& action matches DeployAction::Finish(Err(f))
                    &&& f.message@ == m
                    &&& f.contexts() == seq![activation_context(old(self).target())]
                },
            },
    {
        proof {
            use_type_invariant(&*self);
        }
        match self.stage {
            DeployStage::Start => {
                self.stage = DeployStage::Copying;
                let mut store = owned("ssh-ng://");
                store.append(self.target.as_str());
                let args = strings5(
                    owned("copy"),
                    owned("--to"),
                    store,
                    self.output_path.clone(),
                    owned("--no-check-sigs"),
                );
                DeployAction::RunLocal(nix_command(args, Some(self.nix_ssh_options.as_str())))
            },
            DeployStage::Copying => {
                match event {
                    DeployEvent::Failed(e) => {
                        self.stage = DeployStage::Done;
                        let mut context = owned("copy to ");
                        context.append(self.target.as_str());
                        DeployAction::Finish(Err(e.with_context(context)))
                    },
                    DeployEvent::Succeeded => {
                        let spec = JobSpec {
                            hostname: self.hostname.clone(),
                            system: self.system,
                            user: self.user.clone(),
                            drv_path: String::new(),
                        };
                        match activation_commands(
                            &spec,
                            self.output_path.as_str(),
                            self.operation,
                            self.unit.as_str(),
                        ) {
                            Ok(commands) => {
                                proof {
                                    let plan = activation_plan(
                                        self.system,
                                        self.output_path@,
                                        self.operation,
                                        self.unit@,
                                    );
                                    assert(plan is Some);
                                    assert(plan->Some_0.len() == 2);
                                    assert(remote_views(commands@).len() == 2);
                                }
                                let first = commands[0].duplicate();
                                self.commands = commands;
                                self.next = 0;
                                self.stage = DeployStage::Activating;
                                DeployAction::RunRemote(first)
                            },
                            Err(e) => {
                                self.stage = DeployStage::Done;
                                DeployAction::Finish(Err(e))
                            },
                        }
                    },
                    _ => vstd::pervasive::unreached(),
                }
            },
            DeployStage::Activating => {
                match event {
                    DeployEvent::Failed(e) => {
                        self.stage = DeployStage::Done;
                        DeployAction::Finish(Err(self.activation_error(e)))
                    },
                    DeployEvent::Succeeded => {
                        if self.next + 1 < self.commands.len() {
                            let command = self.commands[self.next + 1].duplicate();
                            self.next = self.next + 1;
                            DeployAction::RunRemote(command)
                        } else if self.system == SystemType::Nixos && self.operation == Operation::Switch {
                            self.delay = FIRST_POLL_DELAY_SECONDS;
                            self.stage = DeployStage::StartingPoll;
                            DeployAction::StartPolling { timeout_seconds: ACTIVATION_TIMEOUT_SECONDS }
                        } else {
                            self.stage = DeployStage::Done;
                            DeployAction::Finish(Ok(()))
                        }
                    },
                    _ => vstd::pervasive::unreached(),
                }
            },
            DeployStage::StartingPoll | DeployStage::Sleeping => {
                self.stage = DeployStage::Querying;
                DeployAction::Query(self.query_command())
            },
            DeployStage::Querying => {
                match event {
                    DeployEvent::PollExpired => {
                        self.stage = DeployStage::Done;
                        let e = timed_out_error(self.target.as_str(), self.unit.as_str());
                        DeployAction::Finish(Err(self.activation_error(e)))
                    },
                    DeployEvent::PollAnswered(answer) => {
                        let (sub_state, exit_status) = match answer {
                            Some(out) => parse_systemd_state(out.as_slice()),
                            None => (None, None),
                        };
                        match poll_outcome(self.target.as_str(), &sub_state, exit_status) {
                            PollOutcome::Succeeded => {
                                self.stage = DeployStage::Done;
                                DeployAction::Finish(Ok(()))
                            },
                            PollOutcome::Failed(e) => {
                                self.stage = DeployStage::Done;
                                DeployAction::Finish(Err(self.activation_error(e)))
                            },
                            PollOutcome::Pending => {
                                let seconds = self.delay;
                                self.delay = next_poll_delay(self.delay);
                                self.stage = DeployStage::Sleeping;
                                DeployAction::Sleep { seconds }
                            },
                        }
                    },
                    _ => vstd::pervasive::unreached(),
                }
            },
            DeployStage::Done => vstd::pervasive::unreached(),
        }
    }
}

/// Starts the deployment of the closure at `output_path` to the job's node
/// with the given operation. The closure is copied with `NIX_SSHOPTS` made
/// from the options already set (`existing_ssh_options`) and the host key
/// policy; a NixOS switch runs in a freshly named transient unit.
pub fn deploy_closure(
    spec: &JobSpec,
    output_path: &str,
    operation: Operation,
    host_key_policy: HostKeyPolicy,
    existing_ssh_options: Option<String>,
) -> (res: ClosureDeployment)
    ensures
        res.stage() == DeployStage::Start,
        res.target() == spec.target_view(),
        res.hostname() == spec.hostname@,
        res.user() == spec.user@,
        res.system() == spec.system,
        res.operation() == operation,
        res.output() == output_path@,
        is_unit_name(res.unit()),
        res.ssh_options() == nix_ssh_options_text(opt_view(existing_ssh_options), host_key_policy),
{
    ClosureDeployment {
        target: spec.target(),
        hostname: spec.hostname.clone(),
        user: spec.user.clone(),
        system: spec.system,
        operation,
        output_path: owned(output_path),
        unit: activation_unit_name(),
        nix_ssh_options: nix_ssh_options(existing_ssh_options, host_key_policy),
        commands: Vec::new(),
        next: 0,
        delay: FIRST_POLL_DELAY_SECONDS,
        stage: DeployStage::Start,
    }
}

} // verus!
