//! Properties of the library as a whole, proved over the specifications that
//! the functions' contracts use.

use vstd::prelude::*;

use crate::deploy::{activation_plan, as_root, root_command_view};
use crate::models::{parsed_system, system_name, JobSpec, NixEvalJobsResult, SystemType};
use crate::names::{names_of, selected, selector};
use crate::op::{supports, Operation};
use crate::deploy::opt_view;
use crate::evaluate::{configured, node_system_type, recorded_system, resolved_job, NodeMetadata};
use crate::text::has_substring;
use crate::systemd::{poll_verdict, MAX_POLL_DELAY_SECONDS};
use crate::deploy::nix_ssh_options_text;
use crate::ssh::{ssh_option_text, HostKeyPolicy};
use crate::cli::CommonArgs;
use crate::models::JobMap;
use crate::workflow::{listing_line, nodes_known};

verus! {

/// Switching is valid on every kind of system.
pub proof fn law_switch_supported_everywhere(system: SystemType)
    ensures
        supports(system, Operation::Switch),
{
}

/// Validation accepts exactly the jobs that can be activated: a system
/// supports an operation if and only if there is an activation plan for it.
pub proof fn law_validation_matches_activation(
    system: SystemType,
    output: Seq<char>,
    op: Operation,
    unit: Seq<char>,
) ensures
    supports(system, op) <==> activation_plan(system, output, op, unit) is Some,
{
}

/// Every activation first makes the closure the system profile, which is
/// what the next boot uses; then runs one activation command.
pub proof fn law_activation_sets_profile_first(
    system: SystemType,
    output: Seq<char>,
    op: Operation,
    unit: Seq<char>,
)
    requires
        activation_plan(system, output, op, unit) is Some,
    ensures
        activation_plan(system, output, op, unit)->Some_0.len() == 2,
        activation_plan(system, output, op, unit)->Some_0[0] == (
            "/run/current-system/sw/bin/nix-env"@,
            seq!["-p"@, "/nix/var/nix/profiles/system"@, "--set"@, output],
        ),
{
}

/// `boot` does not activate the configuration now: on NixOS it only asks
/// `switch-to-configuration` to install it as the boot default.
pub proof fn law_boot_only_installs(output: Seq<char>, unit: Seq<char>)
    ensures
        activation_plan(SystemType::Nixos, output, Operation::Boot, unit) == Some(
            seq![
                (
                    "/run/current-system/sw/bin/nix-env"@,
                    seq!["-p"@, "/nix/var/nix/profiles/system"@, "--set"@, output],
                ),
                (output + "/bin/switch-to-configuration"@, seq!["boot"@]),
            ],
        ),
{
}

/// A NixOS switch runs `switch-to-configuration switch` in the given
/// transient unit, in the background, so that the deployment can wait for
/// the unit.
pub proof fn law_nixos_switch_runs_in_unit(output: Seq<char>, unit: Seq<char>)
    ensures
        activation_plan(SystemType::Nixos, output, Operation::Switch, unit)->Some_0[1] == (
            "/run/current-system/sw/bin/systemd-run"@,
            seq![
                "--unit"@,
                unit,
                "--remain-after-exit"@,
                "--no-block"@,
                "--"@,
                output + "/bin/switch-to-configuration"@,
                "switch"@,
            ],
        ),
{
}

/// For a user other than root every command goes through `sudo -n`, which
/// never prompts for a password; root runs the commands unchanged.
pub proof fn law_privilege_escalation_never_prompts(
    user: Seq<char>,
    cmds: Seq<(Seq<char>, Seq<Seq<char>>)>,
)
    ensures
        user == "root"@ ==> as_root(user, cmds) == cmds,
        user != "root"@ ==> forall|i: int|
            0 <= i < cmds.len() ==> {
                &&& (#[trigger] as_root(user, cmds)[i]).0 == "sudo"@
                &&& as_root(user, cmds)[i].1 == seq!["-n"@, cmds[i].0] + cmds[i].1
            },
{
    if user == "root"@ {
        assert(as_root(user, cmds) =~= cmds);
    }
}

/// A job is deployed if and only if the flake declares it, it is not
/// skipped, and either no nodes are named or it is one of them; `--skip`
/// wins over a named node.
pub proof fn law_selection<V>(
    jobs: Seq<(Seq<char>, V)>,
    skip: Seq<Seq<char>>,
    nodes: Seq<Seq<char>>,
    name: Seq<char>,
)
    ensures
        names_of(jobs.filter(selector::<V>(skip, nodes))).contains(name)
            <==> (names_of(jobs).contains(name) && !skip.contains(name) && (nodes.len() == 0
            || nodes.contains(name))),
{
    let pred = selector::<V>(skip, nodes);
    let kept = jobs.filter(pred);
    if names_of(kept).contains(name) {
        let i = choose|i: int| 0 <= i < names_of(kept).len() && names_of(kept)[i] == name;
        assert(kept.contains(kept[i]));
        jobs.lemma_filter_contains_rev(pred, kept[i]);
        let j = choose|j: int| 0 <= j < jobs.len() && jobs[j] == kept[i];
        assert(names_of(jobs)[j] == name);
        jobs.lemma_filter_pred(pred, i);
    }
    if names_of(jobs).contains(name) && selected(name, skip, nodes) {
        let j = choose|j: int| 0 <= j < names_of(jobs).len() && names_of(jobs)[j] == name;
        assert(jobs.contains(jobs[j]));
        assert(pred(jobs[j]));
        jobs.lemma_filter_contains(pred, j);
        let i = choose|i: int| 0 <= i < kept.len() && kept[i] == jobs[j];
        assert(names_of(kept)[i] == name);
    }
}

/// Deploying keeps each job as evaluated: every kept entry is an entry of
/// the evaluated jobs, in the same order.
pub proof fn law_selection_keeps_entries<V>(
    jobs: Seq<(Seq<char>, V)>,
    skip: Seq<Seq<char>>,
    nodes: Seq<Seq<char>>,
)
    ensures
        forall|i: int|
            0 <= i < jobs.filter(selector::<V>(skip, nodes)).len()
                ==> jobs.contains(
                #[trigger] jobs.filter(selector::<V>(skip, nodes))[i],
            ),
{
    let pred = selector::<V>(skip, nodes);
    assert forall|i: int| 0 <= i < jobs.filter(pred).len() implies jobs.contains(
        #[trigger] jobs.filter(pred)[i],
    ) by {
        assert(jobs.filter(pred).contains(jobs.filter(pred)[i]));
        jobs.lemma_filter_contains_rev(pred, jobs.filter(pred)[i]);
    }
}

/// With no nodes named and none skipped, every job is deployed.
pub proof fn law_default_deploys_all<V>(jobs: Seq<(Seq<char>, V)>)
    ensures
        jobs.filter(selector::<V>(Seq::empty(), Seq::empty())) == jobs,
    decreases jobs.len(),
{
    reveal(Seq::filter);
    let pred = selector::<V>(Seq::empty(), Seq::empty());
    if jobs.len() > 0 {
        law_default_deploys_all(jobs.drop_last());
        assert(jobs.drop_last().push(jobs.last()) =~= jobs);
    }
    assert(jobs.filter(pred) =~= jobs);
}

/// A system type's name reads back as that system type.
pub proof fn law_system_name_round_trip(t: SystemType)
    ensures
        parsed_system(system_name(t)) == Some(t),
{
    reveal_strlit("nixos");
    reveal_strlit("darwin");
    assert("darwin"@ != "nixos"@) by {
        assert("darwin"@.len() != "nixos"@.len());
    }
}

/// Every job made from the flake has a user to connect as.
pub proof fn law_jobs_have_users(
    name: Seq<char>,
    basics: Option<(Seq<char>, Seq<char>)>,
    metadata: NodeMetadata,
    rs: Seq<NixEvalJobsResult>,
)
    requires
        resolved_job(name, basics, metadata, rs) is Ok,
    ensures
        resolved_job(name, basics, metadata, rs)->Ok_0.2.len() > 0,
{
}

/// A node's hostname is assumed from its name when it is not configured
/// (missing, null or empty).
pub proof fn law_hostname_defaults_to_name(
    name: Seq<char>,
    basics: Option<(Seq<char>, Seq<char>)>,
    metadata: NodeMetadata,
    rs: Seq<NixEvalJobsResult>,
)
    requires
        resolved_job(name, basics, metadata, rs) is Ok,
        configured(opt_view(metadata.hostname)) is None,
    ensures
        resolved_job(name, basics, metadata, rs)->Ok_0.0 == name,
{
}

/// A node whose type is not configured (missing, null or empty) takes it
/// from the system that `nix-eval-jobs` reported: darwin for a darwin
/// system, otherwise nixos for a linux one.
pub proof fn law_type_follows_system(
    node_type: Option<Seq<char>>,
    name: Seq<char>,
    rs: Seq<NixEvalJobsResult>,
)
    requires
        configured(node_type) is None,
    ensures
        has_substring(recorded_system(name, rs), "darwin"@) ==> node_system_type(node_type, name, rs)
            == Ok::<SystemType, Seq<char>>(SystemType::Darwin),
        !has_substring(recorded_system(name, rs), "darwin"@) && has_substring(
            recorded_system(name, rs),
            "linux"@,
        ) ==> node_system_type(node_type, name, rs) == Ok::<SystemType, Seq<char>>(
            SystemType::Nixos,
        ),
{
    law_system_name_round_trip(SystemType::Darwin);
    law_system_name_round_trip(SystemType::Nixos);
}

/// The waits between polls never shrink and never exceed a minute.
pub proof fn law_poll_delay_bounded(delay: u64)
    requires
        0 < delay <= MAX_POLL_DELAY_SECONDS,
    ensures
        ({
            let next = if 2 * delay < MAX_POLL_DELAY_SECONDS {
                2 * delay
            } else {
                MAX_POLL_DELAY_SECONDS as int
            };
            delay <= next <= MAX_POLL_DELAY_SECONDS
        }),
{
}

/// A unit that systemd reports as failed is never a successful activation,
/// whatever its exit status; the only success is a unit that exited with
/// status 0 (or no status), and such a unit always is one.
pub proof fn law_failed_unit_never_succeeds(
    target: Seq<char>,
    sub_state: Option<Seq<char>>,
    status: Option<i32>,
)
    ensures
        poll_verdict(target, Some("failed"@), status) matches Some(Err(_)),
        poll_verdict(target, sub_state, status) == Some(Ok::<(), Seq<char>>(()))
            ==> sub_state == Some("exited"@) && (status is None || status == Some(0i32)),
        sub_state == Some("exited"@) && (status is None || status == Some(0i32)) ==> poll_verdict(
            target,
            sub_state,
            status,
        ) == Some(Ok::<(), Seq<char>>(())),
{
    reveal_strlit("failed");
    reveal_strlit("exited");
    assert("failed"@ != "exited"@) by {
        assert("failed"@[0] != "exited"@[0]);
    }
}

/// A node whose configured type is `darwin` is a darwin job and one whose
/// configured type is `nixos` is a NixOS job, whatever `nix-eval-jobs`
/// reported for it.
pub proof fn law_configured_type_wins(
    node_type: Option<Seq<char>>,
    name: Seq<char>,
    rs: Seq<NixEvalJobsResult>,
)
    ensures
        node_type == Some("darwin"@) ==> node_system_type(node_type, name, rs) == Ok::<
            SystemType,
            Seq<char>,
        >(SystemType::Darwin),
        node_type == Some("nixos"@) ==> node_system_type(node_type, name, rs) == Ok::<
            SystemType,
            Seq<char>,
        >(SystemType::Nixos),
{
    reveal_strlit("darwin");
    reveal_strlit("nixos");
    assert("darwin"@ != "nixos"@) by {
        assert("darwin"@.len() != "nixos"@.len());
    }
}

/// `NIX_SSHOPTS` always carries the chosen host key policy: it ends with
/// that policy's option, which is the whole value when nothing else is set;
/// options already set come first, unchanged. Strict checking is
/// `StrictHostKeyChecking=yes`, accepting new keys is
/// `StrictHostKeyChecking=accept-new`.
pub proof fn law_ssh_options_carry_policy(existing: Option<Seq<char>>, policy: HostKeyPolicy)
    ensures
        ssh_option_text(HostKeyPolicy::Strict) == "-o StrictHostKeyChecking=yes"@,
        ssh_option_text(HostKeyPolicy::AcceptNew) == "-o StrictHostKeyChecking=accept-new"@,
        nix_ssh_options_text(None, policy) == ssh_option_text(policy),
        nix_ssh_options_text(existing, policy).len() >= ssh_option_text(policy).len(),
        nix_ssh_options_text(existing, policy).skip(
            nix_ssh_options_text(existing, policy).len() - ssh_option_text(policy).len(),
        ) == ssh_option_text(policy),
        existing matches Some(e) ==> nix_ssh_options_text(existing, policy).take(e.len() as int)
            == e || nix_ssh_options_text(existing, policy) == ssh_option_text(policy),
{
    let r = nix_ssh_options_text(existing, policy);
    let o = ssh_option_text(policy);
    match existing {
        Some(e) => {
            if r != o {
                assert(r.take(e.len() as int) =~= e);
            }
        },
        None => {},
    }
    assert(r.skip(r.len() - o.len()) =~= o);
}

/// Selection succeeds only when every node named on the command line is
/// declared by the flake: one unknown node anywhere in the list refuses the
/// whole selection.
pub proof fn law_named_nodes_must_exist(jobs: JobMap, common: CommonArgs)
    ensures
        nodes_known(&jobs, &common) <==> forall|i: int|
            0 <= i < common.nodes@.len() ==> jobs.keys().contains(#[trigger] common.nodes@[i]@),
{
}

/// `list` shows a node as its name, ` -> `, and the SSH target it is
/// deployed to: the job's user, `@`, and the job's hostname.
pub proof fn law_listing_shows_target(entry: (Seq<char>, JobSpec))
    ensures
        listing_line(entry) == entry.0 + " -> "@ + entry.1.user@ + "@"@ + entry.1.hostname@,
{
    assert(listing_line(entry) =~= entry.0 + " -> "@ + entry.1.user@ + "@"@ + entry.1.hostname@);
}

} // verus!
