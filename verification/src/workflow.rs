//! Choosing and ordering the jobs of a deployment.

use vstd::prelude::*;

use crate::cli::CommonArgs;
use crate::error::{wrapped, DeployError};
use crate::models::{JobMap, JobSpec};
use crate::names::{entry_views, names_of, selector, sorted_names};
use crate::op::{supports, validate, Operation};
use crate::ssh::HostKeyPolicy;
use crate::text::{list_contains, owned, views};

verus! {

/// The message for a requested node that the flake does not declare.
pub open spec fn missing_node_message(node: Seq<char>) -> Seq<char> {
    "node '"@ + node + "' not found in flake"@
}

/// The warning for a skipped node that the flake does not declare.
pub open spec fn unknown_skip_message(node: Seq<char>) -> Seq<char> {
    "ignoring unknown node '"@ + node + "' in --skip"@
}

/// The jobs kept by the `--skip` and `nodes` filters.
pub open spec fn kept_jobs(jobs: &JobMap, common: &CommonArgs) -> Seq<(Seq<char>, JobSpec)> {
    jobs.pairs().filter(selector(views(common.skip@), views(common.nodes@)))
}

/// The names in `--skip` that are not jobs, in the order given.
pub open spec fn unknown_skips(jobs: &JobMap, common: &CommonArgs) -> Seq<Seq<char>> {
    views(common.skip@).filter(|s: Seq<char>| !jobs.has(s))
}

/// Every requested node is a job.
pub open spec fn nodes_known(jobs: &JobMap, common: &CommonArgs) -> bool {
    forall|i: int| 0 <= i < common.nodes@.len() ==> jobs.has(#[trigger] common.nodes@[i]@)
}

/// Apply the `--skip` and `nodes` filters to the evaluated jobs. Fails on the
/// first requested node that is not a job; otherwise also returns the
/// skipped names that are not jobs.
pub fn filter_jobs(jobs: JobMap, common: &CommonArgs) -> (res: Result<
    (JobMap, Vec<String>),
    DeployError,
>)
    ensures
        res is Ok <==> nodes_known(&jobs, common),
        res is Ok ==> forall|i: int|
            0 <= i < common.nodes@.len() ==> jobs.keys().contains(#[trigger] common.nodes@[i]@),
        (exists|i: int|
            0 <= i < common.nodes@.len() && !jobs.keys().contains(#[trigger] common.nodes@[i]@))
            ==> res is Err,
        res matches Ok((kept, unknown)) ==> kept.pairs() == kept_jobs(&jobs, common) && views(
            unknown@,
        ) == unknown_skips(&jobs, common),
        res matches Err(e) ==> exists|i: int|
            0 <= i < common.nodes@.len() && !jobs.has(#[trigger] common.nodes@[i]@) && (forall|
                k: int,
            |
                0 <= k < i ==> jobs.has(common.nodes@[k]@)) && e.message@ == missing_node_message(
                common.nodes@[i]@,
            ) && e.context@.len() == 0,
{
    let ghost pred = |s: Seq<char>| !jobs.has(s);
    let mut unknown: Vec<String> = Vec::new();
    let mut i: usize = 0;
    while i < common.skip.len()
        invariant
            i <= common.skip@.len(),
            pred == (|s: Seq<char>| !jobs.has(s)),
            views(unknown@) == views(common.skip@).take(i as int).filter(pred),
        decreases common.skip@.len() - i,
    {
        let name = &common.skip[i];
        let ghost before = views(unknown@);
        proof {
            assert(views(common.skip@).take(i + 1) =~= views(common.skip@).take(i as int).push(
                name@,
            ));
            views(common.skip@).take(i as int).lemma_filter_push(name@, pred);
        }
        if !jobs.contains_key(name.as_str()) {
            unknown.push(name.clone());
            assert(views(unknown@) =~= before.push(name@));
        }
        i = i + 1;
    }
    assert(views(common.skip@).take(i as int) =~= views(common.skip@));
    let mut k: usize = 0;
    while k < common.nodes.len()
        invariant
            k <= common.nodes@.len(),
            forall|j: int| 0 <= j < k ==> jobs.has(#[trigger] common.nodes@[j]@),
        decreases common.nodes@.len() - k,
    {
        let node = &common.nodes[k];
        if !jobs.contains_key(node.as_str()) {
            let mut message = owned("node '");
            message.append(node.as_str());
            message.append("' not found in flake");
            return Err(DeployError::new(message));
        }
        k = k + 1;
    }
    let kept = jobs.select(&common.skip, &common.nodes);
    Ok((kept, unknown))
}

/// The warnings printed while preparing the jobs and the jobs to deploy, or
/// the error that stops the deployment.
#[derive(Debug)]
pub struct Prepared {
    pub warnings: Vec<String>,
    pub jobs: Result<JobMap, DeployError>,
}

/// Filter the jobs, then check that they all accept the operation. The
/// warnings name the skipped nodes that are not jobs; they are given also
/// when the check fails, and not when the filtering fails.
pub fn prepare_jobs(jobs: JobMap, common: &CommonArgs, operation: Operation) -> (res: Prepared)
    ensures
        !nodes_known(&jobs, common) ==> res.warnings@.len() == 0 && res.jobs is Err,
        nodes_known(&jobs, common) ==> {
            &&& views(res.warnings@) == unknown_skips(&jobs, common).map_values(
                |n: Seq<char>| unknown_skip_message(n),
            )
            &&& (res.jobs is Ok <==> forall|i: int|
                0 <= i < kept_jobs(&jobs, common).len() ==> supports(
                    #[trigger] kept_jobs(&jobs, common)[i].1.system,
                    operation,
                ))
            &&& res.jobs matches Ok(kept) ==> kept.pairs() == kept_jobs(&jobs, common)
        },
{
    match filter_jobs(jobs, common) {
        Err(e) => Prepared { warnings: Vec::new(), jobs: Err(e) },
        Ok((kept, unknown)) => {
            let mut warnings: Vec<String> = Vec::new();
            let mut i: usize = 0;
            while i < unknown.len()
                invariant
                    i <= unknown@.len(),
                    views(warnings@) =~= views(unknown@).take(i as int).map_values(
                        |n: Seq<char>| unknown_skip_message(n),
                    ),
                decreases unknown@.len() - i,
            {
                let mut message = owned("ignoring unknown node '");
                message.append(unknown[i].as_str());
                message.append("' in --skip");
                let ghost before = views(warnings@);
                warnings.push(message);
                proof {
                    let f = |n: Seq<char>| unknown_skip_message(n);
                    assert(views(unknown@).take(i + 1) =~= views(unknown@).take(i as int).push(
                        unknown@[i as int]@,
                    ));
                    assert(views(unknown@).take(i + 1).map_values(f) =~= views(unknown@).take(
                        i as int,
                    ).map_values(f).push(f(unknown@[i as int]@)));
                    assert(views(warnings@) =~= before.push(f(unknown@[i as int]@)));
                }
                i = i + 1;
            }
            assert(views(unknown@).take(i as int) =~= views(unknown@));
            match validate(&kept, operation) {
                Ok(()) => Prepared { warnings, jobs: Ok(kept) },
                Err(e) => Prepared { warnings, jobs: Err(e) },
            }
        },
    }
}

/// The host key policy that the options ask for.
pub fn host_key_policy(common: &CommonArgs) -> (res: HostKeyPolicy)
    ensures
        res == (if common.accept_new_host_keys {
            HostKeyPolicy::AcceptNew
        } else {
            HostKeyPolicy::Strict
        }),
{
    if common.accept_new_host_keys {
        HostKeyPolicy::AcceptNew
    } else {
        HostKeyPolicy::Strict
    }
}

/// The job names in sorted order.
pub fn sorted_job_names(jobs: &JobMap) -> (res: Vec<String>)
    ensures
        views(res@) == jobs.keys(),
        sorted_names(views(res@)),
{
    jobs.names()
}

/// The jobs in sorted order of their names.
pub fn sorted_jobs(jobs: JobMap) -> (res: Vec<(String, JobSpec)>)
    ensures
        entry_views(res@) == jobs.pairs(),
        sorted_names(names_of(entry_views(res@))),
{
    jobs.into_entries()
}

/// The label of a deployment: `<name> -> <user>@<hostname>`.
pub fn deployment_label(name: &str, spec: &JobSpec) -> (res: String)
    ensures
        res@ == name@ + " -> "@ + spec.target_view(),
{
    let mut res = owned(name);
    res.append(" -> ");
    let target = spec.target();
    res.append(target.as_str());
    res
}

/// The error of a job whose closure could not be built: the build's error
/// with the context `building <name>`.
pub fn build_failure(name: &str, error: DeployError) -> (res: DeployError)
    ensures
        wrapped(res, error, "building "@ + name@),
{
    let mut context = owned("building ");
    context.append(name);
    error.with_context(context)
}

/// The message when at least one deployment failed.
pub open spec fn deployment_failed_message() -> Seq<char> {
    "deployment failed"@
}

/// The outcome of the deploying phase from the outcome of each job's
/// deployment: a failure when any of them failed.
pub fn deployment_outcome(results: &Vec<Result<(), DeployError>>) -> (res: Result<(), DeployError>)
    ensures
        res is Ok <==> forall|i: int| 0 <= i < results@.len() ==> #[trigger] results@[i] is Ok,
        res matches Err(e) ==> e.message@ == deployment_failed_message() && e.context@.len() == 0,
{
    let mut i: usize = 0;
    while i < results.len()
        invariant
            i <= results@.len(),
            forall|j: int| 0 <= j < i ==> #[trigger] results@[j] is Ok,
        decreases results@.len() - i,
    {
        if results[i].is_err() {
            return Err(DeployError::new(owned("deployment failed")));
        }
        i = i + 1;
    }
    Ok(())
}

/// The line that lists one node: its name and where it is deployed.
pub open spec fn listing_line(entry: (Seq<char>, JobSpec)) -> Seq<char> {
    entry.0 + " -> "@ + entry.1.target_view()
}

/// What `list` shows: one line per node, in name order.
pub fn node_listing(jobs: &JobMap) -> (res: Vec<String>)
    ensures
        views(res@) == jobs.pairs().map_values(|e: (Seq<char>, JobSpec)| listing_line(e)),
        res@.len() == jobs.pairs().len(),
        forall|i: int|
            0 <= i < res@.len() ==> (#[trigger] res@[i])@ == jobs.pairs()[i].0 + " -> "@
                + jobs.pairs()[i].1.user@ + "@"@ + jobs.pairs()[i].1.hostname@,
{
    let mut res: Vec<String> = Vec::new();
    let mut i: usize = 0;
    while i < jobs.len()
        invariant
            i <= jobs.pairs().len(),
            views(res@) =~= jobs.pairs().take(i as int).map_values(
                |e: (Seq<char>, JobSpec)| listing_line(e),
            ),
        decreases jobs.pairs().len() - i,
    {
        let (name, spec) = jobs.entry(i);
        let line = deployment_label(name.as_str(), spec);
        let ghost before = views(res@);
        res.push(line);
        proof {
            let f = |e: (Seq<char>, JobSpec)| listing_line(e);
            assert(jobs.pairs().take(i + 1) =~= jobs.pairs().take(i as int).push(
                jobs.pairs()[i as int],
            ));
            assert(jobs.pairs().take(i + 1).map_values(f) =~= jobs.pairs().take(
                i as int,
            ).map_values(f).push(f(jobs.pairs()[i as int])));
            assert(views(res@) =~= before.push(f(jobs.pairs()[i as int])));
        }
        i = i + 1;
    }
    assert(jobs.pairs().take(i as int) =~= jobs.pairs());
    assert forall|k: int| 0 <= k < res@.len() implies (#[trigger] res@[k])@ == jobs.pairs()[k].0
        + " -> "@ + jobs.pairs()[k].1.user@ + "@"@ + jobs.pairs()[k].1.hostname@ by {
        assert(views(res@)[k] == res@[k]@);
        crate::laws::law_listing_shows_target(jobs.pairs()[k]);
    }
    res
}

} // verus!
