//! Reading the flake's `blzrd.nodes`: the records of `nix-eval-jobs`, the
//! per-node metadata, and the job specifications made from them.

use vstd::prelude::*;

use crate::deploy::{opt_view, LocalCommand};
use crate::error::DeployError;
use crate::models::{
    JobMap, find_output, lookup_output, output_views, parsed_system, unsupported_system_message, JobSpec,
    NixEvalJobsResult, SystemType,
};
use crate::names::{sorted_names, NameMap};
use crate::text::{contains_text, has_substring, owned, same_text, views};

verus! {

/// Progress of the evaluation, reported as it happens.
#[derive(Debug)]
pub enum EvaluationProgress {
    /// `nix-eval-jobs` has evaluated the node's output.
    JobEvaluated { name: String },
    /// The node's metadata is read and its job is complete.
    MetadataResolved { name: String },
}

// ---------------------------------------------------------------------------
// Commands
// ---------------------------------------------------------------------------

/// The flake attribute that lists the nodes.
pub open spec fn nodes_attribute(cfg: Seq<char>) -> Seq<char> {
    cfg + "#blzrd.nodes"@
}

/// `nix-eval-jobs` over the flake's nodes, keeping GC roots in
/// `gc_roots_dir`.
pub fn eval_jobs_command(cfg: &str, gc_roots_dir: &str) -> (res: LocalCommand)
    ensures
        res.program@ == "nix-eval-jobs"@,
        views(res.arguments@) == seq![
            "--gc-roots-dir"@,
            gc_roots_dir@,
            "--force-recurse"@,
            "--flake"@,
            nodes_attribute(cfg@),
        ],
        res.environment@.len() == 0,
{
    let mut reference = owned(cfg);
    reference.append("#blzrd.nodes");
    let mut arguments: Vec<String> = Vec::new();
    arguments.push(owned("--gc-roots-dir"));
    arguments.push(owned(gc_roots_dir));
    arguments.push(owned("--force-recurse"));
    arguments.push(owned("--flake"));
    arguments.push(reference);
    assert(views(arguments@) =~= seq![
        "--gc-roots-dir"@,
        gc_roots_dir@,
        "--force-recurse"@,
        "--flake"@,
        nodes_attribute(cfg@),
    ]);
    LocalCommand { program: owned("nix-eval-jobs"), arguments, environment: Vec::new() }
}

/// The Nix function that projects a node onto the metadata the deployment
/// reads, with empty strings for what the node leaves out.
pub open spec fn node_metadata_projection() -> Seq<char> {
    "node: { hostname = node.hostname or \"\"; user = node.user or \"\"; type = node.type or \"\"; }"@
}

/// `nix eval --json` of one node's metadata.
pub fn node_metadata_command(cfg: &str, name: &str) -> (res: LocalCommand)
    ensures
        res.program@ == "nix"@,
        views(res.arguments@) == seq![
            "eval"@,
            "--json"@,
            "--apply"@,
            node_metadata_projection(),
            nodes_attribute(cfg@) + "."@ + name@,
        ],
        res.environment@.len() == 0,
{
    let mut reference = owned(cfg);
    reference.append("#blzrd.nodes.");
    reference.append(name);
    proof {
        reveal_strlit("#blzrd.nodes.");
        reveal_strlit("#blzrd.nodes");
        reveal_strlit(".");
        assert("#blzrd.nodes."@ =~= "#blzrd.nodes"@ + "."@);
        assert(reference@ =~= nodes_attribute(cfg@) + "."@ + name@);
    }
    let mut arguments: Vec<String> = Vec::new();
    arguments.push(owned("eval"));
    arguments.push(owned("--json"));
    arguments.push(owned("--apply"));
    arguments.push(
        owned(
            "node: { hostname = node.hostname or \"\"; user = node.user or \"\"; type = node.type or \"\"; }",
        ),
    );
    arguments.push(reference);
    assert(views(arguments@) =~= seq![
        "eval"@,
        "--json"@,
        "--apply"@,
        node_metadata_projection(),
        nodes_attribute(cfg@) + "."@ + name@,
    ]);
    LocalCommand { program: owned("nix"), arguments, environment: Vec::new() }
}

/// The directory under which GC roots are kept: `$XDG_CACHE_HOME` when set
/// and not empty, else `$HOME/.cache`; `None` when neither can be had.
pub open spec fn cache_home_text(xdg: Option<Seq<char>>, home: Option<Seq<char>>) -> Option<
    Seq<char>,
> {
    match xdg {
        Some(x) if x.len() > 0 => Some(x),
        _ => match home {
            Some(h) => Some(h + "/.cache"@),
            None => None,
        },
    }
}

/// The cache directory, given `XDG_CACHE_HOME` and `HOME`.
pub fn cache_home(xdg_cache_home: Option<String>, home: Option<String>) -> (res: Option<String>)
    ensures
        opt_view(res) == cache_home_text(opt_view(xdg_cache_home), opt_view(home)),
{
    match xdg_cache_home {
        Some(x) => {
            if x.as_str().unicode_len() > 0 {
                return Some(x);
            }
        },
        None => {},
    }
    match home {
        Some(h) => {
            let mut res = h;
            res.append("/.cache");
            Some(res)
        },
        None => None,
    }
}

// ---------------------------------------------------------------------------
// nix-eval-jobs records
// ---------------------------------------------------------------------------

/// The first element of a record's attribute path, if any.
pub open spec fn first_attr(r: NixEvalJobsResult) -> Option<Seq<char>> {
    match r.attr_path {
        Some(p) if p@.len() > 0 => Some(p@[0]@),
        _ => None,
    }
}

/// The node a record is about: the first element of its attribute path, or
/// its attribute.
pub open spec fn record_name(r: NixEvalJobsResult) -> Seq<char> {
    match first_attr(r) {
        Some(n) => n,
        None => r.attr@,
    }
}

/// The name under which an evaluated record is reported.
pub fn evaluated_job_name(result: &NixEvalJobsResult) -> (res: String)
    ensures
        res@ == record_name(*result),
{
    match &result.attr_path {
        Some(path) => {
            if path.len() > 0 {
                return path[0].clone();
            }
        },
        None => {},
    }
    result.attr.clone()
}

/// `Debug` of a list of strings (`["a", "b"]`).
pub uninterp spec fn debug_strings(items: Seq<Seq<char>>) -> Seq<char>;

/// Formats a list of strings with `Debug` (`format!("{:?}", ..)` on a
/// `Vec<String>`). The contract only names the result `debug_strings` of
/// the strings; the quoting and escaping that `Debug` applies are not stated.
#[verifier::external_body]
fn debug_list(items: &Vec<String>) -> (res: String)
    ensures
        res@ == debug_strings(views(items@)),
{
    format!("{:?}", items)
}

/// What one record gives: the node's name with its `out` path and
/// derivation path (empty when missing), or the message of what is wrong
/// with the record.
pub open spec fn record_basics(r: NixEvalJobsResult) -> Result<
    (Seq<char>, (Seq<char>, Seq<char>)),
    Seq<char>,
> {
    match r.error {
        Some(e) => Err("job "@ + r.attr@ + ": "@ + e@),
        None => match r.attr_path {
            None => Err("job "@ + r.attr@ + ": missing attr_path"@),
            Some(path) => if path@.len() < 2 {
                Err("job "@ + r.attr@ + ": malformed attr_path: "@ + debug_strings(views(path@)))
            } else {
                let name = path@[0]@;
                match r.outputs {
                    None => Err("job "@ + name + ": missing outputs"@),
                    Some(outputs) => match lookup_output(output_views(outputs@), "out"@) {
                        None => Err("job "@ + name + ": missing 'out' output"@),
                        Some(out) => Ok(
                            (
                                name,
                                (
                                    out,
                                    match r.drv_path {
                                        Some(d) => d@,
                                        None => Seq::empty(),
                                    },
                                ),
                            ),
                        ),
                    },
                }
            },
        },
    }
}

/// The basics of all records by node name (a later record of the same node
/// wins), or the message of the first record that is wrong.
pub open spec fn all_basics(rs: Seq<NixEvalJobsResult>) -> Result<
    Map<Seq<char>, (Seq<char>, Seq<char>)>,
    Seq<char>,
>
    decreases rs.len(),
{
    if rs.len() == 0 {
        Ok(Map::empty())
    } else {
        match all_basics(rs.drop_last()) {
            Err(m) => Err(m),
            Ok(m) => match record_basics(rs.last()) {
                Err(e) => Err(e),
                Ok((name, v)) => Ok(m.insert(name, v)),
            },
        }
    }
}

/// The view of a map of string pairs.
pub open spec fn pair_map_view(m: Map<Seq<char>, (String, String)>) -> Map<
    Seq<char>,
    (Seq<char>, Seq<char>),
> {
    m.map_values(|v: (String, String)| (v.0@, v.1@))
}

fn record_basics_of(r: &NixEvalJobsResult) -> (res: Result<(String, (String, String)), DeployError>)
    ensures
        match record_basics(*r) {
            Ok((name, v)) => res matches Ok((n, w)) && n@ == name && (w.0@, w.1@) == v,
            Err(m) => res matches Err(e) && e.message@ == m && e.context@.len() == 0,
        },
{
    match &r.error {
        Some(e) => {
            let mut message = owned("job ");
            message.append(r.attr.as_str());
            message.append(": ");
            message.append(e.as_str());
            return Err(DeployError::new(message));
        },
        None => {},
    }
    let path = match &r.attr_path {
        Some(p) => p,
        None => {
            let mut message = owned("job ");
            message.append(r.attr.as_str());
            message.append(": missing attr_path");
            return Err(DeployError::new(message));
        },
    };
    if path.len() < 2 {
        let mut message = owned("job ");
        message.append(r.attr.as_str());
        message.append(": malformed attr_path: ");
        let shown = debug_list(path);
        message.append(shown.as_str());
        return Err(DeployError::new(message));
    }
    let name = path[0].clone();
    let outputs = match &r.outputs {
        Some(o) => o,
        None => {
            let mut message = owned("job ");
            message.append(name.as_str());
            message.append(": missing outputs");
            return Err(DeployError::new(message));
        },
    };
    let out = match find_output(outputs, "out") {
        Some(o) => o,
        None => {
            let mut message = owned("job ");
            message.append(name.as_str());
            message.append(": missing 'out' output");
            return Err(DeployError::new(message));
        },
    };
    let drv_path = match &r.drv_path {
        Some(d) => d.clone(),
        None => String::new(),
    };
    Ok((name, (out, drv_path)))
}

/// First pass: the `out` path and derivation path of each node, or the
/// error of the first record that is wrong.
pub fn collect_basics(results: &Vec<NixEvalJobsResult>) -> (res: Result<
    NameMap<(String, String)>,
    DeployError,
>)
    ensures
        match all_basics(results@) {
            Ok(m) => res matches Ok(b) && pair_map_view(b.as_map()) == m,
            Err(msg) => res matches Err(e) && e.message@ == msg && e.context@.len() == 0,
        },
{
    let mut basics: NameMap<(String, String)> = NameMap::new();
    let mut i: usize = 0;
    assert(results@.take(0) =~= Seq::<NixEvalJobsResult>::empty());
    assert(pair_map_view(basics.as_map()) =~= Map::empty());
    while i < results.len()
        invariant
            i <= results.len(),
            all_basics(results@.take(i as int)) == Ok::<
                Map<Seq<char>, (Seq<char>, Seq<char>)>,
                Seq<char>,
            >(pair_map_view(basics.as_map())),
        decreases results.len() - i,
    {
        assert(results@.take(i + 1).drop_last() =~= results@.take(i as int));
        assert(results@.take(i + 1).last() == results@[i as int]);
        match record_basics_of(&results[i]) {
            Err(e) => {
                proof {
                    lemma_all_basics_error(results@, i as int);
                }
                return Err(e);
            },
            Ok((name, value)) => {
                let ghost before = basics.as_map();
                let ghost v = (value.0@, value.1@);
                basics.insert(name, value);
                assert(pair_map_view(basics.as_map()) =~= pair_map_view(before).insert(
                    record_basics(results@[i as int])->Ok_0.0,
                    v,
                ));
            },
        }
        i = i + 1;
    }
    assert(results@.take(i as int) =~= results@);
    Ok(basics)
}

/// Once a record is wrong, the first wrong record decides.
proof fn lemma_all_basics_error(rs: Seq<NixEvalJobsResult>, i: int)
    requires
        0 <= i < rs.len(),
        all_basics(rs.take(i)) is Ok,
        record_basics(rs[i]) is Err,
    ensures
        all_basics(rs) == Err::<Map<Seq<char>, (Seq<char>, Seq<char>)>, Seq<char>>(
            record_basics(rs[i])->Err_0,
        ),
    decreases rs.len(),
{
    if i == rs.len() - 1 {
        assert(rs.drop_last() =~= rs.take(i));
    } else {
        assert(rs.drop_last().take(i) =~= rs.take(i));
        lemma_all_basics_error(rs.drop_last(), i);
    }
}

// ---------------------------------------------------------------------------
// System types
// ---------------------------------------------------------------------------

/// The `system` of the first record about `name` (empty when there is none
/// or it has no system).
pub open spec fn recorded_system(name: Seq<char>, rs: Seq<NixEvalJobsResult>) -> Seq<char>
    decreases rs.len(),
{
    if rs.len() == 0 {
        Seq::empty()
    } else if first_attr(rs[0]) == Some(name) {
        match rs[0].system {
            Some(s) => s@,
            None => Seq::empty(),
        }
    } else {
        recorded_system(name, rs.drop_first())
    }
}

/// The type a system string implies: darwin for a `*-darwin` system, nixos
/// for a `*-linux` one; the message otherwise.
pub open spec fn inferred_type(name: Seq<char>, system: Seq<char>) -> Result<Seq<char>, Seq<char>> {
    if has_substring(system, "darwin"@) {
        Ok("darwin"@)
    } else if has_substring(system, "linux"@) {
        Ok("nixos"@)
    } else {
        Err("job "@ + name + ": unknown system type: "@ + system)
    }
}

/// The system type name of `name`, inferred from what `nix-eval-jobs`
/// reported for it.
pub fn infer_system_type(name: &str, results: &Vec<NixEvalJobsResult>) -> (res: Result<
    String,
    DeployError,
>)
    ensures
        match inferred_type(name@, recorded_system(name@, results@)) {
            Ok(t) => res matches Ok(s) && s@ == t,
            Err(m) => res matches Err(e) && e.message@ == m && e.context@.len() == 0,
        },
{
    let mut system = String::new();
    let mut i: usize = 0;
    assert(results@.skip(0) =~= results@);
    while i < results.len()
        invariant_except_break
            i <= results.len(),
            recorded_system(name@, results@) == recorded_system(name@, results@.skip(i as int)),
            system@ == Seq::<char>::empty(),
        ensures
            system@ == recorded_system(name@, results@),
        decreases results.len() - i,
    {
        let r = &results[i];
        let ghost rest = results@.skip(i as int);
        assert(rest[0] == *r);
        let matches_name = match &r.attr_path {
            Some(path) => path.len() > 0 && same_text(path[0].as_str(), name),
            None => false,
        };
        if matches_name {
            assert(first_attr(rest[0]) == Some(name@));
            match &r.system {
                Some(s) => {
                    system = s.clone();
                },
                None => {},
            }
            break;
        }
        assert(rest.drop_first() =~= results@.skip(i + 1));
        i = i + 1;
    }
    if contains_text(system.as_str(), "darwin") {
        Ok(owned("darwin"))
    } else if contains_text(system.as_str(), "linux") {
        Ok(owned("nixos"))
    } else {
        let mut message = owned("job ");
        message.append(name);
        message.append(": unknown system type: ");
        message.append(system.as_str());
        Err(DeployError::new(message))
    }
}

// ---------------------------------------------------------------------------
// Node metadata
// ---------------------------------------------------------------------------

/// What a node declares beside its output (each possibly missing).
#[derive(Debug)]
pub struct NodeMetadata {
    pub hostname: Option<String>,
    pub user: Option<String>,
    pub node_type: Option<String>,
}

impl Default for NodeMetadata {
    fn default() -> (res: Self)
        ensures
            res.hostname is None,
            res.user is None,
            res.node_type is None,
    {
        NodeMetadata { hostname: None, user: None, node_type: None }
    }
}

/// A configured value, unless it is missing or empty.
pub open spec fn configured(v: Option<Seq<char>>) -> Option<Seq<char>> {
    match v {
        Some(s) if s.len() > 0 => Some(s),
        _ => None,
    }
}

/// The system type of a node: the configured type if any, else the type
/// inferred from `nix-eval-jobs`; then read as a system type name.
pub open spec fn node_system_type(
    node_type: Option<Seq<char>>,
    name: Seq<char>,
    rs: Seq<NixEvalJobsResult>,
) -> Result<SystemType, Seq<char>> {
    let chosen = match configured(node_type) {
        Some(t) => Ok(t),
        None => inferred_type(name, recorded_system(name, rs)),
    };
    match chosen {
        Err(m) => Err(m),
        Ok(t) => match parsed_system(t) {
            Some(system) => Ok(system),
            None => Err("job "@ + name + ": "@ + unsupported_system_message(t)),
        },
    }
}

impl NodeMetadata {
    /// The hostname to connect to: the configured one, or the node's name.
    pub fn hostname_or_name(&self, name: &str) -> (res: String)
        ensures
            res@ == match configured(opt_view(self.hostname)) {
                Some(h) => h,
                None => name@,
            },
    {
        match &self.hostname {
            Some(h) => {
                if h.as_str().unicode_len() > 0 {
                    return h.clone();
                }
            },
            None => {},
        }
        owned(name)
    }

    /// The user to connect as (empty when not configured).
    pub fn user(&self) -> (res: String)
        ensures
            res@ == match self.user {
                Some(u) => u@,
                None => Seq::empty(),
            },
    {
        match &self.user {
            Some(u) => u.clone(),
            None => String::new(),
        }
    }

    /// The node's system type.
    pub fn system_type(&self, name: &str, results: &Vec<NixEvalJobsResult>) -> (res: Result<
        SystemType,
        DeployError,
    >)
        ensures
            match node_system_type(opt_view(self.node_type), name@, results@) {
                Ok(t) => res == Ok::<SystemType, DeployError>(t),
                Err(m) => res matches Err(e) && e.message@ == m && e.context@.len() == 0,
            },
            (self.node_type matches Some(t) && t@ == "darwin"@) ==> res == Ok::<
                SystemType,
                DeployError,
            >(SystemType::Darwin),
            (self.node_type matches Some(t) && t@ == "nixos"@) ==> res == Ok::<
                SystemType,
                DeployError,
            >(SystemType::Nixos),
    {
        proof {
            crate::laws::law_configured_type_wins(opt_view(self.node_type), name@, results@);
        }
        let configured_type = match &self.node_type {
            Some(t) => {
                if t.as_str().unicode_len() > 0 {
                    Some(t.clone())
                } else {
                    None
                }
            },
            None => None,
        };
        let chosen = match configured_type {
            Some(t) => t,
            None => match infer_system_type(name, results) {
                Ok(t) => t,
                Err(e) => {
                    return Err(e);
                },
            },
        };
        assert(match configured(opt_view(self.node_type)) {
            Some(t) => Ok(t),
            None => inferred_type(name@, recorded_system(name@, results@)),
        } == Ok::<Seq<char>, Seq<char>>(chosen@));
        match SystemType::parse(chosen.as_str()) {
            Ok(t) => Ok(t),
            Err(error) => {
                let mut message = owned("job ");
                message.append(name);
                message.append(": ");
                message.append(error.as_str());
                Err(DeployError::new(message))
            },
        }
    }
}

// ---------------------------------------------------------------------------
// Job specifications
// ---------------------------------------------------------------------------

/// The job of node `name`, from its basics (empty paths when missing), its
/// metadata and the records; or the message of why it cannot be made. The
/// system type is checked first, then the output path, then the user.
pub open spec fn resolved_job(
    name: Seq<char>,
    basics: Option<(Seq<char>, Seq<char>)>,
    metadata: NodeMetadata,
    rs: Seq<NixEvalJobsResult>,
) -> Result<(Seq<char>, SystemType, Seq<char>, Seq<char>), Seq<char>> {
    let (output, drv_path) = match basics {
        Some(b) => b,
        None => (Seq::empty(), Seq::empty()),
    };
    let hostname = match configured(opt_view(metadata.hostname)) {
        Some(h) => h,
        None => name,
    };
    let user = match metadata.user {
        Some(u) => u@,
        None => Seq::empty(),
    };
    match node_system_type(opt_view(metadata.node_type), name, rs) {
        Err(m) => Err(m),
        Ok(system) => if output.len() == 0 {
            Err("job "@ + name + ": missing output path"@)
        } else if user.len() == 0 {
            Err("job "@ + name + ": missing user"@)
        } else {
            Ok((hostname, system, user, drv_path))
        },
    }
}

/// The view of a job: hostname, system, user, derivation path.
pub open spec fn job_view(j: JobSpec) -> (Seq<char>, SystemType, Seq<char>, Seq<char>) {
    (j.hostname@, j.system, j.user@, j.drv_path@)
}

/// Second pass, for one node: its job from the basics, the metadata read for
/// it, and the records.
pub fn resolve_job(
    name: &str,
    basics: &NameMap<(String, String)>,
    metadata: &NodeMetadata,
    results: &Vec<NixEvalJobsResult>,
) -> (res: Result<JobSpec, DeployError>)
    ensures
        match resolved_job(
            name@,
            if basics.as_map().contains_key(name@) {
                Some(pair_map_view(basics.as_map())[name@])
            } else {
                None
            },
            *metadata,
            results@,
        ) {
            Ok(j) => res matches Ok(spec) && job_view(spec) == j,
            Err(m) => res matches Err(e) && e.message@ == m && e.context@.len() == 0,
        },
{
    let (output, drv_path) = match basics.get(name) {
        Some(b) => (b.0.clone(), b.1.clone()),
        None => (String::new(), String::new()),
    };
    let hostname = metadata.hostname_or_name(name);
    let user = metadata.user();
    let system = match metadata.system_type(name, results) {
        Ok(t) => t,
        Err(e) => {
            return Err(e);
        },
    };
    if output.as_str().unicode_len() == 0 {
        let mut message = owned("job ");
        message.append(name);
        message.append(": missing output path");
        return Err(DeployError::new(message));
    }
    if user.as_str().unicode_len() == 0 {
        let mut message = owned("job ");
        message.append(name);
        message.append(": missing user");
        return Err(DeployError::new(message));
    }
    Ok(JobSpec { hostname, system, user, drv_path })
}

/// The second pass over the nodes: one node at a time, in name order, the
/// caller reads the node's metadata and the collection makes its job.
#[derive(Debug)]
pub struct JobSpecCollection {
    names: Vec<String>,
    next: usize,
    basics: NameMap<(String, String)>,
    jobs: JobMap,
}

impl JobSpecCollection {
    #[verifier::type_invariant]
    spec fn well_formed(&self) -> bool {
        &&& self.next <= self.names.len()
        &&& views(self.names@) == self.basics.keys()
    }

    /// The nodes, in name order.
    pub closed spec fn names(&self) -> Seq<Seq<char>> {
        views(self.names@)
    }

    /// How many nodes have their job.
    pub closed spec fn done(&self) -> int {
        self.next as int
    }

    /// The basics of the first pass.
    pub closed spec fn basics(&self) -> Map<Seq<char>, (Seq<char>, Seq<char>)> {
        pair_map_view(self.basics.as_map())
    }

    /// The jobs made so far.
    pub closed spec fn jobs(&self) -> Map<Seq<char>, JobSpec> {
        self.jobs.as_map()
    }

    /// The node whose metadata is needed next, or none when all have their
    /// job.
    pub fn next_name(&self) -> (res: Option<&String>)
        ensures
            self.done() < self.names().len() ==> (res matches Some(n) && n@ == self.names()[self.done()]),
            self.done() >= self.names().len() ==> res is None,
    {
        proof {
            use_type_invariant(self);
        }
        if self.next < self.names.len() {
            Some(&self.names[self.next])
        } else {
            None
        }
    }

    /// Makes the job of the next node from its metadata; returns the
    /// progress to report.
    pub fn accept(&mut self, metadata: &NodeMetadata, results: &Vec<NixEvalJobsResult>) -> (res:
        Result<EvaluationProgress, DeployError>)
        requires
            old(self).done() < old(self).names().len(),
        ensures
            final(self).names() == old(self).names(),
            final(self).basics() == old(self).basics(),
            ({
                let name = old(self).names()[old(self).done()];
                let basics = if old(self).basics().contains_key(name) {
                    Some(old(self).basics()[name])
                } else {
                    None
                };
                match resolved_job(name, basics, *metadata, results@) {
                    Ok(j) => {
                        &&& res matches Ok(EvaluationProgress::MetadataResolved { name: n })
                        &&& n@ == name
                        &&& final(self).done() == old(self).done() + 1
                        &&& final(self).jobs().dom() == old(self).jobs().dom().insert(name)
                        &&& job_view(final(self).jobs()[name]) == j
                        &&& forall|k: Seq<char>| k != name && #[trigger] old(self).jobs().contains_key(k)
                            ==> final(self).jobs()[k] == old(self).jobs()[k]
                    },
                    Err(m) => res matches Err(e) && e.message@ == m && e.context@.len() == 0,
                }
            }),
    {
        proof {
            use_type_invariant(&*self);
        }
        let name = self.names[self.next].clone();
        match resolve_job(name.as_str(), &self.basics, metadata, results) {
            Ok(spec) => {
                let mut jobs: JobMap = NameMap::new();
                std::mem::swap(&mut jobs, &mut self.jobs);
                jobs.insert(name.clone(), spec);
                self.jobs = jobs;
                self.next = self.next + 1;
                Ok(EvaluationProgress::MetadataResolved { name })
            },
            Err(e) => Err(e),
        }
    }

    /// The jobs made.
    pub fn into_jobs(self) -> (res: JobMap)
        ensures
            res.as_map() == self.jobs(),
    {
        self.jobs
    }
}

/// Starts the second pass over the nodes that the first pass found.
pub fn build_job_specs(basics: NameMap<(String, String)>) -> (res: JobSpecCollection)
    ensures
        res.names() == basics.keys(),
        sorted_names(res.names()),
        res.done() == 0,
        res.basics() == pair_map_view(basics.as_map()),
        res.jobs() == Map::<Seq<char>, JobSpec>::empty(),
{
    let names = basics.names();
    let jobs: JobMap = NameMap::new();
    assert(jobs.as_map() =~= Map::<Seq<char>, JobSpec>::empty());
    JobSpecCollection { names, next: 0, basics, jobs }
}

} // verus!
