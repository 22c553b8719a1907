//! The values a deployment works with: system types, job specifications, and
//! the records that `nix build --json` and `nix-eval-jobs` emit.

use vstd::prelude::*;

use crate::names::NameMap;
use crate::text::{owned, same_text};

verus! {

/// The kind of system a node runs.
#[derive(Debug, Clone, Copy, PartialEq, Eq, Structural)]
pub enum SystemType {
    Nixos,
    Darwin,
}

/// The name of a system type, as configured and as displayed.
pub open spec fn system_name(t: SystemType) -> Seq<char> {
    match t {
        SystemType::Nixos => "nixos"@,
        SystemType::Darwin => "darwin"@,
    }
}

/// The system type that a name stands for, if any.
pub open spec fn parsed_system(name: Seq<char>) -> Option<SystemType> {
    if name == "nixos"@ {
        Some(SystemType::Nixos)
    } else if name == "darwin"@ {
        Some(SystemType::Darwin)
    } else {
        None
    }
}

/// The message for a system type name that is not supported.
pub open spec fn unsupported_system_message(name: Seq<char>) -> Seq<char> {
    "unsupported system type: "@ + name
}

impl SystemType {
    /// Reads a system type from its name.
    pub fn parse(s: &str) -> (res: Result<SystemType, String>)
        ensures
            match parsed_system(s@) {
                Some(t) => res == Ok::<SystemType, String>(t),
                None => res matches Err(message) && message@ == unsupported_system_message(s@),
            },
    {
        if same_text(s, "nixos") {
            Ok(SystemType::Nixos)
        } else if same_text(s, "darwin") {
            Ok(SystemType::Darwin)
        } else {
            let mut message = owned("unsupported system type: ");
            message.append(s);
            Err(message)
        }
    }

    /// The name of the system type (what `Display` shows).
    pub fn to_string(&self) -> (res: String)
        ensures
            res@ == system_name(*self),
    {
        match self {
            SystemType::Nixos => owned("nixos"),
            SystemType::Darwin => owned("darwin"),
        }
    }
}

/// Captured details of a subprocess invocation, for debug logging.
#[derive(Debug)]
pub struct DebugInfo {
    pub command: String,
    pub std_out: String,
    pub std_err: String,
}

impl Default for DebugInfo {
    fn default() -> (res: Self)
        ensures
            res.command@ == Seq::<char>::empty(),
            res.std_out@ == Seq::<char>::empty(),
            res.std_err@ == Seq::<char>::empty(),
    {
        DebugInfo { command: String::new(), std_out: String::new(), std_err: String::new() }
    }
}

/// What is deployed to one node.
#[derive(Debug)]
pub struct JobSpec {
    pub hostname: String,
    pub system: SystemType,
    pub user: String,
    pub drv_path: String,
}

impl JobSpec {
    /// The SSH target, `user@hostname`.
    pub open spec fn target_view(&self) -> Seq<char> {
        self.user@ + "@"@ + self.hostname@
    }

    /// The SSH target string (`user@hostname`) for this deployment.
    pub fn target(&self) -> (res: String)
        ensures
            res@ == self.target_view(),
    {
        let mut res = self.user.clone();
        res.append("@");
        res.append(self.hostname.as_str());
        res
    }
}

/// The evaluated jobs, by node name.
pub type JobMap = NameMap<JobSpec>;

/// The views of named outputs.
pub open spec fn output_views(outputs: Seq<(String, String)>) -> Seq<(Seq<char>, Seq<char>)> {
    outputs.map_values(|o: (String, String)| (o.0@, o.1@))
}

/// The path of the first output named `name`, if there is one.
pub open spec fn lookup_output(outputs: Seq<(Seq<char>, Seq<char>)>, name: Seq<char>) -> Option<
    Seq<char>,
>
    decreases outputs.len(),
{
    if outputs.len() == 0 {
        None
    } else if outputs[0].0 == name {
        Some(outputs[0].1)
    } else {
        lookup_output(outputs.drop_first(), name)
    }
}

/// The path of the output named `name`.
pub fn find_output(outputs: &Vec<(String, String)>, name: &str) -> (res: Option<String>)
    ensures
        match res {
            Some(path) => lookup_output(output_views(outputs@), name@) == Some(path@),
            None => lookup_output(output_views(outputs@), name@) is None,
        },
{
    let mut i: usize = 0;
    assert(output_views(outputs@).skip(0) =~= output_views(outputs@));
    while i < outputs.len()
        invariant
            i <= outputs.len(),
            lookup_output(output_views(outputs@), name@) == lookup_output(
                output_views(outputs@).skip(i as int),
                name@,
            ),
        decreases outputs.len() - i,
    {
        let ghost rest = output_views(outputs@).skip(i as int);
        assert(rest[0] == (outputs@[i as int].0@, outputs@[i as int].1@));
        if same_text(outputs[i].0.as_str(), name) {
            return Some(outputs[i].1.clone());
        }
        assert(rest.drop_first() =~= output_views(outputs@).skip(i + 1));
        i = i + 1;
    }
    None
}

/// One entry from `nix build --json`: the output paths by output name.
#[derive(Debug)]
pub struct BuildResult {
    pub outputs: Vec<(String, String)>,
}

/// One JSON-Lines record emitted by `nix-eval-jobs`.
#[derive(Debug)]
pub struct NixEvalJobsResult {
    pub attr: String,
    pub attr_path: Option<Vec<String>>,
    pub drv_path: Option<String>,
    pub error: Option<String>,
    pub outputs: Option<Vec<(String, String)>>,
    pub system: Option<String>,
}

} // verus!
