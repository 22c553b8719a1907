//! How SSH host keys are checked, and how a remote command is shown.

use vstd::prelude::*;

use crate::text::{join_spaces, join_with_spaces, owned, views};

verus! {

/// How unknown SSH host keys are treated.
#[derive(Debug, Clone, Copy, PartialEq, Eq, Structural)]
pub enum HostKeyPolicy {
    /// Refuse hosts whose key is not known.
    Strict,
    /// Accept and record keys of hosts not seen before.
    AcceptNew,
}

/// The `ssh` option that applies a host key policy.
pub open spec fn ssh_option_text(policy: HostKeyPolicy) -> Seq<char> {
    match policy {
        HostKeyPolicy::Strict => "-o StrictHostKeyChecking=yes"@,
        HostKeyPolicy::AcceptNew => "-o StrictHostKeyChecking=accept-new"@,
    }
}

impl HostKeyPolicy {
    /// The `ssh` option, for `NIX_SSHOPTS`, that applies this policy.
    pub fn nix_ssh_option(self) -> (res: &'static str)
        ensures
            res@ == ssh_option_text(self),
    {
        match self {
            HostKeyPolicy::Strict => "-o StrictHostKeyChecking=yes",
            HostKeyPolicy::AcceptNew => "-o StrictHostKeyChecking=accept-new",
        }
    }
}

/// How a remote command is shown: `ssh <target> <program> <args...>`.
pub open spec fn ssh_display_text(target: Seq<char>, program: Seq<char>, args: Seq<Seq<char>>) -> Seq<
    char,
> {
    "ssh "@ + target + " "@ + program + " "@ + join_spaces(args)
}

/// The text that shows a remote command in logs and errors.
pub fn ssh_display(target: &str, program: &str, args: &Vec<String>) -> (res: String)
    ensures
        res@ == ssh_display_text(target@, program@, views(args@)),
{
    let mut res = owned("ssh ");
    res.append(target);
    res.append(" ");
    res.append(program);
    res.append(" ");
    let joined = join_with_spaces(args);
    res.append(joined.as_str());
    res
}

} // verus!
