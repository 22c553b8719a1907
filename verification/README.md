# blzrd

Deploys one flake revision to a fleet of NixOS and nix-darwin machines:
it evaluates the flake's `blzrd.nodes`, builds each node's closure (locally
or on a build host), copies it to the node and activates it with `switch` or
`boot`. `list` shows the nodes without deploying.

## Layout

- `src/` is the library, verified with Verus. It holds everything the tool
  decides: which nodes are deployed, the commands that build, copy and
  activate a closure, how the output of `nix-eval-jobs`, `nix build --json`
  and `systemctl show` is read, and the errors and their contexts.
  Building and deploying a closure are state machines (`closure.rs`): each
  step takes the outcome of the last command and names the next action.
  `laws.rs` states properties of the library as a whole.
- `app/` is the program around it: the command line (clap), JSON decoding
  (serde), running processes (tokio) and SSH sessions (openssh), the
  progress display (indicatif), and the loops that carry out the state
  machines' actions.
- `tests/` runs the library on concrete values.
