//! Deployment planning for fleets of NixOS and nix-darwin machines: which
//! nodes to deploy, how each closure is built and activated, and how the
//! answers of `nix-eval-jobs`, `nix` and `systemctl` are read.

pub mod cli;
pub mod closure;
pub mod deploy;
pub mod error;
pub mod evaluate;
pub mod laws;
pub mod models;
pub mod names;
pub mod op;
pub mod process;
pub mod ssh;
pub mod systemd;
pub mod text;
pub mod ui;
pub mod workflow;
