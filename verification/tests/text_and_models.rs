use blzrd::cli::{Command, CommonArgs};
use blzrd::error::DeployError;
use blzrd::models::{find_output, DebugInfo, JobSpec, SystemType};
use blzrd::names::NameMap;
use blzrd::op::{darwin_boot_error, Operation};
use blzrd::process::{accept_output_line, check_status, command_display, log_debug};
use blzrd::ssh::{ssh_display, HostKeyPolicy};
use blzrd::text::{
    blank, chars_of, contains_text, i32_to_text, join_with_spaces, list_contains, nat_to_text,
    parse_int, same_text, text_less, trim,
};

fn strings(items: &[&str]) -> Vec<String> {
    items.iter().map(|s| s.to_string()).collect()
}

#[test]
fn trim_removes_unicode_whitespace_on_both_ends() {
    assert_eq!(trim("  \t hello world \r\n"), "hello world");
    assert_eq!(trim("\u{3000}x\u{a0}"), "x");
    assert_eq!(trim("   "), "");
    assert_eq!(trim(""), "");
    assert!(blank(" \n\t"));
    assert!(!blank(" a "));
}

#[test]
fn parse_int_follows_std_parsing() {
    assert_eq!(parse_int("0"), Some(0));
    assert_eq!(parse_int("+5"), Some(5));
    assert_eq!(parse_int("-17"), Some(-17));
    assert_eq!(parse_int("007"), Some(7));
    assert_eq!(parse_int("2147483647"), Some(i32::MAX));
    assert_eq!(parse_int("-2147483648"), Some(i32::MIN));
    assert_eq!(parse_int("2147483648"), None);
    assert_eq!(parse_int("-2147483649"), None);
    assert_eq!(parse_int("99999999999999999999"), None);
    assert_eq!(parse_int(""), None);
    assert_eq!(parse_int("-"), None);
    assert_eq!(parse_int("+"), None);
    assert_eq!(parse_int("12a"), None);
    assert_eq!(parse_int(" 1"), None);
    assert_eq!(parse_int("+-1"), None);
    for text in ["1", "-1", "123456", "-99", "+42"] {
        assert_eq!(parse_int(text), text.parse::<i32>().ok());
    }
}

#[test]
fn decimal_formatting_matches_display() {
    for n in [0, 7, 10, 255, -1, -10, 1000003, i32::MAX, i32::MIN] {
        assert_eq!(i32_to_text(n), n.to_string());
    }
    assert_eq!(nat_to_text(u64::MAX), u64::MAX.to_string());
}

#[test]
fn text_helpers() {
    assert_eq!(chars_of("héllo"), vec!['h', 'é', 'l', 'l', 'o']);
    assert!(same_text("abc", "abc"));
    assert!(!same_text("abc", "abd"));
    assert!(contains_text("x86_64-darwin", "darwin"));
    assert!(contains_text("abc", ""));
    assert!(!contains_text("aarch64-linux", "darwin"));
    assert!(text_less("a", "b"));
    assert!(text_less("ab", "abc"));
    assert!(!text_less("abc", "ab"));
    assert!(!text_less("same", "same"));
    assert!(text_less("Z", "a"));
    assert_eq!(join_with_spaces(&strings(&["a", "b", "c"])), "a b c");
    assert_eq!(join_with_spaces(&Vec::new()), "");
    assert!(list_contains(&strings(&["x", "y"]), "y"));
    assert!(!list_contains(&strings(&["x", "y"]), "z"));
}

#[test]
fn system_type_parse_and_names() {
    assert_eq!(SystemType::parse("nixos"), Ok(SystemType::Nixos));
    assert_eq!(SystemType::parse("darwin"), Ok(SystemType::Darwin));
    assert_eq!(
        SystemType::parse("windows"),
        Err("unsupported system type: windows".to_string())
    );
    assert_eq!(SystemType::parse("NixOS").unwrap_err(), "unsupported system type: NixOS");
    for t in [SystemType::Nixos, SystemType::Darwin] {
        assert_eq!(SystemType::parse(&t.to_string()), Ok(t));
    }
    assert_eq!(Operation::Switch.to_string(), "switch");
    assert_eq!(Operation::Boot.to_string(), "boot");
}

#[test]
fn debug_info_defaults_to_empty() {
    let info = DebugInfo::default();
    assert_eq!(info.command, "");
    assert_eq!(info.std_out, "");
    assert_eq!(info.std_err, "");
}

#[test]
fn find_output_takes_the_named_output() {
    let outputs = vec![
        ("dev".to_string(), "/nix/store/a-dev".to_string()),
        ("out".to_string(), "/nix/store/a".to_string()),
    ];
    assert_eq!(find_output(&outputs, "out"), Some("/nix/store/a".to_string()));
    assert_eq!(find_output(&outputs, "doc"), None);
}

#[test]
fn into_deploy_maps_commands_to_operations() {
    let args = CommonArgs {
        nodes: vec!["a".into()],
        skip: vec![],
        build_host: "localhost".into(),
        accept_new_host_keys: false,
        parallel: 5,
    };
    let (op, common) = Command::Boot(args).into_deploy().unwrap();
    assert_eq!(op, Operation::Boot);
    assert_eq!(common.nodes, vec!["a".to_string()]);
    let args = CommonArgs {
        nodes: vec![],
        skip: vec![],
        build_host: "builder".into(),
        accept_new_host_keys: true,
        parallel: 2,
    };
    let (op, common) = Command::Switch(args).into_deploy().unwrap();
    assert_eq!(op, Operation::Switch);
    assert_eq!(common.build_host, "builder");
    assert_eq!(common.parallel, 2);
    assert!(Command::List.into_deploy().is_none());
}

#[test]
fn ssh_options_and_display() {
    assert_eq!(HostKeyPolicy::Strict.nix_ssh_option(), "-o StrictHostKeyChecking=yes");
    assert_eq!(
        HostKeyPolicy::AcceptNew.nix_ssh_option(),
        "-o StrictHostKeyChecking=accept-new"
    );
    assert_eq!(
        ssh_display("root@host", "systemctl", &strings(&["show", "unit"])),
        "ssh root@host systemctl show unit"
    );
}

#[test]
fn command_display_joins_arguments() {
    assert_eq!(
        command_display("nix", &strings(&["build", "--json", "x"])),
        "nix build --json x"
    );
    assert_eq!(command_display("true", &Vec::new()), "true ");
}

#[test]
fn check_status_prefers_standard_error() {
    assert!(check_status("nix build", true, "out", "err").is_ok());
    let e = check_status("nix build", false, " out ", "  boom \n").unwrap_err();
    assert_eq!(e.message, "nix build failed: boom");
    assert!(e.context.is_empty());
    let e = check_status("nix build", false, " only stdout \n", " \n").unwrap_err();
    assert_eq!(e.message, "nix build failed: only stdout");
}

#[test]
fn debug_lines_skip_blank_streams() {
    assert_eq!(log_debug("nix eval", "  ", ""), vec!["$ nix eval".to_string()]);
    assert_eq!(
        log_debug("nix eval", " {} \n", "warning\n"),
        vec!["$ nix eval".to_string(), "stdout:\n{}".to_string(), "stderr:\nwarning".to_string()]
    );
}

#[test]
fn json_lines_skip_blank_lines() {
    let mut transcript = String::new();
    assert!(!accept_output_line(&mut transcript, "   "));
    assert_eq!(transcript, "");
    assert!(accept_output_line(&mut transcript, "{\"attr\":\"a\"}"));
    assert!(accept_output_line(&mut transcript, "{}"));
    assert_eq!(transcript, "{\"attr\":\"a\"}\n{}\n");
}

#[test]
fn errors_gain_contexts_in_order() {
    let e = DeployError::new("root".to_string())
        .with_context("inner".to_string())
        .with_context("outer".to_string());
    assert_eq!(e.message, "root");
    assert_eq!(e.context, vec!["inner".to_string(), "outer".to_string()]);
    let e = darwin_boot_error("mac");
    assert_eq!(e.message, "job mac: 'boot' is not a valid darwin operation");
}

#[test]
fn name_map_keeps_names_sorted_and_unique() {
    let mut m: NameMap<u32> = NameMap::new();
    m.insert("zeta".to_string(), 1);
    m.insert("alpha".to_string(), 2);
    m.insert("mid".to_string(), 3);
    m.insert("alpha".to_string(), 4);
    assert_eq!(m.len(), 3);
    assert_eq!(m.names(), vec!["alpha".to_string(), "mid".to_string(), "zeta".to_string()]);
    assert_eq!(m.get("alpha"), Some(&4));
    assert_eq!(m.get("zeta"), Some(&1));
    assert_eq!(m.get("nope"), None);
    assert!(m.contains_key("mid"));
    assert!(!m.contains_key("mi"));
    let (name, value) = m.entry(1);
    assert_eq!((name.as_str(), *value), ("mid", 3));
    let entries = m.into_entries();
    assert_eq!(
        entries,
        vec![("alpha".to_string(), 4), ("mid".to_string(), 3), ("zeta".to_string(), 1)]
    );
}

#[test]
fn name_map_select_applies_skip_and_only() {
    let mut m: NameMap<u32> = NameMap::new();
    for (i, n) in ["a", "b", "c", "d"].iter().enumerate() {
        m.insert(n.to_string(), i as u32);
    }
    let kept = m.select(&strings(&["b"]), &strings(&["a", "b", "d"]));
    assert_eq!(kept.names(), strings(&["a", "d"]));
    let mut m2: NameMap<u32> = NameMap::new();
    m2.insert("x".to_string(), 1);
    let kept = m2.select(&Vec::new(), &Vec::new());
    assert_eq!(kept.names(), strings(&["x"]));
}

#[test]
fn job_target_uses_user_and_hostname() {
    let spec = JobSpec {
        hostname: "evergrande".into(),
        system: SystemType::Nixos,
        user: "root".into(),
        drv_path: "/nix/store/x.drv".into(),
    };
    assert_eq!(spec.target(), "root@evergrande");
}
