use sala_devtools::cli::{extract_bool_flag, extract_flag, parse_common_args, Parsed};
use sala_devtools::{dc_build, dc_connect, devcontainer_status, doctor_run, smoke};

fn args(items: &[&str]) -> Vec<String> {
    items.iter().map(|s| s.to_string()).collect()
}

fn cwd() -> Option<String> {
    Some("/work/here".to_string())
}

#[test]
fn flag_at_the_end_has_no_value() {
    let mut a = args(&["--json", "--workspace"]);
    assert_eq!(extract_flag(&mut a, "--workspace"), None);
    assert_eq!(a, vec!["--json", "--workspace"]);
}

#[test]
fn flag_at_the_end_lets_the_joined_form_speak() {
    let mut a = args(&["--workspace=/a", "--workspace"]);
    assert_eq!(extract_flag(&mut a, "--workspace"), Some("/a".to_string()));
    assert_eq!(a, vec!["--workspace"]);
}

#[test]
fn both_spellings_of_a_flag_agree() {
    let mut apart = args(&["x", "--language", "python", "y"]);
    let mut joined = args(&["x", "--language=python", "y"]);
    assert_eq!(extract_flag(&mut apart, "--language"), Some("python".to_string()));
    assert_eq!(extract_flag(&mut joined, "--language"), Some("python".to_string()));
    assert_eq!(apart, joined);
    assert_eq!(apart, vec!["x", "y"]);
}

#[test]
fn missing_flags_change_nothing() {
    let mut a = args(&["x", "--other"]);
    assert_eq!(extract_flag(&mut a, "--language"), None);
    assert!(!extract_bool_flag(&mut a, "--json", "-j"));
    assert_eq!(a, vec!["x", "--other"]);
}

#[test]
fn only_the_first_bool_flag_is_taken() {
    let mut a = args(&["-j", "--json"]);
    assert!(extract_bool_flag(&mut a, "--json", "-j"));
    assert_eq!(a, vec!["--json"]);
}

#[test]
fn common_args_default_to_the_current_directory() {
    let mut a = args(&["rest"]);
    let common = parse_common_args(&mut a, cwd());
    assert_eq!(common.workspace, "/work/here");
    assert!(!common.json);
    assert!(!common.verbose);
    assert_eq!(a, vec!["rest"]);
    let common = parse_common_args(&mut a, None);
    assert_eq!(common.workspace, ".");
}

#[test]
fn common_args_are_taken_out() {
    let mut a = args(&["-v", "-w", "/a/b", "rest", "--json"]);
    let common = parse_common_args(&mut a, cwd());
    assert_eq!(common.workspace, "/a/b");
    assert!(common.json);
    assert!(common.verbose);
    assert_eq!(a, vec!["rest"]);
}

#[test]
fn long_workspace_goes_before_the_short_one() {
    let mut a = args(&["-w", "/short", "--workspace", "/long"]);
    let common = parse_common_args(&mut a, cwd());
    assert_eq!(common.workspace, "/long");
    assert_eq!(a, vec!["-w", "/short"]);
}

fn smoke_run(items: &[&str]) -> smoke::SmokeArgs {
    match smoke::parse_args(args(items), cwd()) {
        Parsed::Run(a) => a,
        Parsed::Help => panic!("help"),
        Parsed::Reject(m) => panic!("{m}"),
    }
}

fn smoke_reject(items: &[&str]) -> String {
    match smoke::parse_args(args(items), cwd()) {
        Parsed::Reject(m) => m,
        _ => panic!("accepted"),
    }
}

#[test]
fn smoke_defaults() {
    let a = smoke_run(&[]);
    assert_eq!(a.workspace_path, "/work/here");
    assert_eq!(a.max_wait_seconds, 600);
    assert!(!a.json);
    assert_eq!(a.lsp_config.display_name, "rust-analyzer");
    assert_eq!(a.lsp_config.log_tag, "[LSP-RUST]  ");
    assert!(a.lsp_config.server_args.is_empty());
}

#[test]
fn smoke_takes_all_its_flags() {
    let a = smoke_run(&["--language", "python", "--max-wait-seconds=120", "-j", "-w", "/ws"]);
    assert_eq!(a.workspace_path, "/ws");
    assert_eq!(a.max_wait_seconds, 120);
    assert!(a.json);
    assert_eq!(a.lsp_config.display_name, "pyright");
    assert_eq!(a.lsp_config.check_binary, "pyright-langserver");
    assert_eq!(a.lsp_config.server_args, vec!["--stdio"]);
}

#[test]
fn smoke_takes_a_workspace_without_a_flag() {
    let a = smoke_run(&["-w", "/flag", "--unknown", "/positional", "/second"]);
    assert_eq!(a.workspace_path, "/positional");
}

#[test]
fn smoke_rejects_a_wait_that_is_no_number() {
    let expected = "error: --max-wait-seconds must be a positive integer\nrun with --help for usage";
    assert_eq!(smoke_reject(&["--max-wait-seconds", "soon"]), expected);
    assert_eq!(smoke_reject(&["--max-wait-seconds", "-1"]), expected);
    assert_eq!(smoke_reject(&["--max-wait-seconds="]), expected);
    assert_eq!(smoke_reject(&["--max-wait-seconds", "18446744073709551616"]), expected);
    assert_eq!(smoke_run(&["--max-wait-seconds", "18446744073709551615"]).max_wait_seconds, u64::MAX);
    assert_eq!(smoke_run(&["--max-wait-seconds", "+7"]).max_wait_seconds, 7);
}

#[test]
fn smoke_rejects_other_languages() {
    assert_eq!(
        smoke_reject(&["--language", "go"]),
        "error: unsupported --language value: go (expected: rust, python)\nrun with --help for usage"
    );
}

#[test]
fn help_goes_first() {
    assert!(matches!(smoke::parse_args(args(&["--language", "go", "-h"]), cwd()), Parsed::Help));
    assert!(matches!(dc_build::parse_args(args(&["--help"]), cwd()), Parsed::Help));
    assert!(matches!(dc_connect::parse_args(args(&["-h"]), cwd()), Parsed::Help));
    assert!(matches!(doctor_run::parse_args(args(&["-v", "-h"]), cwd()), Parsed::Help));
    assert!(matches!(devcontainer_status::parse_args(&args(&["-j", "-h", "x"])), Parsed::Help));
}

#[test]
fn help_texts_name_their_commands() {
    assert!(smoke::SMOKE_HELP.starts_with("Usage: dc-smoke [OPTIONS] [WORKSPACE_PATH]\n\n"));
    assert!(dc_build::BUILD_HELP.contains("  -f, --force                Force rebuild"));
    assert!(dc_connect::CONNECT_HELP.starts_with("Usage: dc-connect [OPTIONS]\n\n"));
    assert!(doctor_run::DOCTOR_HELP.ends_with("  -h, --help              Show this help\n"));
    assert!(devcontainer_status::STATUS_HELP.contains("Filter to a specific workspace"));
}

#[test]
fn build_args_are_taken_apart() {
    match dc_build::parse_args(args(&["-f", "--max-wait-seconds", "5", "--workspace=/w", "-v"]), cwd()) {
        Parsed::Run(a) => {
            assert!(a.force_rebuild);
            assert_eq!(a.max_wait_seconds, 5);
            assert_eq!(a.common.workspace, "/w");
            assert!(a.common.verbose);
        }
        _ => panic!("not accepted"),
    }
    match dc_build::parse_args(args(&["--max-wait-seconds", "x"]), cwd()) {
        Parsed::Reject(m) => assert_eq!(
            m,
            "error: --max-wait-seconds must be a positive integer\nrun with --help for usage"
        ),
        _ => panic!("accepted"),
    }
}

#[test]
fn doctor_rejects_other_flags() {
    match doctor_run::parse_args(args(&["stray", "--fast", "--slow"]), cwd()) {
        Parsed::Reject(m) => assert_eq!(m, "error: unexpected argument: --fast"),
        _ => panic!("accepted"),
    }
    match doctor_run::parse_args(args(&["stray"]), cwd()) {
        Parsed::Run(a) => assert_eq!(a.workspace, "/work/here"),
        _ => panic!("not accepted"),
    }
}

#[test]
fn connect_takes_the_shared_flags() {
    match dc_connect::parse_args(args(&["-j", "-w", "/w"]), cwd()) {
        Parsed::Run(a) => {
            assert!(a.json);
            assert_eq!(a.workspace, "/w");
        }
        _ => panic!("not accepted"),
    }
}

#[test]
fn status_args_are_taken_from_left_to_right() {
    match devcontainer_status::parse_args(&args(&["-w", "/a", "-j", "--workspace", "/b", "-v"])) {
        Parsed::Run(a) => {
            assert_eq!(a.workspace.as_deref(), Some("/b"));
            assert!(a.json);
            assert!(a.verbose);
        }
        _ => panic!("not accepted"),
    }
    match devcontainer_status::parse_args(&args(&[])) {
        Parsed::Run(a) => assert!(a.workspace.is_none() && !a.json),
        _ => panic!("not accepted"),
    }
    match devcontainer_status::parse_args(&args(&["--workspace"])) {
        Parsed::Reject(m) => assert_eq!(m, "error: --workspace requires an argument"),
        _ => panic!("accepted"),
    }
    match devcontainer_status::parse_args(&args(&["odd", "--help"])) {
        Parsed::Reject(m) => assert_eq!(m, "error: unexpected argument: odd"),
        _ => panic!("accepted"),
    }
}
