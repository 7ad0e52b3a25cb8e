use sala_devtools::cli::{extract_bool_flag, extract_flag};

#[test]
fn extract_flag_with_space() {
    let mut args: Vec<String> = vec![
        "--workspace".into(),
        "/foo".into(),
        "--json".into(),
    ];
    assert_eq!(extract_flag(&mut args, "--workspace"), Some("/foo".into()));
    assert_eq!(args, vec!["--json"]);
}

#[test]
fn extract_flag_with_equals() {
    let mut args: Vec<String> = vec!["--workspace=/foo".into(), "--json".into()];
    assert_eq!(extract_flag(&mut args, "--workspace"), Some("/foo".into()));
    assert_eq!(args, vec!["--json"]);
}

#[test]
fn extract_flag_missing() {
    let mut args: Vec<String> = vec!["--json".into()];
    assert_eq!(extract_flag(&mut args, "--workspace"), None);
    assert_eq!(args, vec!["--json"]);
}

#[test]
fn extract_bool_flag_long() {
    let mut args: Vec<String> = vec!["--json".into(), "-v".into()];
    assert!(extract_bool_flag(&mut args, "--json", "-j"));
    assert_eq!(args, vec!["-v"]);
}

#[test]
fn extract_bool_flag_short() {
    let mut args: Vec<String> = vec!["-j".into(), "-v".into()];
    assert!(extract_bool_flag(&mut args, "--json", "-j"));
    assert_eq!(args, vec!["-v"]);
}

#[test]
fn extract_bool_flag_missing() {
    let mut args: Vec<String> = vec!["-v".into()];
    assert!(!extract_bool_flag(&mut args, "--json", "-j"));
    assert_eq!(args, vec!["-v"]);
}
