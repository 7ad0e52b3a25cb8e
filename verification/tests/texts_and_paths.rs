use sala_devtools::platform::{self, Platform};
use sala_devtools::{bytes, container_lsp, docker, ipc, path, text};

#[test]
fn lines_end_at_line_feeds() {
    assert_eq!(text::lines("a\r\nb\n\nc"), vec!["a", "b", "", "c"]);
    assert_eq!(text::lines("a\n"), vec!["a"]);
    assert_eq!(text::lines("a\r"), vec!["a\r"]);
    assert!(text::lines("").is_empty());
}

#[test]
fn splitting_keeps_empty_pieces() {
    assert_eq!(text::split("/a//b/", '/'), vec!["", "a", "", "b", ""]);
    assert_eq!(text::split("", '/'), vec![""]);
    let pieces = text::split("x/y", '/');
    assert_eq!(text::join(&pieces, "/"), "x/y");
}

#[test]
fn trimming_takes_unicode_space() {
    assert_eq!(text::trim(" \u{3000}a b\u{a0}\n"), "a b");
    assert_eq!(text::trim(" \t "), "");
    assert_eq!(text::trim("\u{200b}x"), "\u{200b}x");
}

#[test]
fn lower_case_is_ascii_only() {
    assert_eq!(text::to_lower("Content-LENGTH\u{c4}"), "content-length\u{c4}");
}

#[test]
fn padding_counts_characters() {
    assert_eq!(text::pad("\u{2014}", 5), "\u{2014}    ");
    assert_eq!(text::pad("abcdef", 5), "abcdef");
}

#[test]
fn decimals_are_read_back() {
    for n in [0u64, 7, 10, 99, 100, 4096, u64::MAX] {
        let shown = text::decimal(n);
        assert_eq!(shown, n.to_string());
        assert_eq!(text::parse_unsigned(&shown, u64::MAX), Some(n));
    }
    assert_eq!(text::signed_decimal(i32::MIN), "-2147483648");
    assert_eq!(text::signed_decimal(-1), "-1");
    assert_eq!(text::signed_decimal(100), "100");
    assert_eq!(text::parse_unsigned("256", 255), None);
    assert_eq!(text::parse_unsigned("", 255), None);
    assert_eq!(text::parse_unsigned("+", 255), None);
    assert_eq!(text::parse_unsigned(" 1", 255), None);
}

#[test]
fn searching_finds_parts() {
    assert!(text::contains("xSMOKE_OKy", "SMOKE_OK"));
    assert!(!text::contains("SMOKE_O", "SMOKE_OK"));
    assert!(text::contains("", ""));
    assert!(text::starts_with("--json", "--"));
    assert_eq!(text::strip_prefix("ab", "a"), Some("b".to_string()));
    assert_eq!(text::strip_prefix("ab", "b"), None);
}

#[test]
fn short_ids_keep_twelve_bytes() {
    assert_eq!(text::short_id("abc123def456789"), "abc123def456");
    assert_eq!(text::short_id("abc123def456"), "abc123def456");
    assert_eq!(text::short_id("abc"), "abc");
    assert_eq!(text::short_id("aaaaaaaaaa\u{e9}zzz"), "aaaaaaaaaa\u{e9}");
}

#[test]
fn spellings_of_one_path_are_the_same() {
    assert!(path::same_path(Platform::Unix, "/a/b", "/a//b/"));
    assert!(path::same_path(Platform::Unix, "/a/b", "/a/./b/."));
    assert!(!path::same_path(Platform::Unix, "/a/b", "a/b"));
    assert!(!path::same_path(Platform::Unix, "/a/b", "/a/b/.."));
    assert!(!path::same_path(Platform::Unix, "./a", "a"));
    assert!(path::same_path(Platform::Unix, "", ""));
}

#[test]
fn names_of_projects() {
    assert_eq!(path::project_name(Platform::Unix, "/workspace/test-project/"), "test-project");
    assert_eq!(path::project_name(Platform::Unix, "/"), "workspace");
    assert_eq!(path::project_name(Platform::Unix, ""), "workspace");
    assert_eq!(path::project_name(Platform::Unix, "/a/.."), "workspace");
    assert_eq!(path::file_name(Platform::Unix, "."), None);
    assert_eq!(path::file_name(Platform::Unix, "a/b"), Some("b".to_string()));
}

#[test]
fn parents_are_those_of_std() {
    for path in [
        "", "/", ".", "..", "./", "./.", "/.", "a", "a/", "/a", "//a", "///a", "/a/", "a/b", "/a/b",
        "//a//b//", "a/./b", "./a", "./a/b", "a/..", "../a", "/a/./b/.", "a//./", "/workspace/p.rs",
    ] {
        let parent = std::path::Path::new(path).parent().map(|p| p.to_string_lossy().to_string());
        assert_eq!(path::parent(Platform::Unix, path), parent, "{path:?}");
        assert_eq!(path::workspace_of(Platform::Unix, path, true), parent);
        assert_eq!(path::workspace_of(Platform::Unix, path, false).as_deref(), Some(path));
    }
    assert_eq!(path::workspace_of(Platform::Unix, "/workspace/p.rs", true).as_deref(), Some("/workspace"));
    assert_eq!(path::workspace_of(Platform::Unix, "/", true), None);
}

#[test]
fn platforms_are_told_apart_by_the_backslash() {
    assert_eq!(platform::platform_with(false), Platform::Unix);
    assert_eq!(platform::platform_with(true), Platform::Windows);
    assert!(platform::is_separator(Platform::Unix, '/'));
    assert!(!platform::is_separator(Platform::Unix, '\\'));
    assert!(platform::is_separator(Platform::Windows, '/'));
    assert!(platform::is_separator(Platform::Windows, '\\'));
    assert_eq!(platform::main_separator(Platform::Windows), '\\');
}

#[test]
fn names_of_projects_on_windows() {
    for (workspace, name) in [
        (r"C:\ws\proj", "proj"),
        (r"C:/ws/proj/", "proj"),
        (r"C:proj", "proj"),
        (r"\\?\C:\ws\proj", "proj"),
        (r"\\?\C:\ws\a/b", "a/b"),
        (r"\\server\share\proj", "proj"),
        (r"\\server\share", "workspace"),
        (r"\\.\COM1", "workspace"),
        (r"C:\", "workspace"),
        (r"C:", "workspace"),
        (r"C:\a\..", "workspace"),
        (r"a\b/c\.", "c"),
    ] {
        assert_eq!(path::project_name(Platform::Windows, workspace), name, "{workspace}");
    }
    assert_eq!(path::project_name(Platform::Unix, r"C:\ws\proj"), r"C:\ws\proj");
}

#[test]
fn spellings_of_one_path_on_windows() {
    for (a, b) in [
        (r"C:\a\b", r"c:/a//b/"),
        (r"\\server\share\x", r"//server/share/x"),
        (r"\\server\share", r"\\server\share\"),
        (r"C:.\a", r"C:a"),
        (r"\\?\C:\a", r"\\?\c:\a"),
    ] {
        assert!(path::same_path(Platform::Windows, a, b), "{a} {b}");
    }
    for (a, b) in [
        (r"C:\A", r"C:\a"),
        (r"C:a", r"C:\a"),
        (r"\\?\C:\a", r"C:\a"),
        (r"\\?\C:\a\.", r"\\?\C:\a"),
        (r"\\?\C:", r"\\?\C:\"),
        (r"//?/a", r"\\?\a"),
        (r"\\Server\share", r"\\server\share"),
        (r".\a", r"a"),
    ] {
        assert!(!path::same_path(Platform::Windows, a, b), "{a} {b}");
    }
}

#[test]
fn configurations_on_windows() {
    for (workspace, config, shown) in [
        (r"C:\ws", r"C:\ws\.devcontainer/devcontainer.json", ".devcontainer/devcontainer.json"),
        (r"C:\ws/", r"C:\ws/.devcontainer/devcontainer.json", ".devcontainer/devcontainer.json"),
        (r"C:", r"C:.devcontainer/devcontainer.json", ".devcontainer/devcontainer.json"),
        (r"\\s\h", r"\\s\h\.devcontainer/devcontainer.json", ".devcontainer/devcontainer.json"),
        (r"\\?\C:\ws", r"\\?\C:\ws\.devcontainer\devcontainer.json", r".devcontainer\devcontainer.json"),
        (r"\\?\C:", r"\\?\C:\.devcontainer\devcontainer.json", r"\.devcontainer\devcontainer.json"),
        ("", ".devcontainer/devcontainer.json", ".devcontainer/devcontainer.json"),
    ] {
        assert_eq!(ipc::primary_config(Platform::Windows, workspace), config);
        assert_eq!(path::relative(Platform::Windows, config, workspace).as_deref(), Some(shown));
    }
    assert_eq!(path::relative(Platform::Windows, r"C:\a", "C:").as_deref(), Some(r"\a"));
    assert_eq!(path::relative(Platform::Windows, r"C:\a", r"D:\"), None);
    assert_eq!(path::relative(Platform::Windows, r"\\s\x", r"\\s"), None);
}

#[test]
fn parents_on_windows() {
    for (path, parent) in [
        (r"C:\a\b.rs", Some(r"C:\a")),
        (r"C:\a", Some(r"C:\")),
        (r"C:a", Some("C:")),
        (r"C:.\a", Some("C:.")),
        (r"C:\", None),
        (r"\\s\h\f", Some(r"\\s\h\")),
        (r"\\s\h", None),
        (r"\\?\C:\a\.", Some(r"\\?\C:\a")),
        ("a/b", Some("a")),
        ("a", Some("")),
        ("", None),
    ] {
        assert_eq!(path::workspace_of(Platform::Windows, path, true).as_deref(), parent, "{path}");
    }
}

#[test]
fn joined_paths() {
    assert_eq!(path::join(Platform::Unix, "/a", "b/c"), "/a/b/c");
    assert_eq!(path::join(Platform::Unix, "/a/", "b"), "/a/b");
    assert_eq!(path::join(Platform::Unix, "", "b"), "b");
}

#[test]
fn a_child_is_relative_to_its_base() {
    for base in ["/a/b", "/a/b/", "/a//b", "/", "", "a", "./a", "//"] {
        let config = ipc::primary_config(Platform::Unix, base);
        assert_eq!(
            path::relative(Platform::Unix, &config, base),
            Some(".devcontainer/devcontainer.json".to_string()),
            "{base}"
        );
        let fallback = ipc::fallback_config(Platform::Unix, base);
        assert_eq!(path::relative(Platform::Unix, &fallback, base), Some(".devcontainer.json".to_string()));
    }
    assert_eq!(path::relative(Platform::Unix, "/x/y", "/a"), None);
    assert_eq!(path::relative(Platform::Unix, "/a/b", "/a/b"), Some(String::new()));
}

#[test]
fn relative_paths_agree_with_the_standard_library() {
    let paths = ["/a/b/c", "/a//b/./c/", "a/b", "./a/b", "/", "", ".", "a/./b/", "/a/b"];
    let bases = ["/a", "/a/b", "a", "", "/", ".", "./a", "/a/"];
    for p in paths {
        for b in bases {
            let expected = std::path::Path::new(p)
                .strip_prefix(b)
                .ok()
                .map(|r| r.to_string_lossy().to_string());
            assert_eq!(path::relative(Platform::Unix, p, b), expected, "{p:?} {b:?}");
        }
    }
}

#[test]
fn config_is_looked_for_in_two_places() {
    assert_eq!(
        ipc::detect_devcontainer_config(Platform::Unix, "/w", true, true),
        Some("/w/.devcontainer/devcontainer.json".to_string())
    );
    assert_eq!(
        ipc::detect_devcontainer_config(Platform::Unix, "/w", false, true),
        Some("/w/.devcontainer.json".to_string())
    );
    assert_eq!(ipc::detect_devcontainer_config(Platform::Unix, "/w", false, false), None);
    assert_eq!(
        ipc::connect_timeout_message(ipc::TALA_CONNECT_TIMEOUT),
        "connection timed out after 5s"
    );
}

#[test]
fn invalid_bytes_are_shown() {
    assert_eq!(bytes::show(&b"caf\xc3\xa9".to_vec()), "caf\u{e9}");
    assert_eq!(bytes::show(&b"a\xffb".to_vec()), "a\u{fffd}b");
    let mut data = b"x".to_vec();
    bytes::push_text(&mut data, "\u{e9}");
    assert_eq!(data, b"x\xc3\xa9");
}

#[test]
fn docker_lists_are_read() {
    assert_eq!(docker::container_ids(&b"abc\n\ndef\r\n".to_vec()), vec!["abc", "def"]);
    assert!(docker::container_ids(&Vec::new()).is_empty());
    assert_eq!(
        docker::container_folder(true, &b" /workspace/a \n".to_vec()),
        Some("/workspace/a".to_string())
    );
    assert_eq!(docker::container_folder(true, &b"\n".to_vec()), None);
    assert_eq!(docker::container_folder(false, &b"/workspace/a".to_vec()), None);
}

#[test]
fn docker_errors_are_told() {
    assert_eq!(docker::list_error(&b"no daemon\xff".to_vec()), "docker ps failed: no daemon\u{fffd}");
}

#[test]
fn docker_command_lines() {
    assert_eq!(docker::list_args(), vec!["ps", "-q", "--filter", "label=devcontainer.local_folder"]);
    assert_eq!(
        docker::folder_args("c1"),
        vec!["inspect", "-f", "{{index .Config.Labels \"devcontainer.local_folder\"}}", "c1"]
    );
    assert_eq!(docker::info_args(), vec!["info", "--format", "{{.ServerVersion}}"]);
    assert_eq!(docker::terminal_args("c1"), vec!["exec", "c1", "echo", "SMOKE_OK"]);
    assert_eq!(
        docker::binary_args("c1", "rust-analyzer"),
        vec!["exec", "c1", "sh", "-c", "command -v rust-analyzer"]
    );
}

#[test]
fn terminal_answers() {
    assert!(docker::terminal_answered(true, &b"SMOKE_OK\n".to_vec()));
    assert!(!docker::terminal_answered(false, &b"SMOKE_OK\n".to_vec()));
    assert!(!docker::terminal_answered(true, &b"smoke_ok".to_vec()));
}

#[test]
fn adapters_run_in_the_container() {
    let rust = container_lsp::ContainerLspAdapter::rust("c1".to_string(), "proj".to_string());
    assert_eq!(
        rust.build_binary(),
        vec!["exec", "-i", "-w", "/workspaces/proj", "c1", "rust-analyzer"]
    );
    assert_eq!(rust.diagnostic_sources, vec!["rustc"]);
    assert_eq!(rust.diagnostics_progress_token.as_deref(), Some("rust-analyzer/flycheck"));
    let python = container_lsp::ContainerLspAdapter::python("c1".to_string(), "proj".to_string());
    assert_eq!(
        python.build_binary(),
        vec!["exec", "-i", "-w", "/workspaces/proj", "c1", "pyright-langserver", "--stdio"]
    );
    assert_eq!(python.language_name, "Python");
    assert_eq!(
        python.version_error(),
        "container-managed pyright-langserver does not support version fetching"
    );
}

#[test]
fn folders_are_remapped_into_the_container() {
    let rust = container_lsp::ContainerLspAdapter::rust("c1".to_string(), "proj".to_string());
    assert_eq!(rust.remap_folder("/home/me/code/"), "/workspaces/proj/code");
    assert_eq!(rust.remap_folder("/"), "/workspaces/proj");
    assert_eq!(rust.remap_folder(""), "/workspaces/proj");
    assert_eq!(rust.root_error(), "failed to construct container URI from /workspaces/proj");
    assert_eq!(
        rust.folder_error("/x"),
        "failed to construct workspace folder URI from /workspaces/proj/x"
    );
}

#[test]
fn terminals_open_a_shell() {
    let task = container_lsp::spawn_task_for_container("c1", container_lsp::CONTAINER_SHELL);
    assert_eq!(task.id, "devcontainer-terminal-c1");
    assert_eq!(task.full_label, "DevContainer (c1)");
    assert_eq!(task.args, vec!["exec", "-it", "c1", "/bin/bash"]);
    assert_eq!(task.command_label, "docker exec -it c1 /bin/bash");
}
