//! Where the daemon listens, and where a workspace keeps its configuration.

use crate::path;
use crate::path_prefix;
use crate::platform;
use crate::platform::Platform;
use crate::text;
use vstd::prelude::*;
use vstd::string::StringExecFns;

verus! {

/// The socket of the daemon on Unix.
pub const TALA_SOCKET: &'static str = "/tmp/tala.sock";

/// The named pipe of the daemon on Windows.
pub const TALA_PIPE: &'static str = "\\\\.\\pipe\\tala";

/// Where the daemon listens.
pub open spec fn tala_address_text(platform: Platform) -> Seq<char> {
    match platform {
        Platform::Unix => TALA_SOCKET@,
        Platform::Windows => TALA_PIPE@,
    }
}

/// Where the daemon listens: at a socket on Unix, at a named pipe on Windows.
pub fn tala_address(platform: Platform) -> (r: &'static str)
    ensures
        r@ == tala_address_text(platform),
{
    match platform {
        Platform::Unix => TALA_SOCKET,
        Platform::Windows => TALA_PIPE,
    }
}

/// How long a diagnosis waits for the daemon to accept a connection, in seconds.
pub const TALA_CONNECT_TIMEOUT: u64 = 5;

/// What is said where the daemon does not accept a connection.
pub const CONNECT_MESSAGE: &'static str = "failed to connect to tala daemon -- is it running?";

/// Where a configuration is looked for first, below a workspace.
pub const PRIMARY_CONFIG: &'static str = ".devcontainer/devcontainer.json";

/// Where a configuration is looked for next, below a workspace.
pub const FALLBACK_CONFIG: &'static str = ".devcontainer.json";

/// What is said where the daemon does not accept a connection in time.
pub fn connect_timeout_message(seconds: u64) -> (r: String)
    ensures
        r@ == "connection timed out after "@ + text::decimal_text(seconds as nat) + "s"@,
{
    "connection timed out after ".to_owned().concat(text::decimal(seconds).as_str()).concat("s")
}

/// The configuration of a workspace, from which of the two places holds a file.
pub open spec fn detected_config(
    platform: Platform,
    workspace: Seq<char>,
    primary_exists: bool,
    fallback_exists: bool,
) -> Option<Seq<char>> {
    if primary_exists {
        Some(path::joined(platform, workspace, PRIMARY_CONFIG@))
    } else if fallback_exists {
        Some(path::joined(platform, workspace, FALLBACK_CONFIG@))
    } else {
        None
    }
}

/// The first place where a configuration is looked for.
pub fn primary_config(platform: Platform, workspace: &str) -> (r: String)
    ensures
        r@ == path::joined(platform, workspace@, PRIMARY_CONFIG@),
{
    proof {
        lemma_configs_are_plain(platform);
    }
    path::join(platform, workspace, PRIMARY_CONFIG)
}

/// The second place where a configuration is looked for.
pub fn fallback_config(platform: Platform, workspace: &str) -> (r: String)
    ensures
        r@ == path::joined(platform, workspace@, FALLBACK_CONFIG@),
{
    proof {
        lemma_configs_are_plain(platform);
    }
    path::join(platform, workspace, FALLBACK_CONFIG)
}

/// The configuration of a workspace, from which of the two places holds a file:
/// `.devcontainer/devcontainer.json` before `.devcontainer.json`.
pub fn detect_devcontainer_config(
    platform: Platform,
    workspace: &str,
    primary_exists: bool,
    fallback_exists: bool,
) -> (r: Option<String>)
    ensures
        text::text_option(r) == detected_config(platform, workspace@, primary_exists, fallback_exists),
{
    if primary_exists {
        return Some(primary_config(platform, workspace));
    }
    if fallback_exists {
        return Some(fallback_config(platform, workspace));
    }
    None
}

/// The pieces of the two places where a configuration is looked for.
proof fn lemma_config_pieces(platform: Platform)
    ensures
        path::pieces_of(platform, false, PRIMARY_CONFIG@) == seq![
            ".devcontainer"@,
            "devcontainer.json"@,
        ],
        path::pieces_of(platform, false, FALLBACK_CONFIG@) == seq![".devcontainer.json"@],
{
    reveal_strlit(".devcontainer/devcontainer.json");
    reveal_strlit(".devcontainer.json");
    reveal_strlit(".devcontainer");
    reveal_strlit("devcontainer.json");
    let separator = platform::separator(platform);
    let folder = ".devcontainer"@;
    let file = "devcontainer.json"@;
    let primary = path_prefix::folded(platform, false, PRIMARY_CONFIG@);
    assert(primary =~= folder + seq![separator] + file);
    text::lemma_split_concat(folder, file, separator);
    text::lemma_find_char_is(folder, separator, 13);
    text::lemma_find_char_is(file, separator, 17);
    assert(text::split_text(folder, separator) =~= seq![folder]);
    assert(text::split_text(file, separator) =~= seq![file]);
    assert(text::split_text(primary, separator) =~= seq![folder, file]);
    let fallback = path_prefix::folded(platform, false, FALLBACK_CONFIG@);
    assert(fallback =~= FALLBACK_CONFIG@);
    text::lemma_find_char_is(fallback, separator, 18);
    assert(text::split_text(fallback, separator) =~= seq![fallback]);
}

/// Both places where a configuration is looked for are plain paths.
proof fn lemma_configs_are_plain(platform: Platform)
    ensures
        path::is_plain(platform, PRIMARY_CONFIG@),
        path::is_plain(platform, FALLBACK_CONFIG@),
{
    reveal_strlit(".devcontainer/devcontainer.json");
    reveal_strlit(".devcontainer.json");
    reveal_strlit(".devcontainer");
    reveal_strlit("devcontainer.json");
    reveal_strlit(".");
    reveal_strlit("..");
    lemma_config_pieces(platform);
}

/// A configuration that was found lies below the workspace: what follows the workspace in its path
/// is the place where it was looked for, in backslashes where the workspace is a path that Windows
/// takes literally. The first place goes before the second. On Windows this is of places that are
/// read as below the workspace.
pub proof fn law_config_is_below_the_workspace(
    platform: Platform,
    workspace: Seq<char>,
    primary_exists: bool,
    fallback_exists: bool,
)
    requires
        platform == Platform::Unix || (path::extends(platform, workspace, PRIMARY_CONFIG@)
            && path::extends(platform, workspace, FALLBACK_CONFIG@)),
    ensures
        match detected_config(platform, workspace, primary_exists, fallback_exists) {
            Some(config) => path::relative_text(platform, config, workspace) == Some(
                if !primary_exists {
                    FALLBACK_CONFIG@
                } else if path::is_literal(platform, workspace) {
                    ".devcontainer\\devcontainer.json"@
                } else {
                    PRIMARY_CONFIG@
                },
            ),
            None => !primary_exists && !fallback_exists,
        },
{
    lemma_configs_are_plain(platform);
    lemma_config_pieces(platform);
    path::law_joined_child_is_relative(platform, workspace, PRIMARY_CONFIG@);
    path::law_joined_child_is_relative(platform, workspace, FALLBACK_CONFIG@);
    if path::is_literal(platform, workspace) {
        reveal_strlit(".devcontainer");
        reveal_strlit("devcontainer.json");
        reveal_strlit(".devcontainer\\devcontainer.json");
        reveal_with_fuel(text::join_texts, 3);
        let names = seq![".devcontainer"@, "devcontainer.json"@];
        assert(names.drop_last() =~= seq![".devcontainer"@]);
        assert(text::join_texts(names, seq!['\\']) =~= ".devcontainer\\devcontainer.json"@);
        assert(seq![".devcontainer.json"@][0] == FALLBACK_CONFIG@);
    }
}

/// The configuration of a workspace is the file that exists: `.devcontainer/devcontainer.json` below
/// the workspace wherever that is there, `.devcontainer.json` only where it is not, and none where
/// neither is.
pub proof fn law_existing_configuration_is_taken(
    platform: Platform,
    workspace: Seq<char>,
    primary_exists: bool,
    fallback_exists: bool,
)
    ensures
        primary_exists ==> detected_config(platform, workspace, primary_exists, fallback_exists)
            == Some(path::joined(platform, workspace, ".devcontainer/devcontainer.json"@)),
        !primary_exists && fallback_exists ==> detected_config(
            platform,
            workspace,
            primary_exists,
            fallback_exists,
        ) == Some(path::joined(platform, workspace, ".devcontainer.json"@)),
        !primary_exists && !fallback_exists ==> detected_config(
            platform,
            workspace,
            primary_exists,
            fallback_exists,
        ) is None,
{
}

/// A daemon listens at a socket on Unix and at a named pipe on Windows.
pub proof fn law_addresses()
    ensures
        tala_address_text(Platform::Unix) == "/tmp/tala.sock"@,
        tala_address_text(Platform::Windows) == "\\\\.\\pipe\\tala"@,
{
}

} // verus!
