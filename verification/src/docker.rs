//! The command lines that are handed to `docker`, and what its answers say.

use crate::bytes;
use crate::text;
use vstd::prelude::*;
use vstd::string::StringExecFns;

verus! {

/// What a working terminal echoes.
pub const SMOKE_MARK: &'static str = "SMOKE_OK";

/// The language server of Rust, as it is looked for in a container.
pub const RUST_SERVER: &'static str = "rust-analyzer";

/// The language server of Python, as it is looked for in a container.
pub const PYTHON_SERVER: &'static str = "pyright-langserver";

/// The command line that lists the containers that were made for a workspace.
pub fn list_args() -> (r: Vec<String>)
    ensures
        text::texts(r@) == seq!["ps"@, "-q"@, "--filter"@, "label=devcontainer.local_folder"@],
{
    let r = vec![
        "ps".to_owned(),
        "-q".to_owned(),
        "--filter".to_owned(),
        "label=devcontainer.local_folder".to_owned(),
    ];
    assert(text::texts(r@) =~= seq![
        "ps"@,
        "-q"@,
        "--filter"@,
        "label=devcontainer.local_folder"@,
    ]);
    r
}

/// The command line that asks for the workspace of a container.
pub open spec fn folder_command(container_id: Seq<char>) -> Seq<Seq<char>> {
    seq![
        "inspect"@,
        "-f"@,
        "{{index .Config.Labels \"devcontainer.local_folder\"}}"@,
        container_id,
    ]
}

/// The command line that asks for the workspace of a container.
pub fn folder_args(container_id: &str) -> (r: Vec<String>)
    ensures
        text::texts(r@) == folder_command(container_id@),
{
    let r = vec![
        "inspect".to_owned(),
        "-f".to_owned(),
        "{{index .Config.Labels \"devcontainer.local_folder\"}}".to_owned(),
        container_id.to_owned(),
    ];
    assert(text::texts(r@) =~= folder_command(container_id@));
    r
}

/// The command line that asks for the version of Docker.
pub fn info_args() -> (r: Vec<String>)
    ensures
        text::texts(r@) == seq!["info"@, "--format"@, "{{.ServerVersion}}"@],
{
    let r = vec!["info".to_owned(), "--format".to_owned(), "{{.ServerVersion}}".to_owned()];
    assert(text::texts(r@) =~= seq!["info"@, "--format"@, "{{.ServerVersion}}"@]);
    r
}

/// The command line that tests the terminal of a container.
pub open spec fn terminal_command(container_id: Seq<char>) -> Seq<Seq<char>> {
    seq!["exec"@, container_id, "echo"@, SMOKE_MARK@]
}

/// The command line that tests the terminal of a container.
pub fn terminal_args(container_id: &str) -> (r: Vec<String>)
    ensures
        text::texts(r@) == terminal_command(container_id@),
{
    let r = vec![
        "exec".to_owned(),
        container_id.to_owned(),
        "echo".to_owned(),
        SMOKE_MARK.to_owned(),
    ];
    assert(text::texts(r@) =~= terminal_command(container_id@));
    r
}

/// The command line that looks for a program in a container.
pub open spec fn binary_command(container_id: Seq<char>, binary: Seq<char>) -> Seq<Seq<char>> {
    seq!["exec"@, container_id, "sh"@, "-c"@, "command -v "@ + binary]
}

/// The command line that looks for a program in a container.
pub fn binary_args(container_id: &str, binary: &str) -> (r: Vec<String>)
    ensures
        text::texts(r@) == binary_command(container_id@, binary@),
{
    let r = vec![
        "exec".to_owned(),
        container_id.to_owned(),
        "sh".to_owned(),
        "-c".to_owned(),
        "command -v ".to_owned().concat(binary),
    ];
    assert(text::texts(r@) =~= binary_command(container_id@, binary@));
    r
}

/// Where a container keeps a workspace.
pub open spec fn container_dir(project_name: Seq<char>) -> Seq<char> {
    "/workspaces/"@ + project_name
}

/// Where a container keeps a workspace.
pub fn container_path(project_name: &str) -> (r: String)
    ensures
        r@ == container_dir(project_name@),
{
    "/workspaces/".to_owned().concat(project_name)
}

/// The command line that runs a language server in a container.
pub open spec fn server_command(
    container_id: Seq<char>,
    project_name: Seq<char>,
    binary: Seq<char>,
    args: Seq<Seq<char>>,
) -> Seq<Seq<char>> {
    seq!["exec"@, "-i"@, "-w"@, container_dir(project_name), container_id, binary] + args
}

/// The command line that runs a language server in a container.
pub fn server_args(
    container_id: &str,
    project_name: &str,
    binary: &str,
    args: &Vec<String>,
) -> (r: Vec<String>)
    ensures
        text::texts(r@) == server_command(
            container_id@,
            project_name@,
            binary@,
            text::texts(args@),
        ),
{
    let mut r = vec![
        "exec".to_owned(),
        "-i".to_owned(),
        "-w".to_owned(),
        container_path(project_name),
        container_id.to_owned(),
        binary.to_owned(),
    ];
    let ghost head = seq![
        "exec"@,
        "-i"@,
        "-w"@,
        container_dir(project_name@),
        container_id@,
        binary@,
    ];
    let ghost all = text::texts(args@);
    let mut i: usize = 0;
    assert(text::texts(r@) =~= head + all.take(0));
    while i < args.len()
        invariant
            i <= args@.len(),
            all == text::texts(args@),
            text::texts(r@) == head + all.take(i as int),
        decreases args@.len() - i,
    {
        let ghost before = text::texts(r@);
        r.push(args[i].clone());
        assert(text::texts(r@) =~= before.push(all[i as int]));
        assert(head + all.take(i + 1) =~= (head + all.take(i as int)).push(all[i as int]));
        i = i + 1;
    }
    assert(all.take(i as int) =~= all);
    r
}

/// Whether the answer to the test of a terminal says that it works.
pub open spec fn terminal_works(success: bool, stdout: Seq<u8>) -> bool {
    success && text::contains_text(bytes::shown_text(stdout), SMOKE_MARK@)
}

/// Whether the answer to the test of a terminal says that it works.
pub fn terminal_answered(success: bool, stdout: &Vec<u8>) -> (r: bool)
    ensures
        r == terminal_works(success, stdout@),
{
    success && text::contains(bytes::show(stdout).as_str(), SMOKE_MARK)
}

/// The lines that are not empty, in order.
pub open spec fn filled_lines(lines: Seq<Seq<char>>) -> Seq<Seq<char>>
    decreases lines.len(),
{
    if lines.len() == 0 {
        seq![]
    } else if lines.last().len() > 0 {
        filled_lines(lines.drop_last()).push(lines.last())
    } else {
        filled_lines(lines.drop_last())
    }
}

/// The containers that a list names, one on each line.
pub open spec fn listed_ids(stdout: Seq<u8>) -> Seq<Seq<char>> {
    filled_lines(text::line_texts(bytes::shown_text(stdout)))
}

/// The containers that a list names, one on each line.
pub fn container_ids(stdout: &Vec<u8>) -> (r: Vec<String>)
    ensures
        text::texts(r@) == listed_ids(stdout@),
{
    let lines = text::lines(bytes::show(stdout).as_str());
    let ghost all = text::texts(lines@);
    let mut ids: Vec<String> = Vec::new();
    let mut i: usize = 0;
    assert(all.take(0) =~= seq![]);
    assert(text::texts(ids@) =~= seq![]);
    while i < lines.len()
        invariant
            i <= lines@.len(),
            all == text::texts(lines@),
            text::texts(ids@) == filled_lines(all.take(i as int)),
        decreases lines@.len() - i,
    {
        let ghost before = text::texts(ids@);
        assert(all.take(i + 1).drop_last() =~= all.take(i as int));
        assert(all.take(i + 1).last() == lines@[i as int]@);
        if !lines[i].as_str().is_empty() {
            ids.push(lines[i].clone());
            assert(text::texts(ids@) =~= before.push(lines@[i as int]@));
        }
        i = i + 1;
    }
    assert(all.take(i as int) =~= all);
    ids
}

/// What is said where Docker does not list the containers.
pub fn list_error(stderr: &Vec<u8>) -> (r: String)
    ensures
        r@ == "docker ps failed: "@ + bytes::shown_text(stderr@),
{
    "docker ps failed: ".to_owned().concat(bytes::show(stderr).as_str())
}

/// The workspace that the label of a container names.
pub open spec fn labelled_folder(success: bool, stdout: Seq<u8>) -> Option<Seq<char>> {
    let folder = text::trimmed(bytes::shown_text(stdout));
    if success && folder.len() > 0 {
        Some(folder)
    } else {
        None
    }
}

/// The workspace that the label of a container names.
pub fn container_folder(success: bool, stdout: &Vec<u8>) -> (r: Option<String>)
    ensures
        text::text_option(r) == labelled_folder(success, stdout@),
{
    if success {
        let folder = text::trim(bytes::show(stdout).as_str());
        if !folder.as_str().is_empty() {
            return Some(folder);
        }
    }
    None
}

/// Every container that a list names has a name.
pub proof fn law_listed_containers_have_names(stdout: Seq<u8>)
    ensures
        forall|i: int|
            0 <= i < listed_ids(stdout).len() ==> (#[trigger] listed_ids(stdout)[i]).len() > 0,
{
    lemma_filled(text::line_texts(bytes::shown_text(stdout)));
}

/// The lines that are not empty are not empty.
proof fn lemma_filled(lines: Seq<Seq<char>>)
    ensures
        forall|i: int|
            0 <= i < filled_lines(lines).len() ==> (#[trigger] filled_lines(lines)[i]).len() > 0,
    decreases lines.len(),
{
    if lines.len() > 0 {
        let rest = filled_lines(lines.drop_last());
        lemma_filled(lines.drop_last());
        assert forall|i: int| 0 <= i < filled_lines(lines).len() implies (
        #[trigger] filled_lines(lines)[i]).len() > 0 by {
            if i < rest.len() {
                assert(filled_lines(lines)[i] == rest[i]);
            }
        }
    }
}

/// A language server is run inside the container, in the folder of the project, with all of its
/// arguments and no others.
pub proof fn law_server_runs_in_the_container(
    container_id: Seq<char>,
    project_name: Seq<char>,
    binary: Seq<char>,
    args: Seq<Seq<char>>,
)
    ensures
        ({
            let command = server_command(container_id, project_name, binary, args);
            &&& command.len() == 6 + args.len()
            &&& command[0] == "exec"@
            &&& command[1] == "-i"@
            &&& command[2] == "-w"@
            &&& command[3] == "/workspaces/"@ + project_name
            &&& command[4] == container_id
            &&& command[5] == binary
            &&& command.skip(6) == args
        }),
{
    let command = server_command(container_id, project_name, binary, args);
    assert(command.skip(6) =~= args);
}

/// The other commands are about the container that is named: its terminal echoes the mark, its shell
/// looks for the program, and its label is asked for.
pub proof fn law_commands_name_the_container(container_id: Seq<char>, binary: Seq<char>)
    ensures
        terminal_command(container_id) == seq!["exec"@, container_id, "echo"@, "SMOKE_OK"@],
        binary_command(container_id, binary) == seq![
            "exec"@,
            container_id,
            "sh"@,
            "-c"@,
            "command -v "@ + binary,
        ],
        folder_command(container_id).last() == container_id,
        folder_command(container_id)[0] == "inspect"@,
        folder_command(container_id)[2]
            == "{{index .Config.Labels \"devcontainer.local_folder\"}}"@,
        folder_command(container_id).len() == 4,
{
}

/// A terminal works where the command succeeded and what it printed holds the mark, and only there.
pub proof fn law_terminal_works_where_it_echoes(
    success: bool,
    stdout: Seq<u8>,
    before: Seq<char>,
    after: Seq<char>,
)
    ensures
        terminal_works(success, stdout) ==> success,
        terminal_works(success, stdout) ==> text::contains_text(
            bytes::shown_text(stdout),
            "SMOKE_OK"@,
        ),
        bytes::shown_text(stdout) == before + "SMOKE_OK"@ + after ==> terminal_works(success, stdout)
            == success,
        bytes::shown_text(stdout).len() < "SMOKE_OK"@.len() ==> !terminal_works(success, stdout),
{
    let s = before + "SMOKE_OK"@ + after;
    assert(s.subrange(before.len() as int, (before.len() + "SMOKE_OK"@.len()) as int) =~= "SMOKE_OK"@);
}

/// The label of a container names a workspace where it could be read and is more than blanks: what
/// is printed without the white space around it.
pub proof fn law_label_names_the_workspace(success: bool, stdout: Seq<u8>)
    ensures
        labelled_folder(success, stdout) is Some <==> success && text::trimmed(
            bytes::shown_text(stdout),
        ).len() > 0,
        labelled_folder(success, stdout) matches Some(folder) ==> folder == text::trimmed(
            bytes::shown_text(stdout),
        ),
{
}

/// Each line that is not empty lists a container, in the order of the lines; nothing else does.
pub proof fn law_each_line_lists_a_container(line: Seq<char>, rest: Seq<char>)
    requires
        !line.contains('\n'),
        line.len() > 0 ==> line.last() != '\r',
    ensures
        filled_lines(text::line_texts(line + seq!['\n'] + rest)) == if line.len() > 0 {
            seq![line] + filled_lines(text::line_texts(rest))
        } else {
            filled_lines(text::line_texts(rest))
        },
        filled_lines(text::line_texts(seq![])) == Seq::<Seq<char>>::empty(),
{
    let s = line + seq!['\n'] + rest;
    let at = line.len() as int;
    assert(s[at] == '\n');
    assert forall|i: int| 0 <= i < at implies s[i] != '\n' by {
        assert(line.contains(line[i]));
    }
    text::lemma_find_char_is(s, '\n', at);
    assert(s.take(at) =~= line);
    assert(s.skip(at + 1) =~= rest);
    assert(text::without_return(line) == line);
    lemma_filled_front(line, text::line_texts(rest));
    assert(text::line_texts(s) == seq![line] + text::line_texts(rest));
    assert(text::line_texts(Seq::<char>::empty()) =~= seq![]);
}

/// A first line goes before the others.
proof fn lemma_filled_front(line: Seq<char>, rest: Seq<Seq<char>>)
    ensures
        filled_lines(seq![line] + rest) == if line.len() > 0 {
            seq![line] + filled_lines(rest)
        } else {
            filled_lines(rest)
        },
    decreases rest.len(),
{
    let all = seq![line] + rest;
    if rest.len() == 0 {
        assert(all.drop_last() =~= seq![]);
        assert(filled_lines(all.drop_last()) =~= seq![]);
        assert(filled_lines(rest) =~= seq![]);
        assert(filled_lines(all) =~= if line.len() > 0 {
            seq![line]
        } else {
            seq![]
        });
        assert(seq![line] + filled_lines(rest) =~= seq![line]);
    } else {
        assert(all.drop_last() =~= seq![line] + rest.drop_last());
        assert(all.last() == rest.last());
        lemma_filled_front(line, rest.drop_last());
        assert(filled_lines(all) =~= if line.len() > 0 {
            seq![line] + filled_lines(rest)
        } else {
            filled_lines(rest)
        });
    }
}

/// The containers of a list are those of its text.
pub proof fn law_listed_containers_are_the_lines(stdout: Seq<u8>)
    ensures
        listed_ids(stdout) == filled_lines(text::line_texts(bytes::shown_text(stdout))),
        bytes::shown_text(stdout).len() == 0 ==> listed_ids(stdout).len() == 0,
{
}

} // verus!
