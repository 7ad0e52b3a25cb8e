//! Language servers and terminals that run inside a container, as an editor needs them described.

use crate::docker;
use crate::text;
use vstd::prelude::*;
use vstd::string::StringExecFns;

verus! {

/// A language server that runs inside a container.
#[derive(Debug)]
pub struct ContainerLspAdapter {
    pub container_id: String,
    pub project_name: String,
    pub server_name: String,
    pub server_binary: String,
    pub server_args: Vec<String>,
    pub language_name: String,
    pub lsp_language_id: String,
    pub diagnostic_sources: Vec<String>,
    pub diagnostics_progress_token: Option<String>,
}

/// The model of a language server that runs inside a container.
pub struct AdapterModel {
    pub container_id: Seq<char>,
    pub project_name: Seq<char>,
    pub server_name: Seq<char>,
    pub server_binary: Seq<char>,
    pub server_args: Seq<Seq<char>>,
    pub language_name: Seq<char>,
    pub lsp_language_id: Seq<char>,
    pub diagnostic_sources: Seq<Seq<char>>,
    pub diagnostics_progress_token: Option<Seq<char>>,
}

impl View for ContainerLspAdapter {
    type V = AdapterModel;

    open spec fn view(&self) -> AdapterModel {
        AdapterModel {
            container_id: self.container_id@,
            project_name: self.project_name@,
            server_name: self.server_name@,
            server_binary: self.server_binary@,
            server_args: text::texts(self.server_args@),
            language_name: self.language_name@,
            lsp_language_id: self.lsp_language_id@,
            diagnostic_sources: text::texts(self.diagnostic_sources@),
            diagnostics_progress_token: text::text_option(self.diagnostics_progress_token),
        }
    }
}

/// The language server of Rust.
pub open spec fn rust_adapter(container_id: Seq<char>, project_name: Seq<char>) -> AdapterModel {
    AdapterModel {
        container_id,
        project_name,
        server_name: "rust-analyzer"@,
        server_binary: "rust-analyzer"@,
        server_args: seq![],
        language_name: "Rust"@,
        lsp_language_id: "rust"@,
        diagnostic_sources: seq!["rustc"@],
        diagnostics_progress_token: Some("rust-analyzer/flycheck"@),
    }
}

/// The language server of Python.
pub open spec fn python_adapter(container_id: Seq<char>, project_name: Seq<char>) -> AdapterModel {
    AdapterModel {
        container_id,
        project_name,
        server_name: "pyright"@,
        server_binary: "pyright-langserver"@,
        server_args: seq!["--stdio"@],
        language_name: "Python"@,
        lsp_language_id: "python"@,
        diagnostic_sources: seq![],
        diagnostics_progress_token: None,
    }
}

/// The command line that runs a language server.
pub open spec fn run_command(adapter: AdapterModel) -> Seq<Seq<char>> {
    docker::server_command(
        adapter.container_id,
        adapter.project_name,
        adapter.server_binary,
        adapter.server_args,
    )
}

/// The last part of a path between slashes that is not empty.
pub open spec fn last_filled(parts: Seq<Seq<char>>) -> Seq<char>
    decreases parts.len(),
{
    if parts.len() == 0 {
        seq![]
    } else if parts.last().len() > 0 {
        parts.last()
    } else {
        last_filled(parts.drop_last())
    }
}

/// Where the container keeps a folder of the host: below the workspace, under its last name.
pub open spec fn remapped(project_name: Seq<char>, host_path: Seq<char>) -> Seq<char> {
    let tail = last_filled(text::split_text(host_path, '/'));
    if tail.len() == 0 {
        docker::container_dir(project_name)
    } else {
        docker::container_dir(project_name) + "/"@ + tail
    }
}

/// The last part of a path between slashes that is not empty.
fn tail_of(host_path: &str) -> (r: String)
    ensures
        r@ == last_filled(text::split_text(host_path@, '/')),
{
    let parts = text::split(host_path, '/');
    let ghost all = text::texts(parts@);
    let mut n: usize = parts.len();
    assert(all.take(n as int) =~= all);
    while n > 0
        invariant
            n <= parts@.len(),
            all == text::texts(parts@),
            last_filled(text::split_text(host_path@, '/')) == last_filled(all.take(n as int)),
        decreases n,
    {
        assert(all.take(n as int).last() == parts@[n - 1]@);
        assert(all.take(n as int).drop_last() =~= all.take(n - 1));
        if !parts[n - 1].as_str().is_empty() {
            return parts[n - 1].clone();
        }
        n = n - 1;
    }
    let r: String = String::new();
    assert(r@ =~= seq![]);
    r
}

impl ContainerLspAdapter {
    /// The language server of Rust.
    pub fn rust(container_id: String, project_name: String) -> (r: Self)
        ensures
            r@ == rust_adapter(container_id@, project_name@),
    {
        let r = ContainerLspAdapter {
            container_id,
            project_name,
            server_name: "rust-analyzer".to_owned(),
            server_binary: "rust-analyzer".to_owned(),
            server_args: Vec::new(),
            language_name: "Rust".to_owned(),
            lsp_language_id: "rust".to_owned(),
            diagnostic_sources: vec!["rustc".to_owned()],
            diagnostics_progress_token: Some("rust-analyzer/flycheck".to_owned()),
        };
        assert(r@.server_args =~= seq![]);
        assert(r@.diagnostic_sources =~= seq!["rustc"@]);
        r
    }

    /// The language server of Python.
    pub fn python(container_id: String, project_name: String) -> (r: Self)
        ensures
            r@ == python_adapter(container_id@, project_name@),
    {
        let r = ContainerLspAdapter {
            container_id,
            project_name,
            server_name: "pyright".to_owned(),
            server_binary: "pyright-langserver".to_owned(),
            server_args: vec!["--stdio".to_owned()],
            language_name: "Python".to_owned(),
            lsp_language_id: "python".to_owned(),
            diagnostic_sources: Vec::new(),
            diagnostics_progress_token: None,
        };
        assert(r@.server_args =~= seq!["--stdio"@]);
        assert(r@.diagnostic_sources =~= seq![]);
        r
    }

    /// How an editor finds the language server again.
    pub fn server(&self) -> (r: ContainerServer)
        ensures
            r@ == server_of(self@),
    {
        ContainerServer {
            language_name: self.language_name.clone(),
            server_name: self.server_name.clone(),
        }
    }

    /// The arguments with which `docker` runs the server.
    pub fn build_binary(&self) -> (r: Vec<String>)
        ensures
            text::texts(r@) == docker::server_command(
                self@.container_id,
                self@.project_name,
                self@.server_binary,
                self@.server_args,
            ),
            text::texts(r@) == run_command(self@),
    {
        docker::server_args(
            self.container_id.as_str(),
            self.project_name.as_str(),
            self.server_binary.as_str(),
            &self.server_args,
        )
    }

    /// Where the container keeps the workspace.
    pub fn root_path(&self) -> (r: String)
        ensures
            r@ == docker::container_dir(self@.project_name),
    {
        docker::container_path(self.project_name.as_str())
    }

    /// Where the container keeps a folder of the host.
    pub fn remap_folder(&self, host_path: &str) -> (r: String)
        ensures
            r@ == remapped(self@.project_name, host_path@),
    {
        let root = self.root_path();
        let tail = tail_of(host_path);
        if tail.as_str().is_empty() {
            root
        } else {
            root.concat("/").concat(tail.as_str())
        }
    }

    /// What is said where the root of the workspace is no valid location.
    pub fn root_error(&self) -> (r: String)
        ensures
            r@ == "failed to construct container URI from "@ + docker::container_dir(
                self@.project_name,
            ),
    {
        "failed to construct container URI from ".to_owned().concat(self.root_path().as_str())
    }

    /// What is said where a folder of the workspace is no valid location.
    pub fn folder_error(&self, host_path: &str) -> (r: String)
        ensures
            r@ == "failed to construct workspace folder URI from "@ + remapped(
                self@.project_name,
                host_path@,
            ),
    {
        "failed to construct workspace folder URI from ".to_owned().concat(
            self.remap_folder(host_path).as_str(),
        )
    }

    /// What is said where another version of the server is asked for.
    pub fn version_error(&self) -> (r: String)
        ensures
            r@ == "container-managed "@ + self@.server_binary
                + " does not support version fetching"@,
    {
        "container-managed ".to_owned().concat(self.server_binary.as_str()).concat(
            " does not support version fetching",
        )
    }
}

/// A language server as an editor finds it again: its language and its name.
#[derive(Debug)]
pub struct ContainerServer {
    pub language_name: String,
    pub server_name: String,
}

/// The model of a language server as an editor finds it again.
pub struct ServerModel {
    pub language_name: Seq<char>,
    pub server_name: Seq<char>,
}

impl View for ContainerServer {
    type V = ServerModel;

    open spec fn view(&self) -> ServerModel {
        ServerModel { language_name: self.language_name@, server_name: self.server_name@ }
    }
}

/// How an editor finds a language server again.
pub open spec fn server_of(adapter: AdapterModel) -> ServerModel {
    ServerModel { language_name: adapter.language_name, server_name: adapter.server_name }
}

/// The two language servers of a container as an editor finds them again, that of Rust before that
/// of Python. No container or project is part of it.
pub open spec fn servers_of_container() -> (ServerModel, ServerModel) {
    (
        ServerModel { language_name: "Rust"@, server_name: "rust-analyzer"@ },
        ServerModel { language_name: "Python"@, server_name: "pyright"@ },
    )
}

/// The two language servers of a container as an editor finds them again: by the languages and the
/// names that their adapters have, whatever the container and the project are.
pub fn container_servers() -> (r: (ContainerServer, ContainerServer))
    ensures
        (r.0@, r.1@) == servers_of_container(),
        forall|container_id: Seq<char>, project_name: Seq<char>|
            r.0@ == server_of(#[trigger] rust_adapter(container_id, project_name)),
        forall|container_id: Seq<char>, project_name: Seq<char>|
            r.1@ == server_of(#[trigger] python_adapter(container_id, project_name)),
{
    (
        ContainerServer {
            language_name: "Rust".to_owned(),
            server_name: "rust-analyzer".to_owned(),
        },
        ContainerServer { language_name: "Python".to_owned(), server_name: "pyright".to_owned() },
    )
}

/// The models of the languages of open buffers; a buffer may have none.
pub open spec fn language_models(languages: Seq<Option<String>>) -> Seq<Option<Seq<char>>> {
    languages.map_values(|language: Option<String>| text::text_option(language))
}

/// The positions of a language among those of open buffers, in order.
pub open spec fn positions_of(languages: Seq<Option<Seq<char>>>, language: Seq<char>) -> Seq<int>
    decreases languages.len(),
{
    if languages.len() == 0 {
        seq![]
    } else {
        let before = positions_of(languages.drop_last(), language);
        if languages.last() == Some(language) {
            before.push(languages.len() - 1)
        } else {
            before
        }
    }
}

/// The models of a list of positions.
pub open spec fn position_models(positions: Seq<usize>) -> Seq<int> {
    positions.map_values(|at: usize| at as int)
}

/// The positions of the open buffers that have a language, in order.
pub fn buffers_of(languages: &Vec<Option<String>>, language: &str) -> (r: Vec<usize>)
    ensures
        position_models(r@) == positions_of(language_models(languages@), language@),
{
    let ghost all = language_models(languages@);
    let mut r: Vec<usize> = Vec::new();
    let mut i: usize = 0;
    assert(position_models(r@) =~= positions_of(all.take(0), language@));
    while i < languages.len()
        invariant
            i <= languages@.len(),
            all == language_models(languages@),
            position_models(r@) == positions_of(all.take(i as int), language@),
        decreases languages@.len() - i,
    {
        let ghost before = position_models(r@);
        assert(all.take(i + 1).drop_last() =~= all.take(i as int));
        assert(all.take(i + 1).last() == text::text_option(languages@[i as int]));
        let found = match &languages[i] {
            Some(name) => text::same(name.as_str(), language),
            None => false,
        };
        if found {
            r.push(i);
            assert(position_models(r@) =~= before.push(i as int));
        }
        i = i + 1;
    }
    assert(all.take(i as int) =~= all);
    r
}

/// A restart of a language server for some of the open buffers.
#[derive(Debug)]
pub struct Restart {
    pub server_name: String,
    pub buffers: Vec<usize>,
}

/// The model of a restart of a language server.
pub struct RestartModel {
    pub server_name: Seq<char>,
    pub buffers: Seq<int>,
}

impl View for Restart {
    type V = RestartModel;

    open spec fn view(&self) -> RestartModel {
        RestartModel {
            server_name: self.server_name@,
            buffers: position_models(self.buffers@),
        }
    }
}

/// The model of a restart that may be needed.
pub open spec fn restart_option(restart: Option<Restart>) -> Option<RestartModel> {
    match restart {
        Some(restart) => Some(restart@),
        None => None,
    }
}

/// The restart of a language server: for the open buffers of its language, where there are any.
pub open spec fn needed_restart(
    server: ServerModel,
    languages: Seq<Option<Seq<char>>>,
) -> Option<RestartModel> {
    let buffers = positions_of(languages, server.language_name);
    if buffers.len() == 0 {
        None
    } else {
        Some(RestartModel { server_name: server.server_name, buffers })
    }
}

impl ContainerServer {
    /// The restart of the language server that follows when it was registered or taken back, from
    /// the languages of the open buffers.
    pub fn restart(&self, languages: &Vec<Option<String>>) -> (r: Option<Restart>)
        ensures
            restart_option(r) == needed_restart(self@, language_models(languages@)),
    {
        let buffers = buffers_of(languages, self.language_name.as_str());
        assert(position_models(buffers@).len() == buffers@.len());
        if buffers.len() == 0 {
            None
        } else {
            Some(Restart { server_name: self.server_name.clone(), buffers })
        }
    }
}

/// The positions of a language are in order and in range, and a position is among them just where
/// the buffer there has the language.
pub proof fn law_positions_are_those_of_the_language(
    languages: Seq<Option<Seq<char>>>,
    language: Seq<char>,
)
    ensures
        ({
            let positions = positions_of(languages, language);
            &&& forall|j: int|
                0 <= j < positions.len() ==> 0 <= #[trigger] positions[j] < languages.len()
            &&& forall|j: int, k: int|
                0 <= j < k < positions.len() ==> #[trigger] positions[j] < #[trigger] positions[k]
            &&& forall|i: int|
                0 <= i < languages.len() ==> (#[trigger] positions.contains(i) <==> languages[i]
                    == Some(language))
        }),
    decreases languages.len(),
{
    let positions = positions_of(languages, language);
    if languages.len() > 0 {
        let shorter = languages.drop_last();
        let before = positions_of(shorter, language);
        law_positions_are_those_of_the_language(shorter, language);
        let last = languages.len() - 1;
        assert forall|i: int| 0 <= i < languages.len() implies (#[trigger] positions.contains(i)
            <==> languages[i] == Some(language)) by {
            if i < last {
                assert(shorter[i] == languages[i]);
                if before.contains(i) {
                    let j = before.index_of(i);
                    assert(positions[j] == i);
                }
                if positions.contains(i) {
                    let j = positions.index_of(i);
                    assert(before[j] == i);
                }
            } else {
                if languages[i] == Some(language) {
                    assert(positions[positions.len() - 1] == i);
                }
                if positions.contains(i) && languages[i] != Some(language) {
                    let j = before.index_of(i);
                    assert(before[j] == i);
                }
            }
        }
    }
}

/// A language server is restarted just where a buffer of its language is open.
pub proof fn law_restart_needs_an_open_buffer(
    server: ServerModel,
    languages: Seq<Option<Seq<char>>>,
)
    ensures
        needed_restart(server, languages) is Some <==> languages.contains(
            Some(server.language_name),
        ),
{
    let positions = positions_of(languages, server.language_name);
    law_positions_are_those_of_the_language(languages, server.language_name);
    if languages.contains(Some(server.language_name)) {
        let i = languages.index_of(Some(server.language_name));
        assert(positions.contains(i));
    }
    if positions.len() > 0 {
        let i = positions[0];
        assert(positions.contains(i));
        assert(languages[i] == Some(server.language_name));
    }
}

/// A shell inside a container, as a terminal needs it described.
#[derive(Debug)]
pub struct TerminalTask {
    pub id: String,
    pub full_label: String,
    pub label: String,
    pub command: String,
    pub args: Vec<String>,
    pub command_label: String,
}

/// The model of a shell inside a container.
pub struct TaskModel {
    pub id: Seq<char>,
    pub full_label: Seq<char>,
    pub label: Seq<char>,
    pub command: Seq<char>,
    pub args: Seq<Seq<char>>,
    pub command_label: Seq<char>,
}

impl View for TerminalTask {
    type V = TaskModel;

    open spec fn view(&self) -> TaskModel {
        TaskModel {
            id: self.id@,
            full_label: self.full_label@,
            label: self.label@,
            command: self.command@,
            args: text::texts(self.args@),
            command_label: self.command_label@,
        }
    }
}

/// The shell that is opened where none is named.
pub const CONTAINER_SHELL: &'static str = "/bin/bash";

/// A shell inside a container.
pub open spec fn terminal_task(container_id: Seq<char>, shell: Seq<char>) -> TaskModel {
    TaskModel {
        id: "devcontainer-terminal-"@ + container_id,
        full_label: "DevContainer ("@ + container_id + ")"@,
        label: "DevContainer"@,
        command: "docker"@,
        args: seq!["exec"@, "-it"@, container_id, shell],
        command_label: "docker exec -it "@ + container_id + " "@ + shell,
    }
}

/// A shell inside a container.
pub fn spawn_task_for_container(container_id: &str, container_shell: &str) -> (r: TerminalTask)
    ensures
        r@ == terminal_task(container_id@, container_shell@),
{
    let r = TerminalTask {
        id: "devcontainer-terminal-".to_owned().concat(container_id),
        full_label: "DevContainer (".to_owned().concat(container_id).concat(")"),
        label: "DevContainer".to_owned(),
        command: "docker".to_owned(),
        args: vec![
            "exec".to_owned(),
            "-it".to_owned(),
            container_id.to_owned(),
            container_shell.to_owned(),
        ],
        command_label: "docker exec -it ".to_owned().concat(container_id).concat(" ").concat(
            container_shell,
        ),
    };
    assert(r@.args =~= seq!["exec"@, "-it"@, container_id@, container_shell@]);
    r
}

/// A folder of the host lies below the workspace of the container, whatever its path is.
pub proof fn law_remapped_folder_is_in_the_workspace(project_name: Seq<char>, host_path: Seq<char>)
    ensures
        docker::container_dir(project_name).is_prefix_of(remapped(project_name, host_path)),
{
    let root = docker::container_dir(project_name);
    assert(remapped(project_name, host_path).take(root.len() as int) =~= root);
}

/// The two language servers of a container, as they are registered: for which language, under which
/// name, with which program and arguments, and whose diagnostics they replace.
pub proof fn law_adapters_of_a_container(container_id: Seq<char>, project_name: Seq<char>)
    ensures
        ({
            let rust = rust_adapter(container_id, project_name);
            &&& rust.container_id == container_id && rust.project_name == project_name
            &&& rust.language_name == "Rust"@ && rust.lsp_language_id == "rust"@
            &&& rust.server_name == "rust-analyzer"@ && rust.server_binary == "rust-analyzer"@
            &&& rust.server_args.len() == 0
            &&& rust.diagnostic_sources == seq!["rustc"@]
            &&& rust.diagnostics_progress_token == Some("rust-analyzer/flycheck"@)
        }),
        ({
            let python = python_adapter(container_id, project_name);
            &&& python.container_id == container_id && python.project_name == project_name
            &&& python.language_name == "Python"@ && python.lsp_language_id == "python"@
            &&& python.server_name == "pyright"@ && python.server_binary == "pyright-langserver"@
            &&& python.server_args == seq!["--stdio"@]
            &&& python.diagnostic_sources.len() == 0
            &&& python.diagnostics_progress_token is None
        }),
{
}

/// The command lines of the two servers, written out.
pub proof fn law_servers_are_run_in_the_container(container_id: Seq<char>, project_name: Seq<char>)
    ensures
        ({
            let rust = rust_adapter(container_id, project_name);
            docker::server_command(
                rust.container_id,
                rust.project_name,
                rust.server_binary,
                rust.server_args,
            ) == seq![
                "exec"@,
                "-i"@,
                "-w"@,
                "/workspaces/"@ + project_name,
                container_id,
                "rust-analyzer"@,
            ]
        }),
        ({
            let python = python_adapter(container_id, project_name);
            docker::server_command(
                python.container_id,
                python.project_name,
                python.server_binary,
                python.server_args,
            ) == seq![
                "exec"@,
                "-i"@,
                "-w"@,
                "/workspaces/"@ + project_name,
                container_id,
                "pyright-langserver"@,
                "--stdio"@,
            ]
        }),
{
    let rust = docker::server_command(container_id, project_name, "rust-analyzer"@, seq![]);
    let python = docker::server_command(
        container_id,
        project_name,
        "pyright-langserver"@,
        seq!["--stdio"@],
    );
    assert(rust =~= seq![
        "exec"@,
        "-i"@,
        "-w"@,
        "/workspaces/"@ + project_name,
        container_id,
        "rust-analyzer"@,
    ]);
    assert(python =~= seq![
        "exec"@,
        "-i"@,
        "-w"@,
        "/workspaces/"@ + project_name,
        container_id,
        "pyright-langserver"@,
        "--stdio"@,
    ]);
}

/// A folder of the host is kept below the workspace under the last name of its path, whatever stands
/// before that name; slashes at the end count for nothing, and a path without a name is the workspace
/// itself.
pub proof fn law_folder_keeps_its_last_name(
    project_name: Seq<char>,
    before: Seq<char>,
    name: Seq<char>,
    host_path: Seq<char>,
)
    requires
        name.len() > 0,
        !name.contains('/'),
    ensures
        remapped(project_name, before + seq!['/'] + name) == "/workspaces/"@ + project_name + "/"@
            + name,
        remapped(project_name, name) == "/workspaces/"@ + project_name + "/"@ + name,
        remapped(project_name, host_path + seq!['/']) == remapped(project_name, host_path),
        remapped(project_name, seq![]) == "/workspaces/"@ + project_name,
{
    let none: Seq<char> = seq![];
    assert forall|i: int| 0 <= i < name.len() implies name[i] != '/' by {
        assert(name.contains(name[i]));
    }
    text::lemma_find_char_is(name, '/', name.len() as int);
    text::lemma_find_char_is(none, '/', 0);
    assert(text::split_text(name, '/') =~= seq![name]);
    assert(text::split_text(none, '/') =~= seq![none]);
    text::lemma_split_concat(before, name, '/');
    text::lemma_split_concat(host_path, none, '/');
    assert(host_path + seq!['/'] + none =~= host_path + seq!['/']);
    let all = text::split_text(before, '/') + seq![name];
    assert(all.last() == name);
    assert(seq![name].last() == name);
    let longer = text::split_text(host_path, '/') + seq![none];
    assert(longer.last() == none);
    assert(longer.drop_last() =~= text::split_text(host_path, '/'));
    assert(seq![none].drop_last() =~= seq![]);
    assert(last_filled(seq![none].drop_last()) =~= seq![]);
    assert(last_filled(seq![none]) =~= seq![]);
}

/// A shell is opened in the container that is named, and the task is named after it.
pub proof fn law_shell_is_opened_in_the_container(container_id: Seq<char>, shell: Seq<char>)
    ensures
        terminal_task(container_id, shell).command == "docker"@,
        terminal_task(container_id, shell).args == seq!["exec"@, "-it"@, container_id, shell],
        terminal_task(container_id, shell).id == "devcontainer-terminal-"@ + container_id,
        terminal_task(container_id, shell).full_label == "DevContainer ("@ + container_id + ")"@,
        terminal_task(container_id, shell).label == "DevContainer"@,
        terminal_task(container_id, shell).command_label == "docker exec -it "@ + container_id
            + " "@ + shell,
        CONTAINER_SHELL@ == "/bin/bash"@,
{
}

/// The servers that an editor forgets are those of the adapters, by language and by name.
pub proof fn law_servers_are_found_again(container_id: Seq<char>, project_name: Seq<char>)
    ensures
        servers_of_container().0 == server_of(rust_adapter(container_id, project_name)),
        servers_of_container().1 == server_of(python_adapter(container_id, project_name)),
        server_of(rust_adapter(container_id, project_name)) == (ServerModel {
            language_name: "Rust"@,
            server_name: "rust-analyzer"@,
        }),
        server_of(python_adapter(container_id, project_name)) == (ServerModel {
            language_name: "Python"@,
            server_name: "pyright"@,
        }),
{
}

/// A language server is run in its container and in the folder of its project, by its program and
/// with all of its arguments.
pub proof fn law_adapter_is_run_with_its_arguments(adapter: AdapterModel)
    ensures
        run_command(adapter) == seq![
            "exec"@,
            "-i"@,
            "-w"@,
            "/workspaces/"@ + adapter.project_name,
            adapter.container_id,
            adapter.server_binary,
        ] + adapter.server_args,
{
}

} // verus!
