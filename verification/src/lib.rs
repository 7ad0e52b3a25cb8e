//! Development containers: the decisions behind the `dc-*` commands and the panel of the editor.
//!
//! The library talks to no daemon, no Docker and no screen. It takes what these say as plain values
//! and says what follows: the arguments of a command line, the next thing to ask, the lines and
//! documents to print, the exit code, and the state that is kept of each workspace. Every function
//! states what it returns over a mathematical model, and the laws that hold of the whole are proof
//! functions beside the functions they speak of.
//!
//! - The store of states: [`devcontainer_hud`], shown by [`devcontainer_status`].
//! - The commands: [`smoke`], [`dc_build`], [`dc_connect`], [`doctor_run`], with their arguments in
//!   [`cli`] and their printing in [`console`].
//! - What the commands read: [`build_progress`], [`docker`], [`devcontainer_doctor`],
//!   [`lsp_session`] and its framing [`lsp_frame`].
//! - What they write: [`schemas`] and [`smoke_results`], through [`json`].
//! - The panel: [`panel`], its errands [`panel_course`], and [`container_lsp`].
//! - Text and paths: [`text`], [`path`], [`path_prefix`], [`platform`], [`bytes`], [`ipc`].

pub mod build_progress;
pub mod bytes;
pub mod cli;
pub mod console;
pub mod container_lsp;
pub mod dc_build;
pub mod dc_connect;
pub mod devcontainer_doctor;
pub mod devcontainer_hud;
pub mod devcontainer_status;
pub mod docker;
pub mod doctor_run;
pub mod ipc;
pub mod json;
pub mod lsp_frame;
pub mod lsp_session;
pub mod panel;
pub mod panel_course;
pub mod path;
pub mod path_prefix;
pub mod platform;
pub mod schemas;
pub mod smoke;
pub mod smoke_results;
pub mod text;
