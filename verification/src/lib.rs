//! A build-time shim that glues the `buf` schema-registry tool to the tonic
//! code generator: it reads a small YAML configuration, has `buf` export a
//! module's schema files and their declared dependencies into a staging
//! directory, lists what arrived there, and hands the file list to the
//! generator, removing the staging directory however the run ends.
//!
//! The decisions — which configuration file to read, which commands to run
//! and in what order, what each outcome means, which include paths the
//! generator gets — live in [`pipeline::Pipeline`], a step function from
//! the previous action's outcome to the next action, and are verified. A
//! thin driver performs the actions (file reads, subprocesses, the
//! generator call) and feeds the outcomes back.
use vstd::prelude::*;
use vstd::string::StringExecFns;

pub mod buf;
pub mod error;
pub mod pipeline;
pub mod text;
pub mod yaml;

use pipeline::{config_path_of, Action, Mode, Phase, Pipeline};

verus! {

/// Joins a base directory path and a relative component with a `/` separator.
pub fn join_path(base: &str, rest: &str) -> (r: String)
    ensures
        r@ == base@ + "/"@ + rest@,
{
    let mut s = base.to_owned();
    s.append("/");
    s.append(rest);
    s
}

/// Configuration for a compilation: the directory holding the module or
/// workspace configuration file, the process's current directory when
/// absent.
pub struct TonicBufConfig {
    pub buf_dir: Option<String>,
}

impl Default for TonicBufConfig {
    /// The default configuration names no directory.
    fn default() -> (r: Self)
        ensures
            r.buf_dir is None,
    {
        TonicBufConfig { buf_dir: None }
    }
}

fn dir_or_dot(buf_dir: &Option<String>) -> (r: String)
    ensures
        r@ == (match buf_dir {
            None => "."@,
            Some(d) => d@,
        }),
{
    match buf_dir {
        None => ".".to_owned(),
        Some(d) => d.clone(),
    }
}

fn clone_dir(buf_dir: &Option<String>) -> (r: Option<String>)
    ensures
        r.deep_view() == buf_dir.deep_view(),
{
    match buf_dir {
        None => None,
        Some(d) => Some(d.clone()),
    }
}

fn start(mode: Mode, staging_dir: String) -> (r: (Pipeline, Action))
    ensures
        r.0 == (Pipeline { mode, staging: staging_dir, phase: Phase::LoadConfig }),
        r.0.wf(),
        r.1 matches Action::ReadFile { path } && path@ == pipeline::spec_config_path(mode),
{
    let path = config_path_of(&mode);
    (Pipeline { mode, staging: staging_dir, phase: Phase::LoadConfig }, Action::ReadFile { path })
}

/// Starts a single-module compilation from `./buf.yaml`, against the
/// staging directory the driver created. The pipeline asks first for the
/// configuration file's contents.
pub fn compile_from_buf(staging_dir: String) -> (r: (Pipeline, Action))
    ensures
        r.0.mode == (Mode::Module { dir: None::<String> }),
        r.0.staging == staging_dir,
        r.0.phase is LoadConfig,
        r.0.wf(),
        r.1 matches Action::ReadFile { path } && path@ == pipeline::spec_config_path(r.0.mode),
{
    start(Mode::Module { dir: None }, staging_dir)
}

/// Starts a single-module compilation from `{buf_dir}/buf.yaml`.
pub fn compile_from_buf_with_config(
    tonic_buf_config: &TonicBufConfig,
    staging_dir: String,
) -> (r: (Pipeline, Action))
    ensures
        r.0.mode matches Mode::Module { dir } && dir.deep_view()
            == tonic_buf_config.buf_dir.deep_view(),
        r.0.staging == staging_dir,
        r.0.phase is LoadConfig,
        r.0.wf(),
        r.1 matches Action::ReadFile { path } && path@ == pipeline::spec_config_path(r.0.mode),
{
    start(Mode::Module { dir: clone_dir(&tonic_buf_config.buf_dir) }, staging_dir)
}

/// Starts a workspace compilation from `./buf.work.yaml`: every member
/// directory's module is exported into the shared staging directory before
/// one generation pass.
pub fn compile_from_buf_workspace(staging_dir: String) -> (r: (Pipeline, Action))
    ensures
        r.0.mode matches Mode::Workspace { root } && root@ == "."@,
        r.0.staging == staging_dir,
        r.0.phase is LoadConfig,
        r.0.wf(),
        r.1 matches Action::ReadFile { path } && path@ == pipeline::spec_config_path(r.0.mode),
{
    start(Mode::Workspace { root: ".".to_owned() }, staging_dir)
}

/// Starts a workspace compilation from `{buf_dir}/buf.work.yaml`.
pub fn compile_from_buf_workspace_with_config(
    tonic_buf_config: &TonicBufConfig,
    staging_dir: String,
) -> (r: (Pipeline, Action))
    ensures
        r.0.mode matches Mode::Workspace { root } && root@ == (match tonic_buf_config.buf_dir {
            None => "."@,
            Some(d) => d@,
        }),
        r.0.staging == staging_dir,
        r.0.phase is LoadConfig,
        r.0.wf(),
        r.1 matches Action::ReadFile { path } && path@ == pipeline::spec_config_path(r.0.mode),
{
    start(Mode::Workspace { root: dir_or_dot(&tonic_buf_config.buf_dir) }, staging_dir)
}

} // verus!
