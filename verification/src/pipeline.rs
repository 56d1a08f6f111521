use vstd::prelude::*;
use vstd::utf8::{decode_utf8, valid_utf8};

use crate::buf::{
    export_cmd, ls_files_cmd, render_cmd, spec_export_cmd, spec_list_config, spec_ls_files_cmd,
    spec_render_cmd, BufWorkYaml, BufYaml, Cmd, CmdView,
};
use crate::error::TonicBufBuildError;
use crate::join_path;
use crate::text::{bytes_to_string, decode_file_list, spec_file_list};
use crate::yaml::string_list_field;

verus! {

/// How a compilation was asked for: against a single module, or against a
/// workspace whose members share one generation pass.
pub enum Mode {
    /// A single module; `dir` is its directory, the process's current
    /// directory when absent.
    Module { dir: Option<String> },
    /// A workspace rooted at `root`.
    Workspace { root: String },
}

/// Where the pipeline stands between two outside steps.
pub enum Phase {
    /// Waiting for the configuration file's contents.
    LoadConfig,
    /// Running the module's export commands; `next` is the index of the
    /// command currently running: `0` exports the module's own files, `k`
    /// exports its `k`-th dependency.
    Exporting { cfg: BufYaml, dir: String, next: usize },
    /// Waiting for the contents of the member `idx`'s own configuration.
    MemberLoad { dirs: Vec<String>, idx: usize },
    /// Running member `idx`'s export commands, as in `Exporting`.
    MemberExporting { dirs: Vec<String>, idx: usize, cfg: BufYaml, next: usize },
    /// Waiting for the staging directory's file listing.
    Listing,
    /// Waiting for the code generator.
    Generating,
    /// Waiting for the staging directory's removal attempt; `result` is the
    /// run's outcome, already decided.
    CleaningUp { result: Result<(), TonicBufBuildError> },
    /// Terminal.
    Finished,
}

/// What the driver must do next. Each non-terminal action is answered with
/// the matching [`Event`].
pub enum Action {
    /// Read the file at `path` and report [`Event::FileRead`].
    ReadFile { path: String },
    /// Run `cmd` to completion, without capturing its output, and report
    /// [`Event::RunFinished`].
    Run { cmd: Cmd },
    /// Run `cmd` to completion, capturing its output, and report
    /// [`Event::CaptureFinished`].
    RunCaptured { cmd: Cmd },
    /// Hand `protos` and `includes` to the code generator and report
    /// [`Event::Generated`].
    Generate { protos: Vec<String>, includes: Vec<String> },
    /// Attempt to remove the directory at `path` — failure is of no
    /// consequence — and report [`Event::Removed`].
    RemoveDir { path: String },
    /// The run is over with `result`; no further step follows.
    Done { result: Result<(), TonicBufBuildError> },
}

/// How running a command without output capture went.
pub enum RunOutcome {
    /// The process could not be started; `cause` is the launcher's
    /// diagnostic text.
    LaunchFailed { cause: String },
    /// The process ran to completion; `code` is its exit status.
    Exited { success: bool, code: i32 },
}

/// How running a command with output capture went.
pub enum CaptureOutcome {
    LaunchFailed { cause: String },
    Exited { success: bool, code: i32, stdout: Vec<u8>, stderr: Vec<u8> },
}

/// The driver's answer to the previous [`Action`].
#[allow(inconsistent_fields)]
pub enum Event {
    FileRead { result: Result<Vec<u8>, String> },
    RunFinished { outcome: RunOutcome },
    CaptureFinished { outcome: CaptureOutcome },
    Generated { result: Result<(), String> },
    Removed,
}

/// The module directory a mode works against, the current directory (`.`)
/// by default.
pub open spec fn spec_module_dir(mode: Mode) -> Seq<char> {
    match mode {
        Mode::Module { dir } => match dir {
            None => "."@,
            Some(d) => d@,
        },
        Mode::Workspace { root } => root@,
    }
}

/// The configuration file a mode starts from: the module's `buf.yaml`, or
/// the workspace's `buf.work.yaml`.
pub open spec fn spec_config_path(mode: Mode) -> Seq<char> {
    match mode {
        Mode::Module { .. } => spec_module_dir(mode) + "/"@ + "buf.yaml"@,
        Mode::Workspace { root } => root@ + "/"@ + "buf.work.yaml"@,
    }
}

/// A workspace member's own configuration file.
pub open spec fn spec_member_config_path(dir: Seq<char>) -> Seq<char> {
    dir + "/"@ + "buf.yaml"@
}

/// The include paths handed to the generator: the staging directory alone
/// for a plain module; the module directory, then the staging directory,
/// where a module directory was configured; the workspace root, then the
/// staging directory, in workspace mode.
pub open spec fn spec_includes(mode: Mode, staging: Seq<char>) -> Seq<Seq<char>> {
    match mode {
        Mode::Module { dir } => match dir {
            None => seq![staging],
            Some(d) => seq![d@, staging],
        },
        Mode::Workspace { root } => seq![root@, staging],
    }
}

/// The export command at position `k` of a module's plan: the module's own
/// files first, then each dependency in order.
pub open spec fn spec_plan_cmd(
    deps: Seq<Seq<char>>,
    k: int,
    dir: Seq<char>,
    staging: Seq<char>,
) -> CmdView {
    if k == 0 {
        spec_export_cmd("."@, dir, staging)
    } else {
        spec_export_cmd(deps[k - 1], dir, staging)
    }
}

/// What a module configuration's bytes decode to: the optional dependency
/// list, or a failure where the bytes are not text or not the expected
/// shape.
pub open spec fn spec_module_config(bytes: Seq<u8>) -> Result<Option<Seq<Seq<char>>>, ()> {
    if !valid_utf8(bytes) {
        Err(())
    } else {
        spec_list_config(string_list_field(decode_utf8(bytes), "deps"@))
    }
}

/// What a workspace configuration's bytes decode to: the optional member
/// directory list.
pub open spec fn spec_workspace_config(bytes: Seq<u8>) -> Result<Option<Seq<Seq<char>>>, ()> {
    if !valid_utf8(bytes) {
        Err(())
    } else {
        spec_list_config(string_list_field(decode_utf8(bytes), "directories"@))
    }
}

/// The include paths always name the workspace root, or a configured
/// module directory, before the staging directory; a plain module compiles
/// against the staging directory alone.
pub proof fn lemma_include_path_order(mode: Mode, staging: Seq<char>)
    ensures
        (mode matches Mode::Workspace { root } ==> spec_includes(mode, staging) == seq![
            root@,
            staging,
        ]),
        (mode matches Mode::Module { dir: Some(d) } ==> spec_includes(mode, staging) == seq![
            d@,
            staging,
        ]),
        (mode matches Mode::Module { dir: None } ==> spec_includes(mode, staging) == seq![staging]),
{
}

/// An optional list, absent meaning empty.
pub open spec fn or_empty(o: Option<Seq<Seq<char>>>) -> Seq<Seq<char>> {
    match o {
        None => seq![],
        Some(d) => d,
    }
}

/// One compilation invocation, stepped from the outside: each [`Action`]
/// the pipeline hands out is performed by the driver, whose report of what
/// happened drives the next step.
pub struct Pipeline {
    pub mode: Mode,
    pub staging: String,
    pub phase: Phase,
}

impl Pipeline {
    /// The indices stored in a phase stay within their lists.
    pub open spec fn wf(&self) -> bool {
        match self.phase {
            Phase::Exporting { cfg, dir, next } => next <= cfg.spec_deps().len(),
            Phase::MemberLoad { dirs, idx } => idx < dirs.len(),
            Phase::MemberExporting { dirs, idx, cfg, next } => idx < dirs.len() && next
                <= cfg.spec_deps().len(),
            _ => true,
        }
    }

    /// Which event answers the phase's outstanding action.
    pub open spec fn expects(&self, ev: Event) -> bool {
        match self.phase {
            Phase::LoadConfig => ev is FileRead,
            Phase::MemberLoad { .. } => ev is FileRead,
            Phase::Exporting { .. } => ev is RunFinished,
            Phase::MemberExporting { .. } => ev is RunFinished,
            Phase::Listing => ev is CaptureFinished,
            Phase::Generating => ev is Generated,
            Phase::CleaningUp { .. } => ev is Removed,
            Phase::Finished => false,
        }
    }
}

/// The pipeline's transition relation: what the next state and action are
/// for each phase and each report. Failures carry the error the run ends
/// with; every failure, like every success, passes through `CleaningUp`.
pub open spec fn step_rel(p: Pipeline, ev: Event, q: Pipeline, a: Action) -> bool {
    match (p.phase, ev) {
        (Phase::LoadConfig, Event::FileRead { result }) => match result {
            Err(cause) => q.phase matches Phase::CleaningUp { result: Err(e) } && (e
                matches TonicBufBuildError::ConfigRead { path, cause: c } && path@
                == spec_config_path(p.mode) && c@ == cause@),
            Ok(bytes) => match p.mode {
                Mode::Module { .. } => match spec_module_config(bytes@) {
                    Err(_) => q.phase matches Phase::CleaningUp { result: Err(e) } && (e
                        matches TonicBufBuildError::ConfigParse { path, .. } && path@
                        == spec_config_path(p.mode)),
                    Ok(o) => q.phase matches Phase::Exporting { cfg, dir, next } && ({
                        &&& Ok::<_, ()>(cfg.deps.deep_view()) == spec_module_config(bytes@)
                        &&& dir@ == spec_module_dir(p.mode)
                        &&& next == 0
                        &&& a matches Action::Run { cmd } && cmd@ == spec_export_cmd(
                            "."@,
                            spec_module_dir(p.mode),
                            p.staging@,
                        )
                    }),
                },
                Mode::Workspace { root } => match spec_workspace_config(bytes@) {
                    Err(_) => q.phase matches Phase::CleaningUp { result: Err(e) } && (e
                        matches TonicBufBuildError::ConfigParse { path, .. } && path@
                        == spec_config_path(p.mode)),
                    Ok(o) => if or_empty(o).len() == 0 {
                        ({
                            &&& q.phase is Listing
                            &&& a matches Action::RunCaptured { cmd } && cmd@ == spec_ls_files_cmd(
                                p.staging@,
                            )
                        })
                    } else {
                        q.phase matches Phase::MemberLoad { dirs, idx } && ({
                            &&& dirs.deep_view().len() == or_empty(o).len()
                            &&& forall|i: int|
                                0 <= i < dirs.deep_view().len() ==> dirs.deep_view()[i] == root@
                                    + "/"@ + or_empty(o)[i]
                            &&& idx == 0
                            &&& a matches Action::ReadFile { path } && path@
                                == spec_member_config_path(dirs.deep_view()[0])
                        })
                    },
                },
            },
        },
        (Phase::Exporting { cfg, dir, next }, Event::RunFinished { outcome }) => {
            let running = spec_render_cmd(spec_plan_cmd(cfg.spec_deps(), next as int, dir@, p.staging@));
            match outcome {
                RunOutcome::LaunchFailed { cause } => q.phase matches Phase::CleaningUp {
                    result: Err(e),
                } && (e matches TonicBufBuildError::SubprocessLaunch { command, cause: c }
                    && command@ == running && c@ == cause@),
                RunOutcome::Exited { success: false, code } => q.phase matches Phase::CleaningUp {
                    result: Err(e),
                } && (e matches TonicBufBuildError::SubprocessExit { command, code: k, stderr }
                    && command@ == running && k == code && stderr@ == Seq::<char>::empty()),
                RunOutcome::Exited { success: true, .. } => if next < cfg.spec_deps().len() {
                    q.phase matches Phase::Exporting { cfg: cfg2, dir: dir2, next: next2 } && ({
                        &&& cfg2 == cfg
                        &&& dir2 == dir
                        &&& next2 == next + 1
                        &&& a matches Action::Run { cmd } && cmd@ == spec_plan_cmd(
                            cfg.spec_deps(),
                            next + 1,
                            dir@,
                            p.staging@,
                        )
                    })
                } else {
                    ({
                        &&& q.phase is Listing
                        &&& a matches Action::RunCaptured { cmd } && cmd@ == spec_ls_files_cmd(
                            p.staging@,
                        )
                    })
                },
            }
        },
        (Phase::MemberLoad { dirs, idx }, Event::FileRead { result }) => match result {
            Err(cause) => q.phase matches Phase::CleaningUp { result: Err(e) } && (e
                matches TonicBufBuildError::ConfigRead { path, cause: c } && path@
                == spec_member_config_path(dirs.deep_view()[idx as int]) && c@ == cause@),
            Ok(bytes) => match spec_module_config(bytes@) {
                Err(_) => q.phase matches Phase::CleaningUp { result: Err(e) } && (e
                    matches TonicBufBuildError::ConfigParse { path, .. } && path@
                    == spec_member_config_path(dirs.deep_view()[idx as int])),
                Ok(o) => q.phase matches Phase::MemberExporting {
                    dirs: dirs2,
                    idx: idx2,
                    cfg,
                    next,
                } && ({
                    &&& dirs2 == dirs
                    &&& idx2 == idx
                    &&& Ok::<_, ()>(cfg.deps.deep_view()) == spec_module_config(bytes@)
                    &&& next == 0
                    &&& a matches Action::Run { cmd } && cmd@ == spec_export_cmd(
                        "."@,
                        dirs.deep_view()[idx as int],
                        p.staging@,
                    )
                }),
            },
        },
        (Phase::MemberExporting { dirs, idx, cfg, next }, Event::RunFinished { outcome }) => {
            let mdir = dirs.deep_view()[idx as int];
            let running = spec_render_cmd(spec_plan_cmd(cfg.spec_deps(), next as int, mdir, p.staging@));
            match outcome {
                RunOutcome::LaunchFailed { cause } => q.phase matches Phase::CleaningUp {
                    result: Err(e),
                } && (e matches TonicBufBuildError::SubprocessLaunch { command, cause: c }
                    && command@ == running && c@ == cause@),
                RunOutcome::Exited { success: false, code } => q.phase matches Phase::CleaningUp {
                    result: Err(e),
                } && (e matches TonicBufBuildError::SubprocessExit { command, code: k, stderr }
                    && command@ == running && k == code && stderr@ == Seq::<char>::empty()),
                RunOutcome::Exited { success: true, .. } => if next < cfg.spec_deps().len() {
                    q.phase matches Phase::MemberExporting {
                        dirs: dirs2,
                        idx: idx2,
                        cfg: cfg2,
                        next: next2,
                    } && ({
                        &&& dirs2 == dirs
                        &&& idx2 == idx
                        &&& cfg2 == cfg
                        &&& next2 == next + 1
                        &&& a matches Action::Run { cmd } && cmd@ == spec_plan_cmd(
                            cfg.spec_deps(),
                            next + 1,
                            mdir,
                            p.staging@,
                        )
                    })
                } else if idx + 1 < dirs.len() {
                    q.phase matches Phase::MemberLoad { dirs: dirs2, idx: idx2 } && ({
                        &&& dirs2 == dirs
                        &&& idx2 == idx + 1
                        &&& a matches Action::ReadFile { path } && path@
                            == spec_member_config_path(dirs.deep_view()[idx + 1])
                    })
                } else {
                    ({
                        &&& q.phase is Listing
                        &&& a matches Action::RunCaptured { cmd } && cmd@ == spec_ls_files_cmd(
                            p.staging@,
                        )
                    })
                },
            }
        },
        (Phase::Listing, Event::CaptureFinished { outcome }) => {
            let running = spec_render_cmd(spec_ls_files_cmd(p.staging@));
            match outcome {
                CaptureOutcome::LaunchFailed { cause } => q.phase matches Phase::CleaningUp {
                    result: Err(e),
                } && (e matches TonicBufBuildError::SubprocessLaunch { command, cause: c }
                    && command@ == running && c@ == cause@),
                CaptureOutcome::Exited { success: false, code, stdout: _, stderr } => q.phase
                    matches Phase::CleaningUp { result: Err(e) } && (e
                    matches TonicBufBuildError::SubprocessExit { command, code: k, stderr: st }
                    && command@ == running && k == code && (valid_utf8(stderr@) ==> st@
                    == decode_utf8(stderr@))),
                CaptureOutcome::Exited { success: true, code: _, stdout, stderr: _ } => match
                    spec_file_list(stdout@) {
                    None => q.phase matches Phase::CleaningUp { result: Err(e) } && (e
                        matches TonicBufBuildError::OutputDecode { command } && command@
                        == running),
                    Some(fl) => q.phase is Generating && (a matches Action::Generate {
                        protos,
                        includes,
                    } && protos.deep_view() == fl && includes.deep_view() == spec_includes(
                        p.mode,
                        p.staging@,
                    )),
                },
            }
        },
        (Phase::Generating, Event::Generated { result }) => match result {
            Err(cause) => q.phase matches Phase::CleaningUp { result: Err(e) } && (e
                matches TonicBufBuildError::Generation { cause: c } && c@ == cause@),
            Ok(_) => q.phase matches Phase::CleaningUp { result: Ok(_) },
        },
        (Phase::CleaningUp { result }, Event::Removed) => ({
            &&& q.phase is Finished
            &&& a matches Action::Done { result: res } && res == result
        }),
        _ => false,
    }
}

fn module_dir_of(mode: &Mode) -> (r: String)
    ensures
        r@ == spec_module_dir(*mode),
{
    match mode {
        Mode::Module { dir } => match dir {
            None => ".".to_owned(),
            Some(d) => d.clone(),
        },
        Mode::Workspace { root } => root.clone(),
    }
}

pub(crate) fn config_path_of(mode: &Mode) -> (r: String)
    ensures
        r@ == spec_config_path(*mode),
{
    let base = module_dir_of(mode);
    match mode {
        Mode::Module { .. } => join_path(base.as_str(), "buf.yaml"),
        Mode::Workspace { .. } => join_path(base.as_str(), "buf.work.yaml"),
    }
}

/// Builds the include paths for a mode: the staging directory, preceded by
/// the configured module directory or the workspace root where there is
/// one.
pub fn include_paths(mode: &Mode, staging: &str) -> (r: Vec<String>)
    ensures
        r.deep_view() == spec_includes(*mode, staging@),
{
    let mut r: Vec<String> = Vec::new();
    match mode {
        Mode::Module { dir } => match dir {
            None => {},
            Some(d) => r.push(d.clone()),
        },
        Mode::Workspace { root } => r.push(root.clone()),
    }
    r.push(staging.to_owned());
    proof {
        assert(r.deep_view() =~= spec_includes(*mode, staging@));
    }
    r
}

/// Builds the export command at position `k` of a module's plan.
fn plan_cmd(cfg: &BufYaml, k: usize, dir: &str, staging: &str) -> (r: Cmd)
    requires
        k as int <= cfg.spec_deps().len(),
    ensures
        r@ == spec_plan_cmd(cfg.spec_deps(), k as int, dir@, staging@),
{
    if k == 0 {
        export_cmd(".", dir, staging)
    } else {
        match &cfg.deps {
            Some(d) => {
                proof {
                    assert(d.deep_view()[k - 1] == d@[k - 1 as int]@);
                }
                export_cmd(d[k - 1].as_str(), dir, staging)
            },
            None => {
                proof {
                    assert(false);
                }
                export_cmd(".", dir, staging)
            },
        }
    }
}

fn fail_step(mode: Mode, staging: String, e: TonicBufBuildError) -> (r: (Pipeline, Action))
    ensures
        r.0 == (Pipeline { mode, staging, phase: Phase::CleaningUp { result: Err(e) } }),
        r.1 matches Action::RemoveDir { path } && path@ == staging@,
{
    let path = staging.clone();
    (
        Pipeline { mode, staging, phase: Phase::CleaningUp { result: Err(e) } },
        Action::RemoveDir { path },
    )
}

fn listing_step(mode: Mode, staging: String) -> (r: (Pipeline, Action))
    ensures
        r.0 == (Pipeline { mode, staging, phase: Phase::Listing }),
        r.1 matches Action::RunCaptured { cmd } && cmd@ == spec_ls_files_cmd(staging@),
{
    let cmd = ls_files_cmd(staging.as_str());
    (Pipeline { mode, staging, phase: Phase::Listing }, Action::RunCaptured { cmd })
}

impl Pipeline {
    /// Performs one step: consumes the driver's report of the previous
    /// action and decides the next phase and action. A `Done` action is
    /// handed out exactly once, directly after the cleanup attempt, on
    /// success and failure alike; every run asks for the staging
    /// directory's removal before it finishes.
    pub fn step(self, ev: Event) -> (r: (Pipeline, Action))
        requires
            self.wf(),
            self.expects(ev),
        ensures
            r.0.mode == self.mode,
            r.0.staging == self.staging,
            r.0.wf(),
            r.1 is Done <==> self.phase is CleaningUp,
            r.0.phase is Finished <==> self.phase is CleaningUp,
            r.0.phase is CleaningUp ==> (r.1 matches Action::RemoveDir { path } && path@
                == self.staging@),
            step_rel(self, ev, r.0, r.1),
    {
        let Pipeline { mode, staging, phase } = self;
        match (phase, ev) {
            (Phase::LoadConfig, Event::FileRead { result }) => match result {
                Err(cause) => {
                    let path = config_path_of(&mode);
                    fail_step(mode, staging, TonicBufBuildError::ConfigRead { path, cause })
                },
                Ok(bytes) => {
                    let path = config_path_of(&mode);
                    match bytes_to_string(bytes) {
                        None => fail_step(
                            mode,
                            staging,
                            TonicBufBuildError::ConfigParse {
                                path,
                                cause: "the file is not valid text".to_owned(),
                            },
                        ),
                        Some(text) => {
                            let is_module = match &mode {
                                Mode::Module { .. } => true,
                                Mode::Workspace { .. } => false,
                            };
                            if is_module {
                                match BufYaml::from_yaml_text(text.as_str(), path.as_str()) {
                                    Err(e) => fail_step(mode, staging, e),
                                    Ok(cfg) => {
                                        let dir = module_dir_of(&mode);
                                        let cmd = export_cmd(".", dir.as_str(), staging.as_str());
                                        (
                                            Pipeline {
                                                mode,
                                                staging,
                                                phase: Phase::Exporting { cfg, dir, next: 0 },
                                            },
                                            Action::Run { cmd },
                                        )
                                    },
                                }
                            } else {
                                match BufWorkYaml::from_yaml_text(text.as_str(), path.as_str()) {
                                    Err(e) => fail_step(mode, staging, e),
                                    Ok(w) => {
                                        let root = module_dir_of(&mode);
                                        let dirs = w.member_dirs(root.as_str());
                                        proof {
                                            assert(w.spec_directories() == or_empty(
                                                w.directories.deep_view(),
                                            ));
                                        }
                                        if dirs.len() == 0 {
                                            listing_step(mode, staging)
                                        } else {
                                            proof {
                                                assert(dirs.deep_view()[0] == dirs@[0]@);
                                            }
                                            let p0 = join_path(dirs[0].as_str(), "buf.yaml");
                                            (
                                                Pipeline {
                                                    mode,
                                                    staging,
                                                    phase: Phase::MemberLoad { dirs, idx: 0 },
                                                },
                                                Action::ReadFile { path: p0 },
                                            )
                                        }
                                    },
                                }
                            }
                        },
                    }
                },
            },
            (Phase::Exporting { cfg, dir, next }, Event::RunFinished { outcome }) => match outcome {
                RunOutcome::LaunchFailed { cause } => {
                    let command = render_cmd(&plan_cmd(&cfg, next, dir.as_str(), staging.as_str()));
                    fail_step(
                        mode,
                        staging,
                        TonicBufBuildError::SubprocessLaunch { command, cause },
                    )
                },
                RunOutcome::Exited { success, code } => {
                    if !success {
                        let command = render_cmd(
                            &plan_cmd(&cfg, next, dir.as_str(), staging.as_str()),
                        );
                        fail_step(
                            mode,
                            staging,
                            TonicBufBuildError::SubprocessExit {
                                command,
                                code,
                                stderr: String::new(),
                            },
                        )
                    } else {
                        let n: usize = match &cfg.deps {
                            None => 0,
                            Some(d) => d.len(),
                        };
                        if next < n {
                            let next2: usize = next + 1;
                            let cmd = plan_cmd(&cfg, next2, dir.as_str(), staging.as_str());
                            (
                                Pipeline {
                                    mode,
                                    staging,
                                    phase: Phase::Exporting { cfg, dir, next: next2 },
                                },
                                Action::Run { cmd },
                            )
                        } else {
                            listing_step(mode, staging)
                        }
                    }
                },
            },
            (Phase::MemberLoad { dirs, idx }, Event::FileRead { result }) => {
                proof {
                    assert(dirs.deep_view()[idx as int] == dirs@[idx as int]@);
                }
                let path = join_path(dirs[idx].as_str(), "buf.yaml");
                match result {
                    Err(cause) => fail_step(
                        mode,
                        staging,
                        TonicBufBuildError::ConfigRead { path, cause },
                    ),
                    Ok(bytes) => {
                        match bytes_to_string(bytes) {
                            None => fail_step(
                                mode,
                                staging,
                                TonicBufBuildError::ConfigParse {
                                    path,
                                    cause: "the file is not valid text".to_owned(),
                                },
                            ),
                            Some(text) => match BufYaml::from_yaml_text(
                                text.as_str(),
                                path.as_str(),
                            ) {
                                Err(e) => fail_step(mode, staging, e),
                                Ok(cfg) => {
                                    let cmd = export_cmd(
                                        ".",
                                        dirs[idx].as_str(),
                                        staging.as_str(),
                                    );
                                    (
                                        Pipeline {
                                            mode,
                                            staging,
                                            phase: Phase::MemberExporting {
                                                dirs,
                                                idx,
                                                cfg,
                                                next: 0,
                                            },
                                        },
                                        Action::Run { cmd },
                                    )
                                },
                            },
                        }
                    },
                }
            },
            (Phase::MemberExporting { dirs, idx, cfg, next }, Event::RunFinished { outcome }) => {
                proof {
                    assert(dirs.deep_view()[idx as int] == dirs@[idx as int]@);
                }
                match outcome {
                    RunOutcome::LaunchFailed { cause } => {
                        let command = render_cmd(
                            &plan_cmd(&cfg, next, dirs[idx].as_str(), staging.as_str()),
                        );
                        fail_step(
                            mode,
                            staging,
                            TonicBufBuildError::SubprocessLaunch { command, cause },
                        )
                    },
                    RunOutcome::Exited { success, code } => {
                        if !success {
                            let command = render_cmd(
                                &plan_cmd(&cfg, next, dirs[idx].as_str(), staging.as_str()),
                            );
                            fail_step(
                                mode,
                                staging,
                                TonicBufBuildError::SubprocessExit {
                                    command,
                                    code,
                                    stderr: String::new(),
                                },
                            )
                        } else {
                            let n: usize = match &cfg.deps {
                                None => 0,
                                Some(d) => d.len(),
                            };
                            if next < n {
                                let next2: usize = next + 1;
                                let cmd = plan_cmd(
                                    &cfg,
                                    next2,
                                    dirs[idx].as_str(),
                                    staging.as_str(),
                                );
                                (
                                    Pipeline {
                                        mode,
                                        staging,
                                        phase: Phase::MemberExporting {
                                            dirs,
                                            idx,
                                            cfg,
                                            next: next2,
                                        },
                                    },
                                    Action::Run { cmd },
                                )
                            } else if idx + 1 < dirs.len() {
                                proof {
                                    assert(dirs.deep_view()[idx as int + 1] == dirs@[idx as int
                                        + 1]@);
                                }
                                let idx2: usize = idx + 1;
                                let p1 = join_path(dirs[idx2].as_str(), "buf.yaml");
                                (
                                    Pipeline {
                                        mode,
                                        staging,
                                        phase: Phase::MemberLoad { dirs, idx: idx2 },
                                    },
                                    Action::ReadFile { path: p1 },
                                )
                            } else {
                                listing_step(mode, staging)
                            }
                        }
                    },
                }
            },
            (Phase::Listing, Event::CaptureFinished { outcome }) => match outcome {
                CaptureOutcome::LaunchFailed { cause } => {
                    let command = render_cmd(&ls_files_cmd(staging.as_str()));
                    fail_step(
                        mode,
                        staging,
                        TonicBufBuildError::SubprocessLaunch { command, cause },
                    )
                },
                CaptureOutcome::Exited { success, code, stdout, stderr } => {
                    if !success {
                        let st = match bytes_to_string(stderr) {
                            Some(s) => s,
                            None => String::new(),
                        };
                        let command = render_cmd(&ls_files_cmd(staging.as_str()));
                        fail_step(
                            mode,
                            staging,
                            TonicBufBuildError::SubprocessExit { command, code, stderr: st },
                        )
                    } else {
                        match decode_file_list(&stdout) {
                            None => {
                                let command = render_cmd(&ls_files_cmd(staging.as_str()));
                                fail_step(
                                    mode,
                                    staging,
                                    TonicBufBuildError::OutputDecode { command },
                                )
                            },
                            Some(protos) => {
                                let includes = include_paths(&mode, staging.as_str());
                                (
                                    Pipeline { mode, staging, phase: Phase::Generating },
                                    Action::Generate { protos, includes },
                                )
                            },
                        }
                    }
                },
            },
            (Phase::Generating, Event::Generated { result }) => match result {
                Err(cause) => fail_step(mode, staging, TonicBufBuildError::Generation { cause }),
                Ok(_) => {
                    let path = staging.clone();
                    (
                        Pipeline { mode, staging, phase: Phase::CleaningUp { result: Ok(()) } },
                        Action::RemoveDir { path },
                    )
                },
            },
            (Phase::CleaningUp { result }, Event::Removed) => (
                Pipeline { mode, staging, phase: Phase::Finished },
                Action::Done { result },
            ),
            _ => {
                proof {
                    assert(false);
                }
                (Pipeline { mode, staging, phase: Phase::Finished }, Action::Done { result: Ok(()) })
            },
        }
    }
}

} // verus!
