use tonic_buf_build::buf::Cmd;
use tonic_buf_build::error::TonicBufBuildError;
use tonic_buf_build::pipeline::{Action, CaptureOutcome, Event, Pipeline, RunOutcome};
use tonic_buf_build::{compile_from_buf, compile_from_buf_with_config, compile_from_buf_workspace, TonicBufConfig};

fn read_path(a: &Action) -> String {
    match a {
        Action::ReadFile { path } => path.clone(),
        _ => panic!("expected a file read, got another action"),
    }
}

fn run_cmd_of(a: &Action) -> Cmd {
    match a {
        Action::Run { cmd } => Cmd {
            program: cmd.program.clone(),
            args: cmd.args.clone(),
            cwd: cmd.cwd.clone(),
        },
        _ => panic!("expected a run, got another action"),
    }
}

fn ok_exit() -> Event {
    Event::RunFinished { outcome: RunOutcome::Exited { success: true, code: 0 } }
}

fn captured(stdout: &[u8]) -> Event {
    Event::CaptureFinished {
        outcome: CaptureOutcome::Exited {
            success: true,
            code: 0,
            stdout: stdout.to_vec(),
            stderr: Vec::new(),
        },
    }
}

#[test]
fn end_to_end_module_with_one_dep() {
    let (p, a) = compile_from_buf("/tmp/stage".to_string());
    assert_eq!(read_path(&a), "./buf.yaml");

    let (p, a) = p.step(Event::FileRead { result: Ok(b"deps:\n  - acme/common\n".to_vec()) });
    let cmd = run_cmd_of(&a);
    assert_eq!(cmd.program, "buf");
    assert_eq!(cmd.args, vec!["export", ".", "-o", "/tmp/stage"]);
    assert_eq!(cmd.cwd, Some(".".to_string()));

    let (p, a) = p.step(ok_exit());
    let cmd = run_cmd_of(&a);
    assert_eq!(cmd.args, vec!["export", "acme/common", "-o", "/tmp/stage"]);

    let (p, a) = p.step(ok_exit());
    match &a {
        Action::RunCaptured { cmd } => assert_eq!(cmd.args, vec!["ls-files", "/tmp/stage"]),
        _ => panic!("expected the listing to run next"),
    }

    let (p, a) = p.step(captured(b"svc.proto\n"));
    match &a {
        Action::Generate { protos, includes } => {
            assert_eq!(protos, &vec!["svc.proto".to_string()]);
            assert_eq!(includes, &vec!["/tmp/stage".to_string()]);
        },
        _ => panic!("expected generation next"),
    }

    let (p, a) = p.step(Event::Generated { result: Ok(()) });
    match &a {
        Action::RemoveDir { path } => assert_eq!(path, "/tmp/stage"),
        _ => panic!("cleanup must follow a successful run"),
    }

    let (_, a) = p.step(Event::Removed);
    assert!(matches!(a, Action::Done { result: Ok(()) }));
}

#[test]
fn module_with_no_deps_runs_one_export() {
    let (p, _) = compile_from_buf("/tmp/s".to_string());
    let (p, a) = p.step(Event::FileRead { result: Ok(b"version: v1\n".to_vec()) });
    let cmd = run_cmd_of(&a);
    assert_eq!(cmd.args, vec!["export", ".", "-o", "/tmp/s"]);
    let (_, a) = p.step(ok_exit());
    assert!(matches!(a, Action::RunCaptured { .. }));
}

#[test]
fn custom_dir_reads_its_config_and_includes_it() {
    let cfg = TonicBufConfig { buf_dir: Some("proto/mod".to_string()) };
    let (p, a) = compile_from_buf_with_config(&cfg, "/tmp/s".to_string());
    assert_eq!(read_path(&a), "proto/mod/buf.yaml");
    let (p, a) = p.step(Event::FileRead { result: Ok(b"{}\n".to_vec()) });
    assert_eq!(run_cmd_of(&a).cwd, Some("proto/mod".to_string()));
    let (p, _) = p.step(ok_exit());
    let (_, a) = p.step(captured(b"x.proto\n"));
    match &a {
        Action::Generate { includes, .. } => {
            assert_eq!(includes, &vec!["proto/mod".to_string(), "/tmp/s".to_string()]);
        },
        _ => panic!("expected generation next"),
    }
}

#[test]
fn malformed_config_launches_no_subprocess() {
    let (p, _) = compile_from_buf("/tmp/s".to_string());
    let (p, a) = p.step(Event::FileRead { result: Ok(b"deps: \"not-a-list\"\n".to_vec()) });
    match &a {
        Action::RemoveDir { path } => assert_eq!(path, "/tmp/s"),
        _ => panic!("a parse failure must go straight to cleanup, never to a subprocess"),
    }
    let (_, a) = p.step(Event::Removed);
    match a {
        Action::Done { result: Err(TonicBufBuildError::ConfigParse { path, .. }) } => {
            assert_eq!(path, "./buf.yaml");
        },
        _ => panic!("expected a parse error"),
    }
}

#[test]
fn missing_config_is_read_error() {
    let (p, _) = compile_from_buf("/tmp/s".to_string());
    let (p, _) = p.step(Event::FileRead { result: Err("No such file or directory".to_string()) });
    let (_, a) = p.step(Event::Removed);
    match a {
        Action::Done { result: Err(TonicBufBuildError::ConfigRead { path, cause }) } => {
            assert_eq!(path, "./buf.yaml");
            assert_eq!(cause, "No such file or directory");
        },
        _ => panic!("expected a read error"),
    }
}

#[test]
fn listing_failure_carries_stderr_and_skips_generation() {
    let (p, _) = compile_from_buf("/tmp/s".to_string());
    let (p, _) = p.step(Event::FileRead { result: Ok(b"{}\n".to_vec()) });
    let (p, a) = p.step(ok_exit());
    assert!(matches!(a, Action::RunCaptured { .. }));
    let (p, a) = p.step(Event::CaptureFinished {
        outcome: CaptureOutcome::Exited {
            success: false,
            code: 1,
            stdout: Vec::new(),
            stderr: b"ref not found".to_vec(),
        },
    });
    assert!(matches!(a, Action::RemoveDir { .. }), "cleanup must follow the failure");
    let (_, a) = p.step(Event::Removed);
    match a {
        Action::Done { result: Err(e) } => {
            match &e {
                TonicBufBuildError::SubprocessExit { code, stderr, .. } => {
                    assert_eq!(*code, 1);
                    assert_eq!(stderr, "ref not found");
                },
                _ => panic!("expected a subprocess exit error"),
            }
            assert!(e.message().contains("ref not found"));
        },
        _ => panic!("generation must never be attempted after a failed listing"),
    }
}

#[test]
fn export_exit_failure_aborts_remaining_deps() {
    let (p, _) = compile_from_buf("/tmp/s".to_string());
    let (p, _) = p.step(Event::FileRead { result: Ok(b"deps:\n  - acme/a\n  - acme/b\n".to_vec()) });
    let (p, a) = p.step(Event::RunFinished { outcome: RunOutcome::Exited { success: false, code: 3 } });
    assert!(matches!(a, Action::RemoveDir { .. }));
    let (_, a) = p.step(Event::Removed);
    match a {
        Action::Done { result: Err(TonicBufBuildError::SubprocessExit { command, code, .. }) } => {
            assert_eq!(code, 3);
            assert!(command.contains("export . -o /tmp/s"));
        },
        _ => panic!("expected a subprocess exit error"),
    }
}

#[test]
fn launch_failure_names_the_command() {
    let (p, _) = compile_from_buf("/tmp/s".to_string());
    let (p, _) = p.step(Event::FileRead { result: Ok(b"{}\n".to_vec()) });
    let (p, _) = p.step(Event::RunFinished {
        outcome: RunOutcome::LaunchFailed { cause: "program not found".to_string() },
    });
    let (_, a) = p.step(Event::Removed);
    match a {
        Action::Done { result: Err(TonicBufBuildError::SubprocessLaunch { command, cause }) } => {
            assert_eq!(command, "buf export . -o /tmp/s");
            assert_eq!(cause, "program not found");
        },
        _ => panic!("expected a launch error"),
    }
}

#[test]
fn generator_failure_still_cleans_up() {
    let (p, _) = compile_from_buf("/tmp/s".to_string());
    let (p, _) = p.step(Event::FileRead { result: Ok(b"{}\n".to_vec()) });
    let (p, _) = p.step(ok_exit());
    let (p, _) = p.step(captured(b"a.proto\n"));
    let (p, a) = p.step(Event::Generated { result: Err("bad schema".to_string()) });
    match &a {
        Action::RemoveDir { path } => assert_eq!(path, "/tmp/s"),
        _ => panic!("cleanup must follow a failed run too"),
    }
    let (_, a) = p.step(Event::Removed);
    match a {
        Action::Done { result: Err(TonicBufBuildError::Generation { cause }) } => {
            assert_eq!(cause, "bad schema");
        },
        _ => panic!("expected a generation error"),
    }
}

#[test]
fn workspace_exports_each_member_into_shared_staging() {
    let (p, a) = compile_from_buf_workspace("/tmp/s".to_string());
    assert_eq!(read_path(&a), "./buf.work.yaml");

    let (p, a) = p.step(Event::FileRead { result: Ok(b"directories:\n  - one\n  - two\n".to_vec()) });
    assert_eq!(read_path(&a), "./one/buf.yaml");

    let (p, a) = p.step(Event::FileRead { result: Ok(b"deps:\n  - acme/x\n".to_vec()) });
    let cmd = run_cmd_of(&a);
    assert_eq!(cmd.args, vec!["export", ".", "-o", "/tmp/s"]);
    assert_eq!(cmd.cwd, Some("./one".to_string()));

    let (p, a) = p.step(ok_exit());
    let cmd = run_cmd_of(&a);
    assert_eq!(cmd.args, vec!["export", "acme/x", "-o", "/tmp/s"]);

    let (p, a) = p.step(ok_exit());
    assert_eq!(read_path(&a), "./two/buf.yaml");

    let (p, a) = p.step(Event::FileRead { result: Ok(b"{}\n".to_vec()) });
    assert_eq!(run_cmd_of(&a).cwd, Some("./two".to_string()));

    let (p, a) = p.step(ok_exit());
    match &a {
        Action::RunCaptured { cmd } => assert_eq!(cmd.args, vec!["ls-files", "/tmp/s"]),
        _ => panic!("expected the listing after the last member"),
    }

    let (p, a) = p.step(captured(b"one.proto\ntwo.proto\n"));
    match &a {
        Action::Generate { protos, includes } => {
            assert_eq!(protos, &vec!["one.proto".to_string(), "two.proto".to_string()]);
            assert_eq!(includes, &vec![".".to_string(), "/tmp/s".to_string()]);
        },
        _ => panic!("expected generation next"),
    }

    let (p, a) = p.step(Event::Generated { result: Ok(()) });
    assert!(matches!(a, Action::RemoveDir { .. }));
    let (_, a) = p.step(Event::Removed);
    assert!(matches!(a, Action::Done { result: Ok(()) }));
}

#[test]
fn workspace_without_members_lists_immediately() {
    let (p, _) = compile_from_buf_workspace("/tmp/s".to_string());
    let (_, a) = p.step(Event::FileRead { result: Ok(b"version: v1\n".to_vec()) });
    assert!(matches!(a, Action::RunCaptured { .. }));
}

#[test]
fn pipeline_from_invalid_text_config_is_parse_error() {
    let (p, _) = compile_from_buf("/tmp/s".to_string());
    let (p, _) = p.step(Event::FileRead { result: Ok(vec![0xff, 0xfe, 0x00]) });
    let (_, a) = p.step(Event::Removed);
    assert!(matches!(
        a,
        Action::Done { result: Err(TonicBufBuildError::ConfigParse { .. }) }
    ));
}

#[test]
fn listing_with_invalid_output_is_decode_error() {
    let (p, _) = compile_from_buf("/tmp/s".to_string());
    let (p, _) = p.step(Event::FileRead { result: Ok(b"{}\n".to_vec()) });
    let (p, _) = p.step(ok_exit());
    let (p, _) = p.step(captured(&[0x61, 0xff, 0x0a]));
    let (_, a) = p.step(Event::Removed);
    assert!(matches!(
        a,
        Action::Done { result: Err(TonicBufBuildError::OutputDecode { .. }) }
    ));
}

#[test]
fn workspace_member_read_failure_names_member_path() {
    let (p, _) = compile_from_buf_workspace("/tmp/s".to_string());
    let (p, _) = p.step(Event::FileRead { result: Ok(b"directories:\n  - one\n".to_vec()) });
    let (p, _) = p.step(Event::FileRead { result: Err("denied".to_string()) });
    let (_, a) = p.step(Event::Removed);
    match a {
        Action::Done { result: Err(TonicBufBuildError::ConfigRead { path, cause }) } => {
            assert_eq!(path, "./one/buf.yaml");
            assert_eq!(cause, "denied");
        },
        _ => panic!("expected a read error for the member config"),
    }
}

#[test]
fn workspace_member_parse_failure_stops_the_run() {
    let (p, _) = compile_from_buf_workspace("/tmp/s".to_string());
    let (p, _) = p.step(Event::FileRead { result: Ok(b"directories:\n  - one\n".to_vec()) });
    let (p, a) = p.step(Event::FileRead { result: Ok(b"deps: 7\n".to_vec()) });
    assert!(matches!(a, Action::RemoveDir { .. }));
    let (_, a) = p.step(Event::Removed);
    assert!(matches!(
        a,
        Action::Done { result: Err(TonicBufBuildError::ConfigParse { .. }) }
    ));
}

#[test]
fn empty_module_config_is_parse_error() {
    let e = tonic_buf_build::buf::BufYaml::from_yaml_text("", "buf.yaml").unwrap_err();
    assert!(matches!(e, TonicBufBuildError::ConfigParse { .. }));
}

#[test]
fn default_config_names_no_directory() {
    let cfg = TonicBufConfig::default();
    assert!(cfg.buf_dir.is_none());
    let p: Pipeline = compile_from_buf_with_config(&cfg, "/tmp/s".to_string()).0;
    let _ = p;
}
