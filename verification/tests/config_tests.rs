use tonic_buf_build::buf::{BufWorkYaml, BufYaml};
use tonic_buf_build::error::TonicBufBuildError;
use tonic_buf_build::text::decode_file_list;

#[test]
fn module_config_with_deps() {
    let cfg = BufYaml::from_yaml_text("version: v1\ndeps:\n  - acme/common\n  - acme/extra\n", "buf.yaml")
        .expect("a well-formed config must load");
    assert_eq!(cfg.deps, Some(vec!["acme/common".to_string(), "acme/extra".to_string()]));
}

#[test]
fn module_config_without_deps() {
    let cfg = BufYaml::from_yaml_text("version: v1\n", "buf.yaml").expect("absent deps is fine");
    assert_eq!(cfg.deps, None);
}

#[test]
fn module_config_null_deps() {
    let cfg = BufYaml::from_yaml_text("deps:\n", "buf.yaml").expect("null deps is fine");
    assert_eq!(cfg.deps, None);
}

#[test]
fn module_config_empty_deps_list() {
    let cfg = BufYaml::from_yaml_text("deps: []\n", "buf.yaml").expect("an empty list is fine");
    assert_eq!(cfg.deps, Some(vec![]));
}

#[test]
fn module_config_wrong_type_is_parse_error() {
    let e = BufYaml::from_yaml_text("deps: \"not-a-list\"\n", "x/buf.yaml").unwrap_err();
    match e {
        TonicBufBuildError::ConfigParse { path, .. } => assert_eq!(path, "x/buf.yaml"),
        _ => panic!("expected a parse error"),
    }
}

#[test]
fn module_config_non_string_items_is_parse_error() {
    let e = BufYaml::from_yaml_text("deps:\n  - 5\n", "buf.yaml").unwrap_err();
    assert!(matches!(e, TonicBufBuildError::ConfigParse { .. }));
}

#[test]
fn module_config_bad_syntax_is_parse_error() {
    let e = BufYaml::from_yaml_text("deps: [unclosed\n", "buf.yaml").unwrap_err();
    assert!(matches!(e, TonicBufBuildError::ConfigParse { .. }));
}

#[test]
fn module_config_non_mapping_is_parse_error() {
    let e = BufYaml::from_yaml_text("- just\n- a\n- list\n", "buf.yaml").unwrap_err();
    assert!(matches!(e, TonicBufBuildError::ConfigParse { .. }));
}

#[test]
fn workspace_config_directories() {
    let w = BufWorkYaml::from_yaml_text("version: v1\ndirectories:\n  - proto\n  - vendor\n", "buf.work.yaml")
        .expect("a well-formed workspace config must load");
    assert_eq!(w.directories, Some(vec!["proto".to_string(), "vendor".to_string()]));
}

#[test]
fn workspace_config_member_dirs_resolve_against_root() {
    let w = BufWorkYaml { directories: Some(vec!["a".to_string(), "b/c".to_string()]) };
    assert_eq!(w.member_dirs("/ws"), vec!["/ws/a".to_string(), "/ws/b/c".to_string()]);
    assert_eq!(BufWorkYaml { directories: None }.member_dirs("/ws"), Vec::<String>::new());
}

#[test]
fn export_plan_without_deps_is_one_self_export() {
    let cfg = BufYaml { deps: None };
    let plan = cfg.export_plan("mod", "/tmp/stage");
    assert_eq!(plan.len(), 1);
    assert_eq!(plan[0].program, "buf");
    assert_eq!(plan[0].args, vec!["export", ".", "-o", "/tmp/stage"]);
    assert_eq!(plan[0].cwd, Some("mod".to_string()));
}

#[test]
fn export_plan_orders_self_then_deps() {
    let cfg = BufYaml { deps: Some(vec!["acme/one".to_string(), "acme/two".to_string()]) };
    let plan = cfg.export_plan(".", "/tmp/stage");
    assert_eq!(plan.len(), 3);
    assert_eq!(plan[0].args, vec!["export", ".", "-o", "/tmp/stage"]);
    assert_eq!(plan[1].args, vec!["export", "acme/one", "-o", "/tmp/stage"]);
    assert_eq!(plan[2].args, vec!["export", "acme/two", "-o", "/tmp/stage"]);
}

#[test]
fn file_list_decodes_and_trims_trailing_empty() {
    let out = decode_file_list(&b"a.proto\nb/c.proto\n".to_vec()).expect("valid text");
    assert_eq!(out, vec!["a.proto".to_string(), "b/c.proto".to_string()]);
}

#[test]
fn file_list_without_trailing_newline() {
    let out = decode_file_list(&b"a.proto\nb.proto".to_vec()).expect("valid text");
    assert_eq!(out, vec!["a.proto".to_string(), "b.proto".to_string()]);
}

#[test]
fn file_list_keeps_inner_empty_lines() {
    let out = decode_file_list(&b"a.proto\n\nb.proto\n".to_vec()).expect("valid text");
    assert_eq!(out, vec!["a.proto".to_string(), "".to_string(), "b.proto".to_string()]);
}

#[test]
fn empty_file_list_decodes_to_nothing() {
    let out = decode_file_list(&Vec::new()).expect("valid text");
    assert_eq!(out, Vec::<String>::new());
}

#[test]
fn invalid_utf8_file_list_is_rejected() {
    assert!(decode_file_list(&vec![0x61, 0xff, 0xfe]).is_none());
}

#[test]
fn exit_error_message_ends_with_stderr() {
    let e = TonicBufBuildError::SubprocessExit {
        command: "buf export . -o /tmp/stage".to_string(),
        code: 1,
        stderr: "ref not found".to_string(),
    };
    let m = e.message();
    assert!(m.contains("ref not found"));
    assert!(m.ends_with("ref not found"));
    assert!(m.contains("buf export . -o /tmp/stage"));
}

#[test]
fn config_read_error_message_names_path_and_cause() {
    let e = TonicBufBuildError::ConfigRead {
        path: "./buf.yaml".to_string(),
        cause: "No such file or directory".to_string(),
    };
    assert_eq!(e.message(), "failed to read ./buf.yaml: No such file or directory");
}
