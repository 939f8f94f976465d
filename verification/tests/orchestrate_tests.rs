use cargo_screeps::cli::{command_state, verbosity_filter, CliState, LogVerbosity};
use cargo_screeps::config::{parse_project_configuration};
use cargo_screeps::errors::Error;
use cargo_screeps::optimizer::choose_binary_output;
use cargo_screeps::orchestrate::{BuildAction, BuildEvent, BuildFlow, BuildState};
use cargo_screeps::transform::{PREFIX_TEMPLATE, SUFFIX_TEMPLATE};

fn config() -> cargo_screeps::config::ProjectConfiguration {
    parse_project_configuration("username = \"u\"\npassword = \"p\"\n").unwrap()
}

fn generated_script() -> String {
    let mut s = PREFIX_TEMPLATE.replace("XXX", "compiled");
    s.push_str("\n        boot();\n");
    s.push_str(SUFFIX_TEMPLATE);
    s
}

#[test]
fn optimizer_success_keeps_optimized_bytes() {
    let (bytes, warned) = choose_binary_output(vec![1, 2, 3], Some(vec![9]));
    assert_eq!(bytes, vec![9]);
    assert!(!warned);
}

#[test]
fn optimizer_failure_falls_back_to_original_bytes() {
    let (bytes, warned) = choose_binary_output(vec![1, 2, 3], None);
    assert_eq!(bytes, vec![1, 2, 3]);
    assert!(warned);
}

#[test]
fn full_build_with_optimizer_failure_still_succeeds() {
    let flow = BuildFlow::new("proj".to_string(), config());
    let (flow, action) = flow.step(BuildEvent::Start);
    assert!(matches!(action, BuildAction::RunCompiler));
    let (flow, action) = flow.step(BuildEvent::CompileFinished(Ok(())));
    match &action {
        BuildAction::ListArtifactDirectory(d) => {
            assert_eq!(d, "proj/target/wasm32-unknown-unknown/release")
        }
        _ => panic!("expected a directory listing action"),
    }
    let names = vec!["compiled.wasm".to_string(), "compiled.js".to_string()];
    let (flow, action) = flow.step(BuildEvent::DirectoryListed(Ok(names)));
    match &action {
        BuildAction::ReadBinary(p) => {
            assert_eq!(p, "proj/target/wasm32-unknown-unknown/release/compiled.wasm")
        }
        _ => panic!("expected a binary read action"),
    }
    let original = vec![0u8, 97, 115, 109];
    let (flow, action) = flow.step(BuildEvent::BinaryRead(Ok(original.clone())));
    match &action {
        BuildAction::RunOptimizer { binary, profile } => {
            assert_eq!(binary, &original);
            assert_eq!(profile.shrink_level, 1);
            assert_eq!(profile.optimization_level, 2);
            assert!(!profile.debug_info);
        }
        _ => panic!("expected an optimizer action"),
    }
    let (flow, action) = flow.step(BuildEvent::OptimizeFinished(None));
    match &action {
        BuildAction::ReadScript(p) => {
            assert_eq!(p, "proj/target/wasm32-unknown-unknown/release/compiled.js")
        }
        _ => panic!("expected a script read action"),
    }
    let (flow, action) = flow.step(BuildEvent::ScriptRead(Ok(generated_script())));
    match &action {
        BuildAction::WriteOutputs { binary_path, binary, script_path, script } => {
            assert_eq!(binary_path, "proj/target/compiled.wasm");
            assert_eq!(binary, &original, "fallback output must be byte-identical");
            assert_eq!(script_path, "proj/target/main.js");
            assert!(script.contains("return require('compiled');"));
        }
        _ => panic!("expected a write action"),
    }
    let (flow, action) = flow.step(BuildEvent::OutputsWritten(Ok(())));
    assert!(matches!(action, BuildAction::Report));
    match flow.state {
        BuildState::Done { warned } => assert!(warned, "the fallback records a warning"),
        _ => panic!("expected the build to succeed"),
    }
}

#[test]
fn compile_failure_is_fatal() {
    let flow = BuildFlow::new("p".to_string(), config());
    let (flow, _) = flow.step(BuildEvent::Start);
    let (flow, action) = flow.step(BuildEvent::CompileFinished(Err("boom".to_string())));
    assert!(matches!(action, BuildAction::Report));
    match flow.state {
        BuildState::Failed { error: Error::Toolchain { detail } } => assert_eq!(detail, "boom"),
        _ => panic!("expected a toolchain failure"),
    }
}

#[test]
fn two_wasm_files_fail_the_build_with_discovery_error() {
    let flow = BuildFlow::new("p".to_string(), config());
    let (flow, _) = flow.step(BuildEvent::Start);
    let (flow, _) = flow.step(BuildEvent::CompileFinished(Ok(())));
    let names = vec![
        "a.wasm".to_string(),
        "b.wasm".to_string(),
        "compiled.js".to_string(),
    ];
    let (flow, _) = flow.step(BuildEvent::DirectoryListed(Ok(names)));
    match flow.state {
        BuildState::Failed { error: Error::ArtifactDiscovery { directory, multiple, .. } } => {
            assert!(multiple);
            assert_eq!(directory, "p/target/wasm32-unknown-unknown/release");
        }
        _ => panic!("expected a discovery failure"),
    }
}

#[test]
fn malformed_script_fails_the_build_with_shape_mismatch() {
    let flow = BuildFlow::new("p".to_string(), config());
    let (flow, _) = flow.step(BuildEvent::Start);
    let (flow, _) = flow.step(BuildEvent::CompileFinished(Ok(())));
    let names = vec!["compiled.wasm".to_string(), "compiled.js".to_string()];
    let (flow, _) = flow.step(BuildEvent::DirectoryListed(Ok(names)));
    let (flow, _) = flow.step(BuildEvent::BinaryRead(Ok(vec![1])));
    let (flow, _) = flow.step(BuildEvent::OptimizeFinished(Some(vec![2])));
    let (flow, _) = flow.step(BuildEvent::ScriptRead(Ok("garbage".to_string())));
    assert!(matches!(
        flow.state,
        BuildState::Failed { error: Error::LoaderShapeMismatch { .. } }
    ));
}

#[test]
fn verbosity_levels_follow_occurrences() {
    assert!(matches!(verbosity_filter(0), LogVerbosity::Info));
    assert!(matches!(verbosity_filter(1), LogVerbosity::Debug));
    assert!(matches!(verbosity_filter(2), LogVerbosity::Trace));
    assert!(matches!(verbosity_filter(7), LogVerbosity::Trace));
}

#[test]
fn command_flags_select_the_operation() {
    assert!(matches!(command_state(true, false, false), Some(CliState::Check)));
    assert!(matches!(command_state(false, true, false), Some(CliState::Build)));
    assert!(matches!(command_state(false, false, true), Some(CliState::BuildUpload)));
    assert!(matches!(command_state(false, true, true), Some(CliState::BuildUpload)));
    assert!(command_state(false, false, false).is_none());
}

#[test]
fn custom_header_is_read_and_prepended() {
    let text = "username = \"u\"\npassword = \"p\"\n\n[build]\ninitialization_header_file = \"js/header.js\"\n";
    let cfg = parse_project_configuration(text).unwrap();
    let flow = BuildFlow::new("p".to_string(), cfg);
    let (flow, _) = flow.step(BuildEvent::Start);
    let (flow, _) = flow.step(BuildEvent::CompileFinished(Ok(())));
    let names = vec!["compiled.wasm".to_string(), "compiled.js".to_string()];
    let (flow, _) = flow.step(BuildEvent::DirectoryListed(Ok(names)));
    let (flow, _) = flow.step(BuildEvent::BinaryRead(Ok(vec![1])));
    let (flow, _) = flow.step(BuildEvent::OptimizeFinished(Some(vec![2])));
    let (flow, action) = flow.step(BuildEvent::ScriptRead(Ok(generated_script())));
    match &action {
        BuildAction::ReadHeader(p) => assert_eq!(p, "p/js/header.js"),
        _ => panic!("expected a header read action"),
    }
    let (flow, action) = flow.step(BuildEvent::HeaderRead(Ok("// custom".to_string())));
    match &action {
        BuildAction::WriteOutputs { binary, script, .. } => {
            assert_eq!(binary, &vec![2u8], "optimized bytes are written");
            assert!(script.starts_with("// custom"));
        }
        _ => panic!("expected a write action"),
    }
    let (flow, _) = flow.step(BuildEvent::OutputsWritten(Ok(())));
    assert!(matches!(flow.state, BuildState::Done { warned: false }));
}

#[test]
fn unexpected_event_fails_the_build() {
    let flow = BuildFlow::new("p".to_string(), config());
    let (flow, action) = flow.step(BuildEvent::OutputsWritten(Ok(())));
    assert!(matches!(action, BuildAction::Report));
    assert!(matches!(flow.state, BuildState::Failed { error: Error::Io { .. } }));
}
