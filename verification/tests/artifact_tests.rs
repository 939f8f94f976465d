use cargo_screeps::artifacts::locate_artifacts;
use cargo_screeps::errors::{ArtifactCategory, Error};

fn names(list: &[&str]) -> Vec<String> {
    list.iter().map(|s| s.to_string()).collect()
}

#[test]
fn one_of_each_is_found() {
    let ns = names(&["game.wasm", "game.js", "notes.txt"]);
    let pair = locate_artifacts("target/release", &ns).unwrap();
    assert_eq!(pair.wasm_file, "target/release/game.wasm");
    assert_eq!(pair.js_file, "target/release/game.js");
}

#[test]
fn order_does_not_matter() {
    let a = names(&["game.wasm", "game.js", "notes.txt"]);
    let b = names(&["notes.txt", "game.js", "game.wasm"]);
    let pa = locate_artifacts("d", &a).unwrap();
    let pb = locate_artifacts("d", &b).unwrap();
    assert_eq!(pa.wasm_file, pb.wasm_file);
    assert_eq!(pa.js_file, pb.js_file);
}

#[test]
fn two_wasm_files_fail_with_multiple() {
    let ns = names(&["a.wasm", "b.wasm", "game.js"]);
    match locate_artifacts("out/dir", &ns) {
        Err(Error::ArtifactDiscovery { directory, category, multiple }) => {
            assert_eq!(directory, "out/dir");
            assert!(matches!(category, ArtifactCategory::BinaryModule));
            assert!(multiple);
        }
        _ => panic!("expected a discovery error"),
    }
}

#[test]
fn two_wasm_files_message_names_directory_and_multiple() {
    let ns = names(&["a.wasm", "b.wasm", "game.js"]);
    let err = locate_artifacts("out/dir", &ns).unwrap_err();
    let msg = err.message();
    assert!(msg.contains("multiple"));
    assert!(msg.contains("out/dir"));
    assert!(msg.contains("wasm"));
}

#[test]
fn zero_wasm_files_fail_without_multiple() {
    let ns = names(&["game.js"]);
    match locate_artifacts("d", &ns) {
        Err(Error::ArtifactDiscovery { category, multiple, .. }) => {
            assert!(matches!(category, ArtifactCategory::BinaryModule));
            assert!(!multiple);
        }
        _ => panic!("expected a discovery error"),
    }
}

#[test]
fn zero_js_files_fail_for_script_category() {
    let ns = names(&["game.wasm"]);
    match locate_artifacts("d", &ns) {
        Err(Error::ArtifactDiscovery { category, multiple, .. }) => {
            assert!(matches!(category, ArtifactCategory::LoaderScript));
            assert!(!multiple);
        }
        _ => panic!("expected a discovery error"),
    }
}

#[test]
fn two_js_files_fail_for_script_category() {
    let ns = names(&["game.wasm", "a.js", "b.js"]);
    match locate_artifacts("d", &ns) {
        Err(Error::ArtifactDiscovery { category, multiple, .. }) => {
            assert!(matches!(category, ArtifactCategory::LoaderScript));
            assert!(multiple);
        }
        _ => panic!("expected a discovery error"),
    }
}

#[test]
fn hidden_and_extensionless_files_are_ignored() {
    let ns = names(&[".wasm", "noext", "game.wasm", "game.js"]);
    assert!(locate_artifacts("d", &ns).is_ok());
}
