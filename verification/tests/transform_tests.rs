use cargo_screeps::errors::{AnchorKind, Error};
use cargo_screeps::text::module_stem_str;
use cargo_screeps::transform::{
    replace_console_calls, transform_loader, DEFAULT_INITIALIZATION_HEADER, PREFIX_TEMPLATE,
    SUFFIX_TEMPLATE,
};

fn scaffolded(module: &str, body: &str) -> String {
    let mut s = PREFIX_TEMPLATE.replace("XXX", module);
    s.push_str(body);
    s.push_str(SUFFIX_TEMPLATE);
    s
}

#[test]
fn exact_scaffold_is_stripped() {
    let input = scaffolded("main", "\n        var x = 1;\n");
    let out = transform_loader(&input, "main.wasm", "HEADER").unwrap();
    assert!(out.starts_with("HEADER\n\nfunction wasm_fetch_module_bytes() {"));
    assert!(out.contains("return require('main');"));
    assert!(out.contains("var x = 1;"));
    assert!(!out.contains("module_factory"));
    assert!(!out.contains("WebAssembly.instantiateStreaming"));
}

#[test]
fn default_header_scenario_references_module_name() {
    let input = scaffolded("main", "\n        var y = 2;\n");
    let out = transform_loader(&input, "main.wasm", DEFAULT_INITIALIZATION_HEADER).unwrap();
    assert!(out.starts_with(DEFAULT_INITIALIZATION_HEADER));
    assert!(out.contains("return require('main');"));
    assert!(out.contains("var y = 2;"));
}

#[test]
fn transformation_is_deterministic() {
    let input = scaffolded("game", "\n        init();\n");
    let a = transform_loader(&input, "game.wasm", "H").unwrap();
    let b = transform_loader(&input, "game.wasm", "H").unwrap();
    assert_eq!(a, b);
}

#[test]
fn whitespace_variation_inside_scaffold_still_matches() {
    let squeezed = PREFIX_TEMPLATE
        .replace("XXX", "main")
        .split_whitespace()
        .collect::<Vec<_>>()
        .join(" ");
    let mut input = squeezed;
    input.push_str("  var z = 3;  ");
    input.push_str(&SUFFIX_TEMPLATE.replace("\n", "  "));
    let out = transform_loader(&input, "main.wasm", "H");
    assert!(out.is_ok(), "reformatted scaffold should still match");
    assert!(out.unwrap().contains("var z = 3;"));
}

#[test]
fn missing_prefix_is_a_prefix_shape_mismatch() {
    let out = transform_loader("not a generated loader at all", "main.wasm", "H");
    assert!(matches!(
        out,
        Err(Error::LoaderShapeMismatch { anchor: AnchorKind::Prefix })
    ));
}

#[test]
fn missing_suffix_is_a_suffix_shape_mismatch() {
    let mut input = PREFIX_TEMPLATE.replace("XXX", "main");
    input.push_str("\n        var x = 1;\n// no closing scaffold");
    let out = transform_loader(&input, "main.wasm", "H");
    assert!(matches!(
        out,
        Err(Error::LoaderShapeMismatch { anchor: AnchorKind::Suffix })
    ));
}

#[test]
fn filename_without_stem_is_invalid_module_name() {
    let input = scaffolded("main", "\n");
    let out = transform_loader(&input, "", "H");
    match out {
        Err(Error::InvalidModuleName { file_name }) => assert_eq!(file_name, ""),
        _ => panic!("expected an invalid module name error"),
    }
}

#[test]
fn console_error_calls_are_all_replaced() {
    let body = "\n  console.error('a'); if (x) { console.error('b'); }\n  console.error(console.error);\n";
    let input = scaffolded("main", body);
    let out = transform_loader(&input, "main.wasm", "H").unwrap();
    assert!(!out.contains("console.error"));
    assert_eq!(out.matches("console_error").count(), 4);
}

#[test]
fn replace_rewrites_every_occurrence() {
    let s = "console.error console.errorconsole.error tail";
    let r = replace_console_calls(s);
    assert_eq!(r, "console_error console_errorconsole_error tail");
    assert!(!r.contains("console.error"));
}

#[test]
fn replace_leaves_other_text_alone() {
    let s = "console.errol console . error consoleXerror";
    assert_eq!(replace_console_calls(s), s);
}

#[test]
fn module_stem_cases() {
    assert_eq!(module_stem_str("compiled.wasm").unwrap(), "compiled");
    assert_eq!(module_stem_str("noext").unwrap(), "noext");
    assert_eq!(module_stem_str("dir/a.b.wasm").unwrap(), "a.b");
    assert_eq!(module_stem_str(".hidden").unwrap(), ".hidden");
    assert!(module_stem_str("").is_none());
    assert!(module_stem_str("..").is_none());
    assert!(module_stem_str("dir/.").is_none());
}

#[test]
fn module_name_in_scaffold_may_differ_per_project() {
    let input = scaffolded("my_game-2", "\n        boot();\n");
    let out = transform_loader(&input, "my_game-2.wasm", "H").unwrap();
    assert!(out.contains("return require('my_game-2');"));
}

#[test]
fn empty_bootstrap_body_is_accepted() {
    let mut input = PREFIX_TEMPLATE.replace("XXX", "main");
    input.push_str(SUFFIX_TEMPLATE);
    let out = transform_loader(&input, "main.wasm", "H").unwrap();
    assert!(out.contains("return require('main');"));
}
