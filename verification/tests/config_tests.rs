use cargo_screeps::config::{
    default_branch, default_hostname, default_ptr, parse_project_configuration, Configuration,
    FileConfiguration,
};
use cargo_screeps::errors::Error;

#[test]
fn defaults_are_fixed() {
    assert_eq!(default_hostname(), "screeps.com");
    assert_eq!(default_branch(), "default");
    assert!(!default_ptr());
}

#[test]
fn canonical_hostname_defaults_to_tls_and_443() {
    let text = "username = \"u\"\npassword = \"p\"\nhostname = \"screeps.com\"\n";
    let pc = parse_project_configuration(text).unwrap();
    assert!(pc.platform.ssl);
    assert_eq!(pc.platform.port, 443);
    assert_eq!(pc.platform.branch, "default");
    assert!(!pc.platform.ptr);
    assert_eq!(pc.platform.username, "u");
    assert_eq!(pc.platform.password, "p");
}

#[test]
fn custom_hostname_defaults_to_plain_and_80() {
    let text = "username = \"u\"\npassword = \"p\"\nhostname = \"custom.example\"\n";
    let pc = parse_project_configuration(text).unwrap();
    assert!(!pc.platform.ssl);
    assert_eq!(pc.platform.port, 80);
}

#[test]
fn hostname_defaults_to_canonical() {
    let text = "username = \"u\"\npassword = \"p\"\n";
    let pc = parse_project_configuration(text).unwrap();
    assert_eq!(pc.platform.hostname, "screeps.com");
    assert!(pc.platform.ssl);
    assert_eq!(pc.platform.port, 443);
}

#[test]
fn explicit_overrides_always_win() {
    let text = "username = \"u\"\npassword = \"p\"\nhostname = \"screeps.com\"\nssl = false\nport = 1234\nbranch = \"sim\"\nptr = true\n";
    let pc = parse_project_configuration(text).unwrap();
    assert!(!pc.platform.ssl);
    assert_eq!(pc.platform.port, 1234);
    assert_eq!(pc.platform.branch, "sim");
    assert!(pc.platform.ptr);
}

#[test]
fn explicit_ssl_off_canonical_host_port_80() {
    let text = "username = \"u\"\npassword = \"p\"\nssl = false\n";
    let pc = parse_project_configuration(text).unwrap();
    assert!(!pc.platform.ssl);
    assert_eq!(pc.platform.port, 80);
}

#[test]
fn missing_username_is_a_parse_error() {
    let text = "password = \"p\"\n";
    match parse_project_configuration(text) {
        Err(Error::ConfigParse { detail }) => assert!(detail.contains("username")),
        other => panic!("expected a parse error, got {:?}", other.is_ok()),
    }
}

#[test]
fn missing_password_is_a_parse_error() {
    let text = "username = \"u\"\n";
    assert!(matches!(
        parse_project_configuration(text),
        Err(Error::ConfigParse { .. })
    ));
}

#[test]
fn invalid_toml_is_a_parse_error() {
    let text = "username = \n";
    assert!(matches!(
        parse_project_configuration(text),
        Err(Error::ConfigParse { .. })
    ));
}

#[test]
fn wrong_type_is_a_parse_error() {
    let text = "username = \"u\"\npassword = \"p\"\nssl = \"yes\"\n";
    assert!(matches!(
        parse_project_configuration(text),
        Err(Error::ConfigParse { .. })
    ));
}

#[test]
fn port_out_of_range_is_a_parse_error() {
    let text = "username = \"u\"\npassword = \"p\"\nport = 99999999999\n";
    assert!(matches!(
        parse_project_configuration(text),
        Err(Error::ConfigParse { .. })
    ));
}

#[test]
fn build_section_is_read_with_defaults() {
    let text = "username = \"u\"\npassword = \"p\"\n\n[build]\noutput_wasm_file = \"game.wasm\"\nshrink_level = 2\n";
    let pc = parse_project_configuration(text).unwrap();
    assert_eq!(pc.build.output_wasm_file, "game.wasm");
    assert_eq!(pc.build.output_js_file, "main.js");
    assert_eq!(pc.build.binaryen.shrink_level, 2);
    assert_eq!(pc.build.binaryen.optimization_level, 2);
    assert!(!pc.build.binaryen.debug_info);
    assert!(pc.build.initialization_header_file.is_none());
}

#[test]
fn resolve_applies_derivation_directly() {
    let file = FileConfiguration {
        username: String::from("u"),
        password: String::from("p"),
        branch: String::from("default"),
        hostname: String::from("screeps.com"),
        ssl: None,
        port: None,
        ptr: false,
    };
    let c = Configuration::resolve(file);
    assert!(c.ssl);
    assert_eq!(c.port, 443);
}

#[test]
fn error_messages_name_their_cause() {
    let missing = Error::ConfigMissing { root: "/proj".to_string() };
    assert!(missing.message().contains("screeps.toml"));
    assert!(missing.message().contains("/proj"));
    let opt = Error::OptimizerParse;
    assert!(opt.message().contains("invalid"));
    let bad_name = Error::InvalidModuleName { file_name: "..".to_string() };
    assert!(bad_name.message().contains("output_wasm_file"));
}

#[test]
fn build_section_must_be_a_table() {
    let text = "username = \"u\"\npassword = \"p\"\nbuild = 3\n";
    assert!(matches!(
        parse_project_configuration(text),
        Err(Error::ConfigParse { .. })
    ));
}

#[test]
fn build_field_of_wrong_type_is_a_parse_error() {
    let text = "username = \"u\"\npassword = \"p\"\n\n[build]\nshrink_level = \"high\"\n";
    assert!(matches!(
        parse_project_configuration(text),
        Err(Error::ConfigParse { .. })
    ));
}
