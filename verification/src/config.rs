//! Configuration resolution: the raw fields of the configuration file,
//! the fixed defaults, and the derived TLS/port defaults. The file itself
//! is parsed by the `toml` crate through the trusted items at the bottom;
//! everything decided on the parsed values is verified here.

use vstd::prelude::*;

use crate::errors::Error;

verus! {

/// The configuration file's platform fields after the fixed defaults are
/// applied but before the derived ones. `ssl` and `port` stay optional
/// because their defaults depend on other fields.
#[derive(Debug)]
pub struct FileConfiguration {
    pub username: String,
    pub password: String,
    pub branch: String,
    pub hostname: String,
    pub ssl: Option<bool>,
    pub port: Option<i32>,
    pub ptr: bool,
}

/// A fully resolved platform configuration, immutable once resolved.
#[derive(Debug)]
pub struct Configuration {
    pub username: String,
    pub password: String,
    pub branch: String,
    pub hostname: String,
    pub ssl: bool,
    pub port: i32,
    pub ptr: bool,
}

/// The optimizer's codegen profile.
#[derive(Debug)]
pub struct OptimizerProfile {
    pub shrink_level: u32,
    pub optimization_level: u32,
    pub debug_info: bool,
}

/// The build section of the configuration file, with defaults applied.
#[derive(Debug)]
pub struct BuildConfiguration {
    pub output_wasm_file: String,
    pub output_js_file: String,
    pub initialization_header_file: Option<String>,
    pub binaryen: OptimizerProfile,
}

/// Platform and build configuration together, as one resolved unit.
#[derive(Debug)]
pub struct ProjectConfiguration {
    pub platform: Configuration,
    pub build: BuildConfiguration,
}

/// The canonical production hostname of the target platform.
pub open spec fn canonical_hostname() -> Seq<char> {
    "screeps.com"@
}

/// TLS defaults to on exactly when the hostname is the canonical one.
pub open spec fn spec_resolved_ssl(ssl: Option<bool>, hostname: Seq<char>) -> bool {
    match ssl {
        Some(b) => b,
        None => hostname == canonical_hostname(),
    }
}

/// The port defaults to 443 with TLS and 80 without.
pub open spec fn spec_resolved_port(port: Option<i32>, ssl: bool) -> i32 {
    match port {
        Some(p) => p,
        None => if ssl { 443 } else { 80 },
    }
}

/// `c` is the resolution of the raw fields `f`: every field carried over,
/// with TLS and port derived where they were absent.
pub open spec fn resolves(c: Configuration, f: FileConfiguration) -> bool {
    &&& c.username == f.username
    &&& c.password == f.password
    &&& c.branch == f.branch
    &&& c.hostname == f.hostname
    &&& c.ssl == spec_resolved_ssl(f.ssl, f.hostname@)
    &&& c.port == spec_resolved_port(f.port, spec_resolved_ssl(f.ssl, f.hostname@))
    &&& c.ptr == f.ptr
}

pub fn default_hostname() -> (r: String)
    ensures
        r@ == canonical_hostname(),
{
    "screeps.com".to_owned()
}

pub fn default_ptr() -> (r: bool)
    ensures
        r == false,
{
    false
}

pub fn default_branch() -> (r: String)
    ensures
        r@ == "default"@,
{
    "default".to_owned()
}

impl FileConfiguration {
    /// Applies the fixed defaults to the optional fields that have one:
    /// branch `"default"`, the canonical hostname, and `ptr` off. The
    /// derived fields `ssl` and `port` are left untouched.
    pub fn from_parts(
        username: String,
        password: String,
        branch: Option<String>,
        hostname: Option<String>,
        ssl: Option<bool>,
        port: Option<i32>,
        ptr: Option<bool>,
    ) -> (f: FileConfiguration)
        ensures
            f.username == username,
            f.password == password,
            branch matches Some(b) ==> f.branch == b,
            branch is None ==> f.branch@ == "default"@,
            hostname matches Some(h) ==> f.hostname == h,
            hostname is None ==> f.hostname@ == canonical_hostname(),
            f.ssl == ssl,
            f.port == port,
            ptr matches Some(p) ==> f.ptr == p,
            ptr is None ==> f.ptr == false,
    {
        FileConfiguration {
            username,
            password,
            branch: match branch {
                Some(b) => b,
                None => default_branch(),
            },
            hostname: match hostname {
                Some(h) => h,
                None => default_hostname(),
            },
            ssl,
            port,
            ptr: match ptr {
                Some(p) => p,
                None => default_ptr(),
            },
        }
    }
}

impl Configuration {
    /// Applies the derived defaults: TLS on exactly when the hostname is
    /// the canonical production hostname, port 443 with TLS and 80
    /// without, with explicit values always taking precedence.
    pub fn resolve(file: FileConfiguration) -> (c: Configuration)
        ensures
            resolves(c, file),
    {
        let ssl = match file.ssl {
            Some(b) => b,
            None => file.hostname == default_hostname(),
        };
        let port: i32 = match file.port {
            Some(p) => p,
            None => if ssl { 443 } else { 80 },
        };
        Configuration {
            username: file.username,
            password: file.password,
            branch: file.branch,
            hostname: file.hostname,
            ssl,
            port,
            ptr: file.ptr,
        }
    }
}

/// TLS defaults to true exactly when the hostname equals the canonical
/// production hostname; the port defaults to 443 exactly when TLS is
/// enabled, and to 80 otherwise; an explicit value always wins over the
/// derived default.
pub proof fn lemma_tls_port_defaults(ssl: Option<bool>, port: Option<i32>, hostname: Seq<char>)
    ensures
        ssl is None ==> (spec_resolved_ssl(ssl, hostname) <==> hostname == canonical_hostname()),
        ssl matches Some(b) ==> spec_resolved_ssl(ssl, hostname) == b,
        port is None ==> spec_resolved_port(port, spec_resolved_ssl(ssl, hostname)) == (
            if spec_resolved_ssl(ssl, hostname) { 443 as i32 } else { 80 as i32 }
        ),
        port matches Some(p) ==> spec_resolved_port(port, spec_resolved_ssl(ssl, hostname)) == p,
{
}


/// Declares the `toml` crate's value type so its values can flow through
/// signatures here; the type stays opaque to verification.
#[verifier::external_type_specification]
#[verifier::external_body]
pub struct ExTomlValue(toml::Value);

/// The model of a parsed TOML value, over plain values: everything the
/// configuration logic reads of one. Kinds the logic never touches
/// (floats, datetimes, arrays) fall under `Other`.
pub enum TomlNode {
    Str(Seq<char>),
    Boolean(bool),
    Integer(i64),
    Table(Map<Seq<char>, TomlNode>),
    Other,
}

/// What `toml::from_str` yields for exactly this text; the parse is a
/// deterministic function of the text alone, `None` where the text is
/// not valid TOML.
pub uninterp spec fn parsed_document(text: Seq<char>) -> Option<TomlNode>;

/// The model of one parsed TOML value.
pub uninterp spec fn value_model(v: toml::Value) -> TomlNode;

/// Relies on toml::from_str::<toml::Value>: parses the text as a TOML
/// document, a table at the root; `None` exactly when the parser
/// reported an error.
#[verifier::external_body]
fn toml_parse_document(text: &str) -> (r: Option<toml::Value>)
    ensures
        r is Some <==> parsed_document(text@) is Some,
        r matches Some(v) ==> value_model(v) == parsed_document(text@)->Some_0 && value_model(v)
            is Table,
{
    match toml::from_str::<toml::Value>(text) {
        Ok(v) => Some(v),
        Err(_) => None,
    }
}

/// Relies on toml::Value::get with a string index: the entry at `key` of
/// a table, `None` where the value is not a table or has no such key.
#[verifier::external_body]
fn toml_get<'a>(value: &'a toml::Value, key: &str) -> (r: Option<&'a toml::Value>)
    ensures
        (match value_model(*value) {
            TomlNode::Table(entries) => {
                &&& (r is Some <==> entries.contains_key(key@))
                &&& (r matches Some(c) ==> entries.contains_key(key@) && value_model(*c)
                    == entries[key@])
            },
            _ => r is None,
        }),
{
    value.get(key)
}

/// Relies on toml::Value::is_table.
#[verifier::external_body]
fn toml_is_table(value: &toml::Value) -> (r: bool)
    ensures
        r == (value_model(*value) is Table),
{
    value.is_table()
}

/// Relies on toml::Value::as_str: `Some` exactly for a TOML string,
/// here handed out as an owned copy.
#[verifier::external_body]
fn toml_as_string(value: &toml::Value) -> (r: Option<String>)
    ensures
        r is Some <==> value_model(*value) is Str,
        r matches Some(s) ==> value_model(*value) == TomlNode::Str(s@),
{
    match value.as_str() {
        Some(s) => Some(s.to_owned()),
        None => None,
    }
}

/// Relies on toml::Value::as_bool: `Some` exactly for a TOML boolean.
#[verifier::external_body]
fn toml_as_bool(value: &toml::Value) -> (r: Option<bool>)
    ensures
        r is Some <==> value_model(*value) is Boolean,
        r matches Some(b) ==> value_model(*value) == TomlNode::Boolean(b),
{
    value.as_bool()
}

/// Relies on toml::Value::as_integer: `Some` exactly for a TOML integer.
#[verifier::external_body]
fn toml_as_integer(value: &toml::Value) -> (r: Option<i64>)
    ensures
        r is Some <==> value_model(*value) is Integer,
        r matches Some(n) ==> value_model(*value) == TomlNode::Integer(n),
{
    value.as_integer()
}

/// The string at `key`, if the table has one there.
pub open spec fn opt_string(m: Map<Seq<char>, TomlNode>, key: Seq<char>) -> Option<Seq<char>> {
    if m.contains_key(key) {
        match m[key] {
            TomlNode::Str(s) => Some(s),
            _ => None,
        }
    } else {
        None
    }
}

/// The boolean at `key`, if the table has one there.
pub open spec fn opt_bool(m: Map<Seq<char>, TomlNode>, key: Seq<char>) -> Option<bool> {
    if m.contains_key(key) {
        match m[key] {
            TomlNode::Boolean(b) => Some(b),
            _ => None,
        }
    } else {
        None
    }
}

/// The integer at `key`, if the table has one there.
pub open spec fn opt_int(m: Map<Seq<char>, TomlNode>, key: Seq<char>) -> Option<i64> {
    if m.contains_key(key) {
        match m[key] {
            TomlNode::Integer(n) => Some(n),
            _ => None,
        }
    } else {
        None
    }
}

/// `key` is absent or holds a string.
pub open spec fn string_field_ok(m: Map<Seq<char>, TomlNode>, key: Seq<char>) -> bool {
    m.contains_key(key) ==> m[key] is Str
}

/// `key` is absent or holds a boolean.
pub open spec fn bool_field_ok(m: Map<Seq<char>, TomlNode>, key: Seq<char>) -> bool {
    m.contains_key(key) ==> m[key] is Boolean
}

/// `key` is absent or holds an integer the port type can carry.
pub open spec fn port_field_ok(m: Map<Seq<char>, TomlNode>, key: Seq<char>) -> bool {
    m.contains_key(key) ==> (m[key] matches TomlNode::Integer(n) && -2147483648 <= n
        <= 2147483647)
}

/// `key` is absent or holds a small non-negative integer.
pub open spec fn level_field_ok(m: Map<Seq<char>, TomlNode>, key: Seq<char>) -> bool {
    m.contains_key(key) ==> (m[key] matches TomlNode::Integer(n) && 0 <= n <= 4294967295)
}

/// The entries of the document's root table; empty where the text does
/// not parse.
pub open spec fn doc_entries(text: Seq<char>) -> Map<Seq<char>, TomlNode> {
    match parsed_document(text) {
        Some(TomlNode::Table(m)) => m,
        _ => Map::empty(),
    }
}

/// The entries of the build section; empty where there is none.
pub open spec fn build_entries(m: Map<Seq<char>, TomlNode>) -> Map<Seq<char>, TomlNode> {
    if m.contains_key("build"@) {
        match m["build"@] {
            TomlNode::Table(bm) => bm,
            _ => Map::empty(),
        }
    } else {
        Map::empty()
    }
}

/// The texts the configuration resolver accepts: valid TOML whose root
/// table holds string credentials, whose optional platform fields carry
/// their expected types, and whose build section, if present, is a table
/// of correctly-typed fields.
pub open spec fn spec_config_text_ok(text: Seq<char>) -> bool {
    let m = doc_entries(text);
    let bm = build_entries(m);
    &&& parsed_document(text) is Some
    &&& m.contains_key("username"@) && m["username"@] is Str
    &&& m.contains_key("password"@) && m["password"@] is Str
    &&& string_field_ok(m, "branch"@)
    &&& string_field_ok(m, "hostname"@)
    &&& bool_field_ok(m, "ssl"@)
    &&& port_field_ok(m, "port"@)
    &&& bool_field_ok(m, "ptr"@)
    &&& (m.contains_key("build"@) ==> m["build"@] is Table)
    &&& string_field_ok(bm, "output_wasm_file"@)
    &&& string_field_ok(bm, "output_js_file"@)
    &&& string_field_ok(bm, "initialization_header_file"@)
    &&& level_field_ok(bm, "shrink_level"@)
    &&& level_field_ok(bm, "optimization_level"@)
    &&& bool_field_ok(bm, "debug_info"@)
}

/// `c` is the platform configuration the root table `m` resolves to:
/// each field the file's value, the fixed defaults where absent, and TLS
/// and port derived where absent.
pub open spec fn spec_platform_of(m: Map<Seq<char>, TomlNode>, c: Configuration) -> bool {
    let hostname = match opt_string(m, "hostname"@) {
        Some(h) => h,
        None => canonical_hostname(),
    };
    let ssl = spec_resolved_ssl(opt_bool(m, "ssl"@), hostname);
    &&& opt_string(m, "username"@) matches Some(u) && c.username@ == u
    &&& opt_string(m, "password"@) matches Some(w) && c.password@ == w
    &&& c.branch@ == (match opt_string(m, "branch"@) {
        Some(b) => b,
        None => "default"@,
    })
    &&& c.hostname@ == hostname
    &&& c.ssl == ssl
    &&& c.port == spec_resolved_port(
        match opt_int(m, "port"@) {
            Some(n) => Some(n as i32),
            None => Option::<i32>::None,
        },
        ssl,
    )
    &&& c.ptr == (match opt_bool(m, "ptr"@) {
        Some(b) => b,
        None => false,
    })
}

/// `b` is the build configuration the build section `bm` resolves to:
/// each field the file's value, the fixed defaults where absent.
pub open spec fn spec_build_of(bm: Map<Seq<char>, TomlNode>, b: BuildConfiguration) -> bool {
    &&& b.output_wasm_file@ == (match opt_string(bm, "output_wasm_file"@) {
        Some(s) => s,
        None => "compiled.wasm"@,
    })
    &&& b.output_js_file@ == (match opt_string(bm, "output_js_file"@) {
        Some(s) => s,
        None => "main.js"@,
    })
    &&& (match opt_string(bm, "initialization_header_file"@) {
        Some(s) => b.initialization_header_file matches Some(h) && h@ == s,
        None => b.initialization_header_file is None,
    })
    &&& b.binaryen.shrink_level == (match opt_int(bm, "shrink_level"@) {
        Some(n) => n as u32,
        None => 1u32,
    })
    &&& b.binaryen.optimization_level == (match opt_int(bm, "optimization_level"@) {
        Some(n) => n as u32,
        None => 2u32,
    })
    &&& b.binaryen.debug_info == (match opt_bool(bm, "debug_info"@) {
        Some(v) => v,
        None => false,
    })
}

fn field_error(key: &str, expected: &str) -> (e: Error)
    ensures
        e is ConfigParse,
{
    let mut d = "expected ".to_owned();
    d.append(expected);
    d.append(" for configuration key '");
    d.append(key);
    d.append("'");
    Error::ConfigParse { detail: d }
}

fn missing_error(key: &str) -> (e: Error)
    ensures
        e is ConfigParse,
{
    let mut d = "missing required configuration key '".to_owned();
    d.append(key);
    d.append("'");
    Error::ConfigParse { detail: d }
}

/// An optional string field: absent keys are fine, present values must
/// be strings.
fn read_string_field(table: &toml::Value, key: &str) -> (r: Result<Option<String>, Error>)
    ensures
        (match value_model(*table) {
            TomlNode::Table(m) => {
                &&& (r matches Ok(v) ==> (match v {
                    Some(s) => m.contains_key(key@) && m[key@] == TomlNode::Str(s@),
                    None => !m.contains_key(key@),
                }))
                &&& (r is Err <==> m.contains_key(key@) && !(m[key@] is Str))
            },
            _ => r matches Ok(None),
        }),
        r matches Err(e) ==> e is ConfigParse,
{
    match toml_get(table, key) {
        None => Ok(None),
        Some(v) => match toml_as_string(v) {
            Some(s) => Ok(Some(s)),
            None => Err(field_error(key, "a string")),
        },
    }
}

/// An optional boolean field.
fn read_bool_field(table: &toml::Value, key: &str) -> (r: Result<Option<bool>, Error>)
    ensures
        (match value_model(*table) {
            TomlNode::Table(m) => {
                &&& (r matches Ok(v) ==> (match v {
                    Some(b) => m.contains_key(key@) && m[key@] == TomlNode::Boolean(b),
                    None => !m.contains_key(key@),
                }))
                &&& (r is Err <==> m.contains_key(key@) && !(m[key@] is Boolean))
            },
            _ => r matches Ok(None),
        }),
        r matches Err(e) ==> e is ConfigParse,
{
    match toml_get(table, key) {
        None => Ok(None),
        Some(v) => match toml_as_bool(v) {
            Some(b) => Ok(Some(b)),
            None => Err(field_error(key, "a boolean")),
        },
    }
}

/// An optional port field: an integer that must fit the port type.
fn read_port_field(table: &toml::Value, key: &str) -> (r: Result<Option<i32>, Error>)
    ensures
        (match value_model(*table) {
            TomlNode::Table(m) => {
                &&& (r matches Ok(v) ==> (match v {
                    Some(p) => m.contains_key(key@) && (m[key@] matches TomlNode::Integer(n)
                        && -2147483648 <= n <= 2147483647 && p == n as i32),
                    None => !m.contains_key(key@),
                }))
                &&& (r is Err <==> m.contains_key(key@) && !(m[key@] matches TomlNode::Integer(n)
                    && -2147483648 <= n <= 2147483647))
            },
            _ => r matches Ok(None),
        }),
        r matches Err(e) ==> e is ConfigParse,
{
    match toml_get(table, key) {
        None => Ok(None),
        Some(v) => match toml_as_integer(v) {
            Some(n) => {
                if n < -2147483648i64 || n > 2147483647i64 {
                    Err(field_error(key, "an integer in port range"))
                } else {
                    Ok(Some(n as i32))
                }
            },
            None => Err(field_error(key, "an integer")),
        },
    }
}

/// An optional optimizer tunable: a small non-negative integer.
fn read_u32_field(table: &toml::Value, key: &str) -> (r: Result<Option<u32>, Error>)
    ensures
        (match value_model(*table) {
            TomlNode::Table(m) => {
                &&& (r matches Ok(v) ==> (match v {
                    Some(p) => m.contains_key(key@) && (m[key@] matches TomlNode::Integer(n) && 0
                        <= n <= 4294967295 && p == n as u32),
                    None => !m.contains_key(key@),
                }))
                &&& (r is Err <==> m.contains_key(key@) && !(m[key@] matches TomlNode::Integer(n)
                    && 0 <= n <= 4294967295))
            },
            _ => r matches Ok(None),
        }),
        r matches Err(e) ==> e is ConfigParse,
{
    match toml_get(table, key) {
        None => Ok(None),
        Some(v) => match toml_as_integer(v) {
            Some(n) => {
                if n < 0i64 || n > 4294967295i64 {
                    Err(field_error(key, "a non-negative integer"))
                } else {
                    Ok(Some(n as u32))
                }
            },
            None => Err(field_error(key, "an integer")),
        },
    }
}

/// The build section's fixed defaults.
pub fn default_build_configuration() -> (b: BuildConfiguration)
    ensures
        b.output_wasm_file@ == "compiled.wasm"@,
        b.output_js_file@ == "main.js"@,
        b.initialization_header_file is None,
        b.binaryen.shrink_level == 1,
        b.binaryen.optimization_level == 2,
        b.binaryen.debug_info == false,
{
    BuildConfiguration {
        output_wasm_file: "compiled.wasm".to_owned(),
        output_js_file: "main.js".to_owned(),
        initialization_header_file: None,
        binaryen: OptimizerProfile { shrink_level: 1, optimization_level: 2, debug_info: false },
    }
}

/// Parses and resolves the whole configuration file. Succeeds exactly on
/// the texts `spec_config_text_ok` accepts: the account credentials are
/// mandatory, every other field falls back to its fixed default or, for
/// TLS and port, to the derived one, and a malformed document, field or
/// build section is a parse error. On success every returned field is
/// the named field value of the text.
pub fn parse_project_configuration(text: &str) -> (r: Result<ProjectConfiguration, Error>)
    ensures
        r is Ok <==> spec_config_text_ok(text@),
        r matches Ok(pc) ==> spec_platform_of(doc_entries(text@), pc.platform) && spec_build_of(
            build_entries(doc_entries(text@)),
            pc.build,
        ),
        r matches Err(e) ==> e is ConfigParse,
{
    let ghost m = doc_entries(text@);
    let ghost bm = build_entries(m);
    let doc = match toml_parse_document(text) {
        Some(v) => v,
        None => {
            return Err(
                Error::ConfigParse { detail: "the configuration file is not valid TOML".to_owned() },
            );
        },
    };
    proof {
        assert(value_model(doc) matches TomlNode::Table(entries) && entries == m);
    }
    let username = match read_string_field(&doc, "username") {
        Ok(Some(u)) => u,
        Ok(None) => {
            return Err(missing_error("username"));
        },
        Err(e) => {
            return Err(e);
        },
    };
    let password = match read_string_field(&doc, "password") {
        Ok(Some(u)) => u,
        Ok(None) => {
            return Err(missing_error("password"));
        },
        Err(e) => {
            return Err(e);
        },
    };
    let branch = match read_string_field(&doc, "branch") {
        Ok(v) => v,
        Err(e) => {
            return Err(e);
        },
    };
    let hostname = match read_string_field(&doc, "hostname") {
        Ok(v) => v,
        Err(e) => {
            return Err(e);
        },
    };
    let ssl = match read_bool_field(&doc, "ssl") {
        Ok(v) => v,
        Err(e) => {
            return Err(e);
        },
    };
    let port = match read_port_field(&doc, "port") {
        Ok(v) => v,
        Err(e) => {
            return Err(e);
        },
    };
    let ptr = match read_bool_field(&doc, "ptr") {
        Ok(v) => v,
        Err(e) => {
            return Err(e);
        },
    };
    let file = FileConfiguration::from_parts(username, password, branch, hostname, ssl, port, ptr);
    let platform = Configuration::resolve(file);
    let mut build = default_build_configuration();
    match toml_get(&doc, "build") {
        None => {},
        Some(b) => {
            if !toml_is_table(b) {
                return Err(field_error("build", "a table"));
            }
            proof {
                assert(value_model(*b) matches TomlNode::Table(entries) && entries == bm);
            }
            match read_string_field(b, "output_wasm_file") {
                Ok(Some(v)) => {
                    build.output_wasm_file = v;
                },
                Ok(None) => {},
                Err(e) => {
                    return Err(e);
                },
            };
            match read_string_field(b, "output_js_file") {
                Ok(Some(v)) => {
                    build.output_js_file = v;
                },
                Ok(None) => {},
                Err(e) => {
                    return Err(e);
                },
            };
            match read_string_field(b, "initialization_header_file") {
                Ok(v) => {
                    build.initialization_header_file = v;
                },
                Err(e) => {
                    return Err(e);
                },
            };
            match read_u32_field(b, "shrink_level") {
                Ok(Some(v)) => {
                    build.binaryen.shrink_level = v;
                },
                Ok(None) => {},
                Err(e) => {
                    return Err(e);
                },
            };
            match read_u32_field(b, "optimization_level") {
                Ok(Some(v)) => {
                    build.binaryen.optimization_level = v;
                },
                Ok(None) => {},
                Err(e) => {
                    return Err(e);
                },
            };
            match read_bool_field(b, "debug_info") {
                Ok(Some(v)) => {
                    build.binaryen.debug_info = v;
                },
                Ok(None) => {},
                Err(e) => {
                    return Err(e);
                },
            };
        },
    };
    proof {
        assert(spec_platform_of(m, platform));
        assert(spec_build_of(bm, build));
        assert(spec_config_text_ok(text@));
    }
    Ok(ProjectConfiguration { platform, build })
}

} // verus!
