//! The build orchestration as an explicit state machine. Every outside
//! effect (running the compiler toolchain, listing a directory, reading
//! and writing files, running the optimizer) is an action handed to the
//! caller, which performs it and feeds the outcome back as an event.
//! Every decision between those effects is made here: sequencing, the
//! fatal errors, and the deliberate non-fatal fallback when the
//! optimizer rejects the binary.

use vstd::prelude::*;

use crate::artifacts::{ArtifactPair, count_with_ext, locate_artifacts};
use crate::config::{OptimizerProfile, ProjectConfiguration};
use crate::errors::{ArtifactCategory, Error};
use crate::text::extension_of;
use crate::transform::{
    transform_ok, transform_output, transform_loader, DEFAULT_INITIALIZATION_HEADER,
};

verus! {

/// The phases of one build, from idle to a terminal outcome.
#[derive(Debug)]
pub enum BuildState {
    Idle,
    Compiling,
    Locating,
    ReadingBinary { pair: ArtifactPair },
    Optimizing { js_file: String, binary: Vec<u8> },
    ReadingScript { js_file: String, out_binary: Vec<u8>, warned: bool },
    ReadingHeader { out_binary: Vec<u8>, warned: bool, script: String },
    Writing { warned: bool },
    Done { warned: bool },
    Failed { error: Error },
}

/// What the caller reports back to the machine.
#[derive(Debug)]
pub enum BuildEvent {
    Start,
    CompileFinished(Result<(), String>),
    DirectoryListed(Result<Vec<String>, String>),
    BinaryRead(Result<Vec<u8>, String>),
    OptimizeFinished(Option<Vec<u8>>),
    ScriptRead(Result<String, String>),
    HeaderRead(Result<String, String>),
    OutputsWritten(Result<(), String>),
}

/// What the caller must do next.
#[derive(Debug)]
pub enum BuildAction {
    RunCompiler,
    ListArtifactDirectory(String),
    ReadBinary(String),
    RunOptimizer { binary: Vec<u8>, profile: OptimizerProfile },
    ReadScript(String),
    ReadHeader(String),
    WriteOutputs { binary_path: String, binary: Vec<u8>, script_path: String, script: String },
    Report,
}

/// The directory the generated artifacts are discovered in.
pub open spec fn spec_artifact_directory(root: Seq<char>) -> Seq<char> {
    root + "/target/wasm32-unknown-unknown/release"@
}

/// Where the finished binary is written.
pub open spec fn spec_output_binary_path(root: Seq<char>, config: ProjectConfiguration) -> Seq<
    char,
> {
    root + "/target/"@ + config.build.output_wasm_file@
}

/// Where the finished script is written.
pub open spec fn spec_output_script_path(root: Seq<char>, config: ProjectConfiguration) -> Seq<
    char,
> {
    root + "/target/"@ + config.build.output_js_file@
}

/// One build in flight: the project root, the resolved configuration,
/// and the current phase.
#[derive(Debug)]
pub struct BuildFlow {
    pub root: String,
    pub config: ProjectConfiguration,
    pub state: BuildState,
}

impl BuildFlow {
    /// A fresh, idle build.
    pub fn new(root: String, config: ProjectConfiguration) -> (flow: BuildFlow)
        ensures
            flow.state is Idle,
            flow.root == root,
            flow.config == config,
    {
        BuildFlow { root, config, state: BuildState::Idle }
    }

    fn join_path(root: &str, tail: &str) -> (r: String)
        ensures
            r@ == root@ + tail@,
    {
        let mut r = root.to_owned();
        r.append(tail);
        r
    }

    fn output_path(root: &str, name: &str) -> (r: String)
        ensures
            r@ == root@ + "/target/"@ + name@,
    {
        let mut r = root.to_owned();
        r.append("/target/");
        r.append(name);
        proof {
            assert(r@ =~= root@ + "/target/"@ + name@);
        }
        r
    }

    fn io_failure(detail: String) -> (s: BuildState)
        ensures
            s matches BuildState::Failed { error } && error matches Error::Io {
                detail: d,
            } && d == detail,
    {
        BuildState::Failed { error: Error::Io { detail } }
    }

    /// Advances the build by one decision. Each fatal outcome moves to
    /// the terminal failed state carrying the originating error; the
    /// optimizer's rejection is the one non-fatal outcome: the original
    /// binary bytes are carried through unchanged and a warning is
    /// recorded, and the build goes on.
    pub fn step(self, event: BuildEvent) -> (r: (BuildFlow, BuildAction))
        ensures
            r.0.root == self.root,
            r.0.config == self.config,
            (match (self.state, event) {
                (BuildState::Idle, BuildEvent::Start) => r.0.state is Compiling && r.1
                    is RunCompiler,
                (BuildState::Compiling, BuildEvent::CompileFinished(res)) => (match res {
                    Ok(u) => r.0.state is Locating && (r.1
                        matches BuildAction::ListArtifactDirectory(d) && d@
                        == spec_artifact_directory(self.root@)),
                    Err(msg) => (r.0.state matches BuildState::Failed { error } && error
                        matches Error::Toolchain { detail } && detail == msg) && r.1 is Report,
                }),
                (BuildState::Locating, BuildEvent::DirectoryListed(res)) => (match res {
                    Ok(names) => {
                        if count_with_ext(names@, "wasm"@) == 1 && count_with_ext(names@, "js"@)
                            == 1 {
                            r.0.state matches BuildState::ReadingBinary { pair } && (exists|
                                iw: int,
                            |
                                0 <= iw < names@.len() && extension_of(names@[iw]@) == Some(
                                    "wasm"@,
                                ) && pair.wasm_file@ == spec_artifact_directory(self.root@) + "/"@
                                    + names@[iw]@) && (exists|ij: int|
                                0 <= ij < names@.len() && extension_of(names@[ij]@) == Some("js"@)
                                    && pair.js_file@ == spec_artifact_directory(self.root@) + "/"@
                                    + names@[ij]@) && (r.1 matches BuildAction::ReadBinary(p) && p
                                == pair.wasm_file)
                        } else {
                            (r.0.state matches BuildState::Failed { error } && (error
                                matches Error::ArtifactDiscovery { directory, category, multiple }
                                && directory@ == spec_artifact_directory(self.root@) && (
                            match category {
                                ArtifactCategory::BinaryModule => count_with_ext(names@, "wasm"@)
                                    != 1 && multiple == (count_with_ext(names@, "wasm"@) >= 2),
                                ArtifactCategory::LoaderScript => count_with_ext(names@, "wasm"@)
                                    == 1 && count_with_ext(names@, "js"@) != 1 && multiple == (
                                count_with_ext(names@, "js"@) >= 2),
                            }))) && r.1 is Report
                        }
                    },
                    Err(msg) => (r.0.state matches BuildState::Failed { error } && error is Io)
                        && r.1 is Report,
                }),
                (BuildState::ReadingBinary { pair }, BuildEvent::BinaryRead(res)) => (match res {
                    Ok(bytes) => (r.0.state matches BuildState::Optimizing { js_file, binary }
                        && js_file == pair.js_file && binary == bytes) && (r.1
                        matches BuildAction::RunOptimizer { binary: b, profile } && b@ == bytes@
                        && profile == self.config.build.binaryen),
                    Err(msg) => (r.0.state matches BuildState::Failed { error } && error is Io)
                        && r.1 is Report,
                }),
                (
                    BuildState::Optimizing { js_file, binary },
                    BuildEvent::OptimizeFinished(opt),
                ) => (match opt {
                    Some(optimized) => (r.0.state matches BuildState::ReadingScript {
                        js_file: j,
                        out_binary,
                        warned,
                    } && j == js_file && out_binary@ == optimized@ && warned == false) && (r.1
                        matches BuildAction::ReadScript(p) && p == js_file),
                    None => (r.0.state matches BuildState::ReadingScript {
                        js_file: j,
                        out_binary,
                        warned,
                    } && j == js_file && out_binary@ == binary@ && warned == true) && (r.1
                        matches BuildAction::ReadScript(p) && p == js_file),
                }),
                (
                    BuildState::ReadingScript { js_file, out_binary, warned },
                    BuildEvent::ScriptRead(res),
                ) => (match res {
                    Ok(script) => (match self.config.build.initialization_header_file {
                        Some(h) => (r.0.state matches BuildState::ReadingHeader {
                            out_binary: b,
                            warned: w,
                            script: sc,
                        } && b == out_binary && w == warned && sc == script) && (r.1
                            matches BuildAction::ReadHeader(p) && p@ == self.root@ + "/"@ + h@),
                        None => (if transform_ok(script@, self.config.build.output_wasm_file@) {
                            (r.0.state matches BuildState::Writing { warned: w } && w == warned)
                                && (r.1 matches BuildAction::WriteOutputs {
                                binary_path,
                                binary,
                                script_path,
                                script: out_script,
                            } && binary_path@ == spec_output_binary_path(self.root@, self.config)
                                && binary == out_binary && script_path@
                                == spec_output_script_path(self.root@, self.config) && out_script@
                                == transform_output(
                                script@,
                                self.config.build.output_wasm_file@,
                                DEFAULT_INITIALIZATION_HEADER@,
                            ))
                        } else {
                            (r.0.state matches BuildState::Failed { error } && (error
                                is LoaderShapeMismatch || error is InvalidModuleName)) && r.1
                                is Report
                        }),
                    }),
                    Err(msg) => (r.0.state matches BuildState::Failed { error } && error is Io)
                        && r.1 is Report,
                }),
                (
                    BuildState::ReadingHeader { out_binary, warned, script },
                    BuildEvent::HeaderRead(res),
                ) => (match res {
                    Ok(header) => (if transform_ok(
                        script@,
                        self.config.build.output_wasm_file@,
                    ) {
                        (r.0.state matches BuildState::Writing { warned: w } && w == warned) && (
                        r.1 matches BuildAction::WriteOutputs {
                            binary_path,
                            binary,
                            script_path,
                            script: out_script,
                        } && binary_path@ == spec_output_binary_path(self.root@, self.config)
                            && binary == out_binary && script_path@ == spec_output_script_path(
                            self.root@,
                            self.config,
                        ) && out_script@ == transform_output(
                            script@,
                            self.config.build.output_wasm_file@,
                            header@,
                        ))
                    } else {
                        (r.0.state matches BuildState::Failed { error } && (error
                            is LoaderShapeMismatch || error is InvalidModuleName)) && r.1
                            is Report
                    }),
                    Err(msg) => (r.0.state matches BuildState::Failed { error } && error is Io)
                        && r.1 is Report,
                }),
                (BuildState::Writing { warned }, BuildEvent::OutputsWritten(res)) => (match res {
                    Ok(u) => (r.0.state matches BuildState::Done { warned: w } && w == warned)
                        && r.1 is Report,
                    Err(msg) => (r.0.state matches BuildState::Failed { error } && error is Io)
                        && r.1 is Report,
                }),
                _ => (r.0.state matches BuildState::Failed { error } && error is Io) && r.1
                    is Report,
            }),
    {
        let BuildFlow { root, config, state } = self;
        let (state, action): (BuildState, BuildAction) = match (state, event) {
            (BuildState::Idle, BuildEvent::Start) => (
                BuildState::Compiling,
                BuildAction::RunCompiler,
            ),
            (BuildState::Compiling, BuildEvent::CompileFinished(res)) => match res {
                Ok(_) => {
                    let dir = Self::join_path(
                        root.as_str(),
                        "/target/wasm32-unknown-unknown/release",
                    );
                    (BuildState::Locating, BuildAction::ListArtifactDirectory(dir))
                },
                Err(msg) => (
                    BuildState::Failed { error: Error::Toolchain { detail: msg } },
                    BuildAction::Report,
                ),
            },
            (BuildState::Locating, BuildEvent::DirectoryListed(res)) => match res {
                Ok(names) => {
                    let dir = Self::join_path(
                        root.as_str(),
                        "/target/wasm32-unknown-unknown/release",
                    );
                    proof {
                        assert(dir@ == spec_artifact_directory(root@));
                    }
                    match locate_artifacts(dir.as_str(), &names) {
                        Ok(pair) => {
                            proof {
                                let iw = choose|iw: int|
                                    0 <= iw < names@.len() && extension_of(names@[iw]@) == Some(
                                        "wasm"@,
                                    ) && pair.wasm_file@ == dir@ + "/"@ + names@[iw]@;
                                assert(0 <= iw < names@.len() && extension_of(names@[iw]@) == Some(
                                    "wasm"@,
                                ) && pair.wasm_file@ == spec_artifact_directory(root@) + "/"@
                                    + names@[iw]@);
                                let ij = choose|ij: int|
                                    0 <= ij < names@.len() && extension_of(names@[ij]@) == Some(
                                        "js"@,
                                    ) && pair.js_file@ == dir@ + "/"@ + names@[ij]@;
                                assert(0 <= ij < names@.len() && extension_of(names@[ij]@) == Some(
                                    "js"@,
                                ) && pair.js_file@ == spec_artifact_directory(root@) + "/"@
                                    + names@[ij]@);
                            }
                            let path = pair.wasm_file.clone();
                            (
                                BuildState::ReadingBinary { pair },
                                BuildAction::ReadBinary(path),
                            )
                        },
                        Err(e) => (BuildState::Failed { error: e }, BuildAction::Report),
                    }
                },
                Err(msg) => (Self::io_failure(msg), BuildAction::Report),
            },
            (BuildState::ReadingBinary { pair }, BuildEvent::BinaryRead(res)) => match res {
                Ok(bytes) => {
                    let b2 = clone_bytes(&bytes);
                    (
                        BuildState::Optimizing { js_file: pair.js_file, binary: bytes },
                        BuildAction::RunOptimizer {
                            binary: b2,
                            profile: OptimizerProfile {
                                shrink_level: config.build.binaryen.shrink_level,
                                optimization_level: config.build.binaryen.optimization_level,
                                debug_info: config.build.binaryen.debug_info,
                            },
                        },
                    )
                },
                Err(msg) => (Self::io_failure(msg), BuildAction::Report),
            },
            (BuildState::Optimizing { js_file, binary }, BuildEvent::OptimizeFinished(opt)) => {
                let (out_binary, warned) = crate::optimizer::choose_binary_output(binary, opt);
                let path = js_file.clone();
                (
                    BuildState::ReadingScript { js_file, out_binary, warned },
                    BuildAction::ReadScript(path),
                )
            },
            (
                BuildState::ReadingScript { js_file, out_binary, warned },
                BuildEvent::ScriptRead(res),
            ) => match res {
                Ok(script) => match &config.build.initialization_header_file {
                    Some(h) => {
                        let mut p = Self::join_path(root.as_str(), "/");
                        p.append(h.as_str());
                        (
                            BuildState::ReadingHeader { out_binary, warned, script },
                            BuildAction::ReadHeader(p),
                        )
                    },
                    None => Self::finish_transform(
                        root.as_str(),
                        &config,
                        out_binary,
                        warned,
                        script.as_str(),
                        DEFAULT_INITIALIZATION_HEADER,
                    ),
                },
                Err(msg) => (Self::io_failure(msg), BuildAction::Report),
            },
            (
                BuildState::ReadingHeader { out_binary, warned, script },
                BuildEvent::HeaderRead(res),
            ) => match res {
                Ok(header) => Self::finish_transform(
                    root.as_str(),
                    &config,
                    out_binary,
                    warned,
                    script.as_str(),
                    header.as_str(),
                ),
                Err(msg) => (Self::io_failure(msg), BuildAction::Report),
            },
            (BuildState::Writing { warned }, BuildEvent::OutputsWritten(res)) => match res {
                Ok(_) => (BuildState::Done { warned }, BuildAction::Report),
                Err(msg) => (Self::io_failure(msg), BuildAction::Report),
            },
            (_, _) => (
                BuildState::Failed {
                    error: Error::Io { detail: "unexpected build event".to_owned() },
                },
                BuildAction::Report,
            ),
        };
        (BuildFlow { root, config, state }, action)
    }

    /// Runs the loader transformation and decides between writing the
    /// outputs and failing with the transformation's error.
    fn finish_transform(
        root: &str,
        config: &ProjectConfiguration,
        out_binary: Vec<u8>,
        warned: bool,
        script: &str,
        header: &str,
    ) -> (r: (BuildState, BuildAction))
        ensures
            transform_ok(script@, config.build.output_wasm_file@) ==> (r.0
                matches BuildState::Writing { warned: w } && w == warned) && (r.1
                matches BuildAction::WriteOutputs {
                binary_path,
                binary,
                script_path,
                script: out_script,
            } && binary_path@ == spec_output_binary_path(root@, *config) && binary == out_binary
                && script_path@ == spec_output_script_path(root@, *config) && out_script@
                == transform_output(script@, config.build.output_wasm_file@, header@)),
            !transform_ok(script@, config.build.output_wasm_file@) ==> (r.0
                matches BuildState::Failed { error } && (error is LoaderShapeMismatch || error
                is InvalidModuleName)) && r.1 is Report,
    {
        match transform_loader(script, config.build.output_wasm_file.as_str(), header) {
            Ok(out_script) => {
                let binary_path = Self::output_path(root, config.build.output_wasm_file.as_str());
                let script_path = Self::output_path(root, config.build.output_js_file.as_str());
                (
                    BuildState::Writing { warned },
                    BuildAction::WriteOutputs {
                        binary_path,
                        binary: out_binary,
                        script_path,
                        script: out_script,
                    },
                )
            },
            Err(e) => (BuildState::Failed { error: e }, BuildAction::Report),
        }
    }
}

/// A fresh copy of the given bytes.
fn clone_bytes(bytes: &Vec<u8>) -> (r: Vec<u8>)
    ensures
        r@ == bytes@,
{
    let mut r: Vec<u8> = Vec::new();
    let mut i: usize = 0;
    while i < bytes.len()
        invariant
            i <= bytes@.len(),
            r@ == bytes@.take(i as int),
        decreases bytes@.len() - i,
    {
        r.push(bytes[i]);
        proof {
            assert(bytes@.take(i + 1 as int) =~= bytes@.take(i as int).push(bytes@[i as int]));
        }
        i = i + 1;
    }
    proof {
        assert(bytes@.take(bytes@.len() as int) =~= bytes@);
    }
    r
}

} // verus!
