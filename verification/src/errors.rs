//! The pipeline's error taxonomy. Every failure the pipeline can report is
//! one of these variants; all of them are fatal except `OptimizerParse`,
//! which the orchestrator recovers from by falling back to the unoptimized
//! binary.

use vstd::prelude::*;

verus! {

/// Which of the two artifact categories a discovery failure concerns.
#[derive(Debug)]
pub enum ArtifactCategory {
    BinaryModule,
    LoaderScript,
}

/// Which of the two scaffold anchors failed to match the loader script.
#[derive(Debug)]
pub enum AnchorKind {
    Prefix,
    Suffix,
}

/// Every error the pipeline can report.
#[derive(Debug)]
pub enum Error {
    /// The configuration file is absent from the project root.
    ConfigMissing { root: String },
    /// The configuration file is malformed or misses a required field.
    ConfigParse { detail: String },
    /// The compiler toolchain invocation failed; always fatal.
    Toolchain { detail: String },
    /// The output directory held zero or several candidates of a category.
    ArtifactDiscovery { directory: String, category: ArtifactCategory, multiple: bool },
    /// The optimizer rejected the binary module; recovered by fallback.
    OptimizerParse,
    /// The loader script does not carry the expected scaffold anchor.
    LoaderShapeMismatch { anchor: AnchorKind },
    /// The configured output binary filename yields no usable module name.
    InvalidModuleName { file_name: String },
    /// A file read or write failed.
    Io { detail: String },
}

/// The user-facing text of each error.
pub open spec fn spec_message(e: Error) -> Seq<char> {
    match e {
        Error::ConfigMissing { root } => "expected screeps.toml to exist in "@ + root@,
        Error::ConfigParse { detail } => "error parsing configuration: "@ + detail@,
        Error::Toolchain { detail } => "compiler toolchain invocation failed: "@ + detail@,
        Error::ArtifactDiscovery { directory, category, multiple } => "error: "@ + (
        if multiple {
            "multiple "@
        } else {
            "no "@
        }) + (match category {
            ArtifactCategory::BinaryModule => "wasm"@,
            ArtifactCategory::LoaderScript => "js"@,
        }) + " files found in "@ + directory@,
        Error::OptimizerParse => "the optimizer found the compiled module to be invalid"@,
        Error::LoaderShapeMismatch { anchor } => (match anchor {
            AnchorKind::Prefix => "the generated loader begins with an unexpected prefix; the upstream generator's output format has likely changed incompatibly, please report this drift upstream"@,
            AnchorKind::Suffix => "the generated loader ends with an unexpected suffix; the upstream generator's output format has likely changed incompatibly, please report this drift upstream"@,
        }),
        Error::InvalidModuleName { file_name } => "expected output_wasm_file ending in a filename, but found "@ + file_name@,
        Error::Io { detail } => "i/o failure: "@ + detail@,
    }
}

impl Error {
    /// Renders the user-facing message for this error.
    pub fn message(&self) -> (m: String)
        ensures
            m@ == spec_message(*self),
    {
        match self {
            Error::ConfigMissing { root } => {
                let mut m = "expected screeps.toml to exist in ".to_owned();
                m.append(root.as_str());
                m
            },
            Error::ConfigParse { detail } => {
                let mut m = "error parsing configuration: ".to_owned();
                m.append(detail.as_str());
                m
            },
            Error::Toolchain { detail } => {
                let mut m = "compiler toolchain invocation failed: ".to_owned();
                m.append(detail.as_str());
                m
            },
            Error::ArtifactDiscovery { directory, category, multiple } => {
                let mut m = "error: ".to_owned();
                if *multiple {
                    m.append("multiple ");
                } else {
                    m.append("no ");
                }
                match category {
                    ArtifactCategory::BinaryModule => m.append("wasm"),
                    ArtifactCategory::LoaderScript => m.append("js"),
                }
                m.append(" files found in ");
                m.append(directory.as_str());
                m
            },
            Error::OptimizerParse => {
                "the optimizer found the compiled module to be invalid".to_owned()
            },
            Error::LoaderShapeMismatch { anchor } => {
                match anchor {
                    AnchorKind::Prefix => "the generated loader begins with an unexpected prefix; the upstream generator's output format has likely changed incompatibly, please report this drift upstream".to_owned(),
                    AnchorKind::Suffix => "the generated loader ends with an unexpected suffix; the upstream generator's output format has likely changed incompatibly, please report this drift upstream".to_owned(),
                }
            },
            Error::InvalidModuleName { file_name } => {
                let mut m = "expected output_wasm_file ending in a filename, but found ".to_owned();
                m.append(file_name.as_str());
                m
            },
            Error::Io { detail } => {
                let mut m = "i/o failure: ".to_owned();
                m.append(detail.as_str());
                m
            },
        }
    }
}

} // verus!
