//! The error taxonomy for target-triple handling and child-process runs,
//! and the diagnostic lines reported for a rejected triple.

use vstd::prelude::*;
use vstd::string::*;

use crate::text::{split_dash, split_dash_str};

verus! {

/// Why a raw target-triple string was rejected.
///
/// Parsing aborts at the first field that fails to match its vocabulary, so
/// each `Unrecognized*` variant carries exactly the offending token.
#[derive(Debug, PartialEq, Eq)]
pub enum TripleError {
    /// The input did not have the `arch-os` or `arch-os-abi` shape.
    IncorrectTripleFormat,
    /// The architecture token is not in the recognized vocabulary.
    UnrecognizedArchitecture(String),
    /// The operating-system token is not in the recognized vocabulary.
    UnrecognizedOS(String),
    /// The ABI token is not in the recognized vocabulary.
    UnrecognizedAbi(String),
    /// Every field parsed, but the combination is not on the allow-list.
    DisallowedTriple,
}

/// The diagnostic lines reported for a rejected raw triple: they name
/// exactly the offending token, and a format error on a 4-piece input
/// additionally explains that this shape is the other ecosystem's
/// vendor-qualified convention and which shapes are accepted instead.
pub open spec fn spec_diagnostic_lines(raw: Seq<char>, e: TripleError) -> Seq<Seq<char>> {
    match e {
        TripleError::IncorrectTripleFormat => {
            let pieces = split_dash(raw);
            if pieces.len() == 4 {
                seq![
                    "The bootstrapper expects a target triple in the form of arch-os-abi or arch-os."@,
                    "The presence of '"@ + pieces[1] + "' in '"@ + raw
                        + "' implies usage of the rustup format."@,
                    "Please use the zig style triple."@,
                    "The bootstrapper will handle translation for rust."@,
                ]
            } else {
                seq!["target '"@ + raw + "' must have at least an arch and OS tag."@]
            }
        },
        TripleError::UnrecognizedArchitecture(t) => seq!["Unrecognized Arch in triple: "@ + t@],
        TripleError::UnrecognizedOS(t) => seq![
            "Unrecognized OS in triple: "@ + t@,
            "Ensure you are using the zig naming convention (e.g. macos) rather than the rustup naming convention (e.g. apple)."@,
        ],
        TripleError::UnrecognizedAbi(t) => seq![
            "Unrecognized abi in triple: "@ + t@,
            "Ensure you are using the zig naming convention (e.g. none) rather than the rustup naming convention (e.g. darwin)."@,
        ],
        TripleError::DisallowedTriple => seq!["Valid but disallowed triple encountered: "@ + raw],
    }
}

impl TripleError {
    /// Build the diagnostic lines for this error on the given raw input.
    pub fn diagnostic_lines(&self, raw: &str) -> (lines: Vec<String>)
        ensures
            lines.deep_view() == spec_diagnostic_lines(raw@, *self),
    {
        let mut lines: Vec<String> = Vec::new();
        match self {
            TripleError::IncorrectTripleFormat => {
                let pieces = split_dash_str(raw);
                if pieces.len() == 4 {
                    proof {
                        assert(pieces.deep_view()[1] == pieces@[1]@);
                    }
                    lines.push(
                        String::from_str(
                            "The bootstrapper expects a target triple in the form of arch-os-abi or arch-os.",
                        ),
                    );
                    let mut second = String::from_str("The presence of '");
                    second.append(pieces[1].as_str());
                    second.append("' in '");
                    second.append(raw);
                    second.append("' implies usage of the rustup format.");
                    lines.push(second);
                    lines.push(String::from_str("Please use the zig style triple."));
                    lines.push(
                        String::from_str("The bootstrapper will handle translation for rust."),
                    );
                } else {
                    let mut only = String::from_str("target '");
                    only.append(raw);
                    only.append("' must have at least an arch and OS tag.");
                    lines.push(only);
                }
            },
            TripleError::UnrecognizedArchitecture(t) => {
                let mut first = String::from_str("Unrecognized Arch in triple: ");
                first.append(t.as_str());
                lines.push(first);
            },
            TripleError::UnrecognizedOS(t) => {
                let mut first = String::from_str("Unrecognized OS in triple: ");
                first.append(t.as_str());
                lines.push(first);
                lines.push(
                    String::from_str(
                        "Ensure you are using the zig naming convention (e.g. macos) rather than the rustup naming convention (e.g. apple).",
                    ),
                );
            },
            TripleError::UnrecognizedAbi(t) => {
                let mut first = String::from_str("Unrecognized abi in triple: ");
                first.append(t.as_str());
                lines.push(first);
                lines.push(
                    String::from_str(
                        "Ensure you are using the zig naming convention (e.g. none) rather than the rustup naming convention (e.g. darwin).",
                    ),
                );
            },
            TripleError::DisallowedTriple => {
                let mut only = String::from_str("Valid but disallowed triple encountered: ");
                only.append(raw);
                lines.push(only);
            },
        }
        proof {
            assert(lines.deep_view() =~= spec_diagnostic_lines(raw@, *self));
        }
        lines
    }
}

/// Why a whole bootstrap run failed.
#[derive(Debug, PartialEq, Eq)]
pub enum BuildError {
    /// The target triple was rejected before any process was spawned.
    Triple(TripleError),
    /// The operating system could not start the child process at all.
    ChildSpawnFailure,
    /// The child process ran and exited with a non-zero code, or was
    /// terminated abnormally (recorded as the generic fallback code 1).
    ChildProcessFailure(i32),
}

} // verus!
