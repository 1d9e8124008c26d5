//! Errors reported by the provisioning engine.

use vstd::prelude::*;

use crate::text::{decimal, usize_to_string};

verus! {

/// One malformed line of a requirements list.
pub struct LineError {
    /// 1-based number of the line.
    pub line_no: usize,
    /// What the parser said about it.
    pub message: String,
}

/// Every failure the engine can report.
pub enum ProvisionError {
    /// The embedded configuration document is structurally invalid.
    Config(String),
    /// The host OS version could not be read.
    PlatformDetection(String),
    /// No interpreter distribution is configured for the version tag.
    NotFound(String),
    /// Some requirement lines did not parse; one entry per bad line.
    RequirementParse(Vec<LineError>),
    /// No mirror offers a compatible artifact for the package.
    Resolution(String),
    /// Fetching the artifact at this requirement index failed.
    Download { index: usize, message: String },
    /// A downloaded artifact does not carry the expected checksum.
    Integrity { expected: String, actual: String },
    /// The offline package manager exited with failure; its output streams.
    Install { stdout: String, stderr: String },
    /// A post-install patch could not be applied.
    Patch { file: String, cause: String },
}

/// One text line per malformed requirement line, each after a line break.
pub open spec fn line_errors_text(errs: Seq<LineError>) -> Seq<char>
    decreases errs.len(),
{
    if errs.len() == 0 {
        seq![]
    } else {
        line_errors_text(errs.drop_last()) + "\nLine "@ + decimal(errs.last().line_no as nat) + ": "@
            + errs.last().message@
    }
}

/// The human-readable text of an error.
pub open spec fn spec_message(e: ProvisionError) -> Seq<char> {
    match e {
        ProvisionError::Config(m) => "invalid configuration: "@ + m@,
        ProvisionError::PlatformDetection(m) => "failed to read the platform information: "@ + m@,
        ProvisionError::NotFound(tag) => "no download information for Python "@ + tag@
            + " in the installer configuration"@,
        ProvisionError::RequirementParse(errs) => "errors in parsing requirements file: "@
            + line_errors_text(errs@),
        ProvisionError::Resolution(package) => "no compatible artifact for "@ + package@
            + " on any mirror"@,
        ProvisionError::Download { message, .. } => message@,
        ProvisionError::Integrity { expected, actual } => "checksum mismatch: expected "@
            + expected@ + ", got "@ + actual@,
        ProvisionError::Install { stdout, stderr } => "package installation failed\nSTDOUT:\n"@
            + stdout@ + "\nSTDERR:\n"@ + stderr@,
        ProvisionError::Patch { file, cause } => "failed to patch "@ + file@ + ": "@ + cause@,
    }
}

fn line_errors_message(errs: &Vec<LineError>) -> (r: String)
    ensures
        r@ == line_errors_text(errs@),
{
    let mut r = String::new();
    let mut i: usize = 0;
    while i < errs.len()
        invariant
            i <= errs.len(),
            r@ == line_errors_text(errs@.take(i as int)),
        decreases errs.len() - i,
    {
        assert(errs@.take(i + 1).drop_last() =~= errs@.take(i as int));
        r.append("\nLine ");
        let no = usize_to_string(errs[i].line_no);
        r.append(no.as_str());
        r.append(": ");
        r.append(errs[i].message.as_str());
        i = i + 1;
    }
    assert(errs@.take(errs.len() as int) =~= errs@);
    r
}

impl ProvisionError {
    /// The error as text for the user.
    pub fn message(&self) -> (r: String)
        ensures
            r@ == spec_message(*self),
    {
        match self {
            ProvisionError::Config(m) => String::from_str("invalid configuration: ").concat(m.as_str()),
            ProvisionError::PlatformDetection(m) => String::from_str(
                "failed to read the platform information: ",
            ).concat(m.as_str()),
            ProvisionError::NotFound(tag) => String::from_str("no download information for Python ").concat(
                tag.as_str(),
            ).concat(" in the installer configuration"),
            ProvisionError::RequirementParse(errs) => String::from_str(
                "errors in parsing requirements file: ",
            ).concat(line_errors_message(errs).as_str()),
            ProvisionError::Resolution(package) => String::from_str("no compatible artifact for ").concat(
                package.as_str(),
            ).concat(" on any mirror"),
            ProvisionError::Download { message, .. } => message.clone(),
            ProvisionError::Integrity { expected, actual } => String::from_str(
                "checksum mismatch: expected ",
            ).concat(expected.as_str()).concat(", got ").concat(actual.as_str()),
            ProvisionError::Install { stdout, stderr } => String::from_str(
                "package installation failed\nSTDOUT:\n",
            ).concat(stdout.as_str()).concat("\nSTDERR:\n").concat(stderr.as_str()),
            ProvisionError::Patch { file, cause } => String::from_str("failed to patch ").concat(
                file.as_str(),
            ).concat(": ").concat(cause.as_str()),
        }
    }
}

} // verus!
