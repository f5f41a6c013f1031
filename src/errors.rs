//! Error kinds of the service and the payload of a failed subprocess.
use vstd::prelude::*;
use vstd::string::*;

verus! {

/// What went wrong, by stage of the pipeline.
#[derive(Clone, Copy, Debug, PartialEq, Eq, Structural)]
pub enum OBSCargoErrorKind {
    AuditNeedsAction,
    VendorCompressionFailed,
    VendorError,
    AuditError,
    LockFileError,
    ManifestNotParseable,
    ManifestNotFound,
    InternalInvariantBroken,
}

/// The human-readable phrase of each error kind.
pub open spec fn kind_text(kind: OBSCargoErrorKind) -> Seq<char> {
    match kind {
        OBSCargoErrorKind::AuditError => "cargo audit process failed"@,
        OBSCargoErrorKind::AuditNeedsAction => "security audit is actionable"@,
        OBSCargoErrorKind::VendorError => "cargo vendor process failed"@,
        OBSCargoErrorKind::VendorCompressionFailed => "compress vendored dependencies failed"@,
        OBSCargoErrorKind::LockFileError => "lockfile generation failed"@,
        OBSCargoErrorKind::ManifestNotParseable => "manifest is not a valid TOML document"@,
        OBSCargoErrorKind::ManifestNotFound => "no manifest was found"@,
        OBSCargoErrorKind::InternalInvariantBroken => "internal invariant broken"@,
    }
}

impl OBSCargoErrorKind {
    pub fn as_str(self) -> (r: &'static str)
        ensures
            r@ == kind_text(self),
    {
        match self {
            OBSCargoErrorKind::AuditError => "cargo audit process failed",
            OBSCargoErrorKind::AuditNeedsAction => "security audit is actionable",
            OBSCargoErrorKind::VendorError => "cargo vendor process failed",
            OBSCargoErrorKind::VendorCompressionFailed => "compress vendored dependencies failed",
            OBSCargoErrorKind::LockFileError => "lockfile generation failed",
            OBSCargoErrorKind::ManifestNotParseable => "manifest is not a valid TOML document",
            OBSCargoErrorKind::ManifestNotFound => "no manifest was found",
            OBSCargoErrorKind::InternalInvariantBroken => "internal invariant broken",
        }
    }
}

/// An error of the service: its kind and a message for the operator.
#[derive(Clone, Debug)]
pub struct OBSCargoError {
    pub kind: OBSCargoErrorKind,
    pub message: String,
}

impl OBSCargoError {
    pub fn new(kind: OBSCargoErrorKind, message: String) -> (r: OBSCargoError)
        ensures
            r.kind == kind,
            r.message@ == message@,
    {
        OBSCargoError { kind, message }
    }

    /// `kind: <phrase>\nreason: <message>`.
    pub fn describe(&self) -> (r: String)
        ensures
            r@ == "kind: "@ + kind_text(self.kind) + "\nreason: "@ + self.message@,
    {
        let mut r = String::from_str("kind: ");
        r.append(self.kind.as_str());
        r.append("\nreason: ");
        r.append(self.message.as_str());
        r
    }
}

/// A subprocess that exited unsuccessfully, with what it printed.
#[derive(Clone, Debug)]
pub struct ExecutionError {
    pub command: String,
    pub exit_code: Option<i32>,
    pub stdoutput: String,
}

impl ExecutionError {
    /// The exit code to report: the process's own, or -1 where it had none.
    pub fn reported_code(&self) -> (r: i32)
        ensures
            r == match self.exit_code {
                Some(c) => c as int,
                None => -1,
            },
    {
        match self.exit_code {
            Some(c) => c,
            None => -1,
        }
    }

    /// Turns the failure into a service error whose message keeps the command
    /// and the captured output.
    pub fn into_vendor_error(self) -> (r: OBSCargoError)
        ensures
            r.kind == OBSCargoErrorKind::VendorError,
            r.message@ == "command `"@ + self.command@ + "` failed: "@ + self.stdoutput@,
    {
        let mut m = String::from_str("command `");
        m.append(self.command.as_str());
        m.append("` failed: ");
        m.append(self.stdoutput.as_str());
        OBSCargoError::new(OBSCargoErrorKind::VendorError, m)
    }
}

} // verus!
