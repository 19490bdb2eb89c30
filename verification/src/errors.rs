use vstd::prelude::*;

verus! {

/// Every way the launch sequence can fail.
///
/// Each failure is surfaced immediately to the caller; nothing here is
/// recovered from or retried.
#[derive(Clone, Copy, Debug, PartialEq, Eq, Structural)]
pub enum LaunchError {
    /// No regular file was found across the scanned directories.
    NotFound,
    /// Two or more regular files were found across the scanned directories.
    AmbiguousMatch,
    /// Reading a directory, or one of its entries, failed.
    IoFailure,
    /// An external tool exited with a non-zero status.
    ExternalToolFailure,
    /// The inspection tool's output could not be parsed, or lacked the
    /// required field.
    MalformedOutput,
    /// Unpacking the runner root filesystem archive failed.
    ExtractionFailure,
    /// The container runtime exited with a non-zero status.
    RuntimeFailure,
}

impl LaunchError {
    /// A human-readable description of the failure.
    pub fn message(&self) -> (r: &'static str)
        ensures
            r@ == self.message_spec(),
    {
        match self {
            LaunchError::NotFound => "no files found",
            LaunchError::AmbiguousMatch => "more than one file found",
            LaunchError::IoFailure => "directory read failed",
            LaunchError::ExternalToolFailure => "qemu-img failed",
            LaunchError::MalformedOutput => "unexpected qemu-img output",
            LaunchError::ExtractionFailure => "extracting runner root failed",
            LaunchError::RuntimeFailure => "crun failed",
        }
    }

    pub open spec fn message_spec(&self) -> Seq<char> {
        match self {
            LaunchError::NotFound => "no files found"@,
            LaunchError::AmbiguousMatch => "more than one file found"@,
            LaunchError::IoFailure => "directory read failed"@,
            LaunchError::ExternalToolFailure => "qemu-img failed"@,
            LaunchError::MalformedOutput => "unexpected qemu-img output"@,
            LaunchError::ExtractionFailure => "extracting runner root failed"@,
            LaunchError::RuntimeFailure => "crun failed"@,
        }
    }
}

} // verus!
