use vstd::prelude::*;

use crate::errors::LaunchError;

verus! {

/// The error type that `tar::Archive::unpack` reports; opaque here, since
/// only its presence matters.
#[verifier::external_type_specification]
#[verifier::external_body]
pub struct ExIoError(std::io::Error);

/// Relies on `tar::Archive::unpack`: unpacks the archive's entries under
/// the given directory, creating it first if needed, with each entry's
/// path and permissions kept relative to it. The outcome depends on the
/// state of the filesystem as well as on the bytes, so nothing is promised
/// beyond the error report itself.
#[verifier::external_body]
fn unpack_archive(tar_bytes: &Vec<u8>, dir_path: &String) -> (r: Result<(), std::io::Error>)
{
    tar::Archive::new(tar_bytes.as_slice()).unpack(dir_path.as_str())
}

/// Unpacks the runner root filesystem archive into the given directory.
///
/// Any archive-read or filesystem-write failure during unpacking is
/// reported as `ExtractionFailure`. Entries already present at the
/// destination are overwritten per archive entry precedence (last entry
/// wins); unpacked content is not validated beyond what the archive format
/// itself guarantees.
pub fn extract_runner_root_into(tar_bytes: &Vec<u8>, dir_path: &String) -> (r: Result<
    (),
    LaunchError,
>)
    ensures
        r matches Err(e) ==> e == LaunchError::ExtractionFailure,
{
    match unpack_archive(tar_bytes, dir_path) {
        Ok(u) => Ok(u),
        Err(_) => Err(LaunchError::ExtractionFailure),
    }
}

} // verus!
