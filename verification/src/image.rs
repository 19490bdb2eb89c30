use vstd::prelude::*;

use crate::command::{CommandPlan, ToolOutcome};
use crate::errors::LaunchError;

verus! {

/// The top-level string field `"format"` of the given bytes read as a JSON
/// document, or `None` when the bytes are not such a document or its top
/// level holds no string under that key. The value is determined by the
/// bytes alone.
pub uninterp spec fn json_format_field(bytes: Seq<u8>) -> Option<Seq<char>>;

/// Relies on `serde_json::from_slice` and `serde_json::Value::{get, as_str}`:
/// parsing bytes as JSON and reading the top-level string field `"format"`
/// is a function of the bytes alone, and yields a string exactly when the
/// bytes form a JSON document whose top level maps `"format"` to a string.
#[verifier::external_body]
fn parse_format_field(bytes: &Vec<u8>) -> (r: Option<String>)
    ensures
        match r {
            Some(s) => json_format_field(bytes@) == Some(s@),
            None => json_format_field(bytes@) is None,
        },
{
    let value: serde_json::Value = match serde_json::from_slice(bytes.as_slice()) {
        Ok(v) => v,
        Err(_) => return None,
    };
    match value.get("format") {
        Some(f) => match f.as_str() {
            Some(s) => Some(s.to_owned()),
            None => None,
        },
        None => None,
    }
}

/// The inspection invocation for the given image:
/// `qemu-img info --output=json <image_path>`, standard output captured.
pub fn get_image_format_command(image_path: &String) -> (c: CommandPlan)
    ensures
        c.program@ == "qemu-img"@,
        c.args@.len() == 3,
        c.args@[0]@ == "info"@,
        c.args@[1]@ == "--output=json"@,
        c.args@[2]@ == image_path@,
        c.capture_stdout,
{
    let mut args: Vec<String> = Vec::new();
    args.push("info".to_owned());
    args.push("--output=json".to_owned());
    args.push(image_path.clone());
    CommandPlan { program: "qemu-img".to_owned(), args, capture_stdout: true }
}

/// The backing image's format identifier, read out of the inspection
/// tool's outcome. A non-zero exit is `ExternalToolFailure` (standard
/// error is not interpreted); output that is not a JSON document with a
/// top-level string field `"format"` is `MalformedOutput`; otherwise the
/// field's value is returned.
pub fn get_image_format(outcome: &ToolOutcome) -> (r: Result<String, LaunchError>)
    ensures
        !outcome.success ==> r == Err::<String, LaunchError>(LaunchError::ExternalToolFailure),
        outcome.success && json_format_field(outcome.stdout@) is None ==> r == Err::<
            String,
            LaunchError,
        >(LaunchError::MalformedOutput),
        outcome.success ==> (json_format_field(outcome.stdout@) matches Some(f) ==> (r matches Ok(
            s,
        ) && s@ == f)),
{
    if !outcome.success {
        return Err(LaunchError::ExternalToolFailure);
    }
    match parse_format_field(&outcome.stdout) {
        Some(s) => Ok(s),
        None => Err(LaunchError::MalformedOutput),
    }
}

/// The creation invocation for a copy-on-write overlay:
/// `qemu-img create -q -f qcow2 -F <backing_format> -b <backing_image_path>
/// <overlay_image_path>`, streams inherited. The new image's format is
/// always declared as `qcow2`; the backing format is declared explicitly to
/// rule out auto-detection by the tool.
pub fn create_overlay_image_command(
    overlay_image_path: &String,
    backing_image_path: &String,
    backing_format: &String,
) -> (c: CommandPlan)
    ensures
        c.program@ == "qemu-img"@,
        c.args@.len() == 9,
        c.args@[0]@ == "create"@,
        c.args@[1]@ == "-q"@,
        c.args@[2]@ == "-f"@,
        c.args@[3]@ == "qcow2"@,
        c.args@[4]@ == "-F"@,
        c.args@[5]@ == backing_format@,
        c.args@[6]@ == "-b"@,
        c.args@[7]@ == backing_image_path@,
        c.args@[8]@ == overlay_image_path@,
        !c.capture_stdout,
{
    let mut args: Vec<String> = Vec::new();
    args.push("create".to_owned());
    args.push("-q".to_owned());
    args.push("-f".to_owned());
    args.push("qcow2".to_owned());
    args.push("-F".to_owned());
    args.push(backing_format.clone());
    args.push("-b".to_owned());
    args.push(backing_image_path.clone());
    args.push(overlay_image_path.clone());
    CommandPlan { program: "qemu-img".to_owned(), args, capture_stdout: false }
}

/// The step between inspecting the backing image and creating the overlay:
/// only a successfully inspected backing image leads to a creation command.
/// Any inspection failure is final — the creation tool is never invoked
/// after one — and is reported exactly as [`get_image_format`] classifies
/// it. On success the returned plan is the creation invocation whose
/// backing-format argument is the inspected format and whose target format
/// is fixed to `qcow2`.
pub fn create_overlay_image(
    overlay_image_path: &String,
    backing_image_path: &String,
    inspection: &ToolOutcome,
) -> (r: Result<CommandPlan, LaunchError>)
    ensures
        !inspection.success ==> r == Err::<CommandPlan, LaunchError>(
            LaunchError::ExternalToolFailure,
        ),
        inspection.success && json_format_field(inspection.stdout@) is None ==> r == Err::<
            CommandPlan,
            LaunchError,
        >(LaunchError::MalformedOutput),
        inspection.success ==> (json_format_field(inspection.stdout@) matches Some(f) ==> (r
            matches Ok(c) && c.program@ == "qemu-img"@ && c.args@.len() == 9 && c.args@[0]@
            == "create"@ && c.args@[1]@ == "-q"@ && c.args@[2]@ == "-f"@ && c.args@[3]@ == "qcow2"@
            && c.args@[4]@ == "-F"@ && c.args@[5]@ == f && c.args@[6]@ == "-b"@ && c.args@[7]@
            == backing_image_path@ && c.args@[8]@ == overlay_image_path@ && !c.capture_stdout)),
{
    let backing_format = match get_image_format(inspection) {
        Ok(f) => f,
        Err(e) => {
            return Err(e);
        },
    };
    Ok(create_overlay_image_command(overlay_image_path, backing_image_path, &backing_format))
}

/// The end of overlay creation: the creation tool's exit status alone
/// decides, a non-zero exit being `ExternalToolFailure`. On failure the
/// overlay path may hold a partial file; no cleanup is attempted.
pub fn create_overlay_image_finish(success: bool) -> (r: Result<(), LaunchError>)
    ensures
        success ==> r is Ok,
        !success ==> r == Err::<(), LaunchError>(LaunchError::ExternalToolFailure),
{
    if success {
        Ok(())
    } else {
        Err(LaunchError::ExternalToolFailure)
    }
}

} // verus!
