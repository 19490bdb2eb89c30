use vm_launcher::command::ToolOutcome;
use vm_launcher::errors::LaunchError;
use vm_launcher::image::create_overlay_image;
use vm_launcher::image::create_overlay_image_command;
use vm_launcher::image::create_overlay_image_finish;
use vm_launcher::image::get_image_format;
use vm_launcher::image::get_image_format_command;
use vm_launcher::rootfs::extract_runner_root_into;
use vm_launcher::runtime::crun;
use vm_launcher::runtime::crun_finish;

fn outcome(success: bool, stdout: &[u8]) -> ToolOutcome {
    ToolOutcome { success, stdout: stdout.to_vec() }
}

#[test]
fn inspection_command_shape() {
    let c = get_image_format_command(&"/images/base.img".to_owned());
    assert_eq!(c.program, "qemu-img");
    assert_eq!(c.args, vec!["info", "--output=json", "/images/base.img"]);
    assert!(c.capture_stdout);
}

#[test]
fn format_is_read_from_the_inspection_output() {
    let out = outcome(true, br#"{"virtual-size": 1024, "format": "qcow2", "cluster-size": 65536}"#);
    assert_eq!(get_image_format(&out), Ok("qcow2".to_owned()));
}

#[test]
fn format_of_a_raw_image_is_read_as_given() {
    let out = outcome(true, br#"{"format": "raw"}"#);
    assert_eq!(get_image_format(&out), Ok("raw".to_owned()));
}

#[test]
fn inspection_non_zero_exit_is_a_tool_failure() {
    let out = outcome(false, br#"{"format": "qcow2"}"#);
    assert_eq!(get_image_format(&out), Err(LaunchError::ExternalToolFailure));
}

#[test]
fn unparseable_inspection_output_is_malformed() {
    let out = outcome(true, b"this is not json");
    assert_eq!(get_image_format(&out), Err(LaunchError::MalformedOutput));
}

#[test]
fn inspection_output_without_the_field_is_malformed() {
    let out = outcome(true, br#"{"virtual-size": 1024}"#);
    assert_eq!(get_image_format(&out), Err(LaunchError::MalformedOutput));
}

#[test]
fn non_string_format_field_is_malformed() {
    let out = outcome(true, br#"{"format": 7}"#);
    assert_eq!(get_image_format(&out), Err(LaunchError::MalformedOutput));
}

#[test]
fn empty_inspection_output_is_malformed() {
    let out = outcome(true, b"");
    assert_eq!(get_image_format(&out), Err(LaunchError::MalformedOutput));
}

#[test]
fn creation_command_shape() {
    let c = create_overlay_image_command(
        &"/work/overlay.qcow2".to_owned(),
        &"/images/base.img".to_owned(),
        &"raw".to_owned(),
    );
    assert_eq!(c.program, "qemu-img");
    assert_eq!(
        c.args,
        vec![
            "create",
            "-q",
            "-f",
            "qcow2",
            "-F",
            "raw",
            "-b",
            "/images/base.img",
            "/work/overlay.qcow2",
        ],
    );
    assert!(!c.capture_stdout);
}

#[test]
fn overlay_creation_declares_the_inspected_backing_format() {
    let inspection = outcome(true, br#"{"format": "qcow2"}"#);
    let r = create_overlay_image(
        &"/work/overlay.qcow2".to_owned(),
        &"/images/base.img".to_owned(),
        &inspection,
    );
    let c = r.expect("a creation command is owed");
    assert_eq!(c.program, "qemu-img");
    assert_eq!(
        c.args,
        vec![
            "create",
            "-q",
            "-f",
            "qcow2",
            "-F",
            "qcow2",
            "-b",
            "/images/base.img",
            "/work/overlay.qcow2",
        ],
    );
    assert!(!c.capture_stdout);
}

#[test]
fn overlay_creation_never_follows_a_failed_inspection() {
    let inspection = outcome(false, br#"{"format": "qcow2"}"#);
    let r = create_overlay_image(
        &"/work/overlay.qcow2".to_owned(),
        &"/images/base.img".to_owned(),
        &inspection,
    );
    assert_eq!(r.err(), Some(LaunchError::ExternalToolFailure));
}

#[test]
fn overlay_creation_never_follows_malformed_inspection_output() {
    let inspection = outcome(true, b"garbage");
    let r = create_overlay_image(
        &"/work/overlay.qcow2".to_owned(),
        &"/images/base.img".to_owned(),
        &inspection,
    );
    assert_eq!(r.err(), Some(LaunchError::MalformedOutput));
}

#[test]
fn overlay_creation_ends_with_the_creation_tools_exit_status() {
    assert_eq!(create_overlay_image_finish(true), Ok(()));
    assert_eq!(create_overlay_image_finish(false), Err(LaunchError::ExternalToolFailure));
}

#[test]
fn runtime_command_shape() {
    let c = crun(vec!["run".to_owned(), "mycontainer".to_owned()]);
    assert_eq!(c.program, "crun");
    assert_eq!(c.args, vec!["run", "mycontainer"]);
    assert!(!c.capture_stdout);
}

#[test]
fn runtime_exit_zero_is_success() {
    assert_eq!(crun_finish(true), Ok(()));
}

#[test]
fn runtime_non_zero_exit_is_a_runtime_failure() {
    assert_eq!(crun_finish(false), Err(LaunchError::RuntimeFailure));
}

#[test]
fn extracting_an_empty_archive_succeeds() {
    // Two zeroed blocks form an empty archive; nothing is written.
    let tar_bytes = vec![0u8; 1024];
    assert_eq!(extract_runner_root_into(&tar_bytes, &".".to_owned()), Ok(()));
}

#[test]
fn extracting_a_corrupt_archive_is_an_extraction_failure() {
    let tar_bytes = vec![0xFFu8; 1024];
    assert_eq!(
        extract_runner_root_into(&tar_bytes, &".".to_owned()),
        Err(LaunchError::ExtractionFailure),
    );
}

#[test]
fn error_messages_name_the_failure() {
    assert_eq!(LaunchError::NotFound.message(), "no files found");
    assert_eq!(LaunchError::AmbiguousMatch.message(), "more than one file found");
    assert_eq!(LaunchError::ExternalToolFailure.message(), "qemu-img failed");
    assert_eq!(LaunchError::RuntimeFailure.message(), "crun failed");
}
