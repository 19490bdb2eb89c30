use vm_launcher::errors::LaunchError;
use vm_launcher::scan::find_single_file_in_directories;
use vm_launcher::scan::ScannedDir;
use vm_launcher::scan::ScannedEntry;

fn file(path: &str) -> ScannedEntry {
    ScannedEntry::File { path: path.to_owned() }
}

#[test]
fn scan_empty_list_yields_not_found() {
    let dirs: Vec<ScannedDir> = Vec::new();
    assert_eq!(find_single_file_in_directories(&dirs), Err(LaunchError::NotFound));
}

#[test]
fn scan_absent_directories_yield_not_found() {
    let dirs = vec![ScannedDir::Absent, ScannedDir::Absent];
    assert_eq!(find_single_file_in_directories(&dirs), Err(LaunchError::NotFound));
}

#[test]
fn scan_only_non_files_yields_not_found() {
    let dirs = vec![ScannedDir::Listed { entries: vec![ScannedEntry::Other, ScannedEntry::Other] }];
    assert_eq!(find_single_file_in_directories(&dirs), Err(LaunchError::NotFound));
}

#[test]
fn scan_single_file_is_found_across_the_list() {
    let dirs = vec![
        ScannedDir::Absent,
        ScannedDir::Listed { entries: vec![ScannedEntry::Other, file("b/disk.img")] },
        ScannedDir::Listed { entries: vec![] },
        ScannedDir::Absent,
    ];
    assert_eq!(find_single_file_in_directories(&dirs), Ok("b/disk.img".to_owned()));
}

#[test]
fn scan_single_file_in_last_directory_is_found() {
    let dirs = vec![
        ScannedDir::Absent,
        ScannedDir::Listed { entries: vec![] },
        ScannedDir::Listed { entries: vec![file("z/disk.img")] },
    ];
    assert_eq!(find_single_file_in_directories(&dirs), Ok("z/disk.img".to_owned()));
}

#[test]
fn scan_two_files_in_one_directory_are_ambiguous() {
    let dirs = vec![ScannedDir::Listed { entries: vec![file("a/one.img"), file("a/two.img")] }];
    assert_eq!(find_single_file_in_directories(&dirs), Err(LaunchError::AmbiguousMatch));
}

#[test]
fn scan_one_file_per_directory_is_still_ambiguous() {
    let dirs = vec![
        ScannedDir::Listed { entries: vec![file("a/one.img")] },
        ScannedDir::Absent,
        ScannedDir::Listed { entries: vec![file("b/two.img")] },
    ];
    assert_eq!(find_single_file_in_directories(&dirs), Err(LaunchError::AmbiguousMatch));
}

#[test]
fn scan_unreadable_directory_is_an_io_failure() {
    let dirs = vec![ScannedDir::Unreadable, ScannedDir::Listed { entries: vec![file("a/one.img")] }];
    assert_eq!(find_single_file_in_directories(&dirs), Err(LaunchError::IoFailure));
}

#[test]
fn scan_failed_entry_is_an_io_failure() {
    let dirs = vec![ScannedDir::Listed { entries: vec![ScannedEntry::Failed, file("a/one.img")] }];
    assert_eq!(find_single_file_in_directories(&dirs), Err(LaunchError::IoFailure));
}

#[test]
fn scan_fails_fast_on_ambiguity_before_a_later_read_failure() {
    let dirs = vec![
        ScannedDir::Listed { entries: vec![file("a/one.img"), file("a/two.img")] },
        ScannedDir::Unreadable,
    ];
    assert_eq!(find_single_file_in_directories(&dirs), Err(LaunchError::AmbiguousMatch));
}

#[test]
fn scan_fails_fast_on_read_failure_before_later_files() {
    let dirs = vec![
        ScannedDir::Listed { entries: vec![ScannedEntry::Failed] },
        ScannedDir::Listed { entries: vec![file("a/one.img")] },
    ];
    assert_eq!(find_single_file_in_directories(&dirs), Err(LaunchError::IoFailure));
}
