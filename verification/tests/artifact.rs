use build_worker::find_rlib;
use build_worker::is_matching_rlib;
use build_worker::select_artifact;
use build_worker::ArtifactLabel;

fn listing(names: &[&str]) -> Vec<String> {
    names.iter().map(|n| n.to_string()).collect()
}

#[test]
fn hello_lib_archive_matches() {
    // A hyphenated target matches the underscored file name the toolchain
    // actually writes.
    assert!(is_matching_rlib("libhello_lib-4f2a9c.rlib", "hello-lib"));
}

#[test]
fn wrong_extension_does_not_match() {
    assert!(!is_matching_rlib("libhello_lib-4f2a9c.so", "hello-lib"));
    assert!(!is_matching_rlib("libhello_lib-4f2a9c", "hello-lib"));
}

#[test]
fn extension_alone_does_not_match() {
    assert!(!is_matching_rlib(".rlib", "hello-lib"));
    assert!(!is_matching_rlib("libother-4f2a9c.rlib", "hello-lib"));
}

#[test]
fn plain_target_matches_its_archive() {
    assert!(is_matching_rlib("libdemo-0011aabb.rlib", "demo"));
    assert!(is_matching_rlib("libdemo.rlib", "demo"));
}

#[test]
fn target_that_prefixes_another_also_matches() {
    // The match is by substring, so a target that prefixes another
    // target's name matches that other archive too.
    assert!(is_matching_rlib("libfoobar-11.rlib", "foo"));
}

#[test]
fn find_rlib_returns_first_match() {
    let l = listing(&["notes.txt", "libdemo-1.rlib", "libdemo-2.rlib"]);
    assert_eq!(find_rlib(&l, "demo", 0), Some(1));
}

#[test]
fn find_rlib_resumes_after_start() {
    let l = listing(&["libdemo-1.rlib", "libdemo-2.rlib"]);
    assert_eq!(find_rlib(&l, "demo", 1), Some(1));
    assert_eq!(find_rlib(&l, "demo", 2), None);
}

#[test]
fn find_rlib_on_empty_listing() {
    let l: Vec<String> = Vec::new();
    assert_eq!(find_rlib(&l, "demo", 0), None);
}

#[test]
fn library_artifact_is_preferred_over_executable() {
    let l = listing(&["libdemo-1.rlib"]);
    match select_artifact(&l, "demo", true) {
        Some(ArtifactLabel::LibraryArchive { file_name }) => {
            assert_eq!(file_name, "libdemo-1.rlib");
        },
        _ => panic!("expected the library archive to win"),
    }
}

#[test]
fn executable_is_chosen_when_no_library_matches() {
    let l = listing(&["other.txt"]);
    match select_artifact(&l, "demo", true) {
        Some(ArtifactLabel::Executable { file_name }) => {
            assert_eq!(file_name, "demo");
        },
        _ => panic!("expected the executable"),
    }
}

#[test]
fn nothing_is_chosen_when_nothing_was_produced() {
    let l = listing(&["other.txt"]);
    assert!(select_artifact(&l, "demo", false).is_none());
}

#[test]
fn selection_is_repeatable() {
    let l = listing(&["libsame-1.rlib", "libsame-2.rlib"]);
    let a = select_artifact(&l, "same", true);
    let b = select_artifact(&l, "same", true);
    match (a, b) {
        (
            Some(ArtifactLabel::LibraryArchive { file_name: fa }),
            Some(ArtifactLabel::LibraryArchive { file_name: fb }),
        ) => {
            assert_eq!(fa, fb);
            assert_eq!(fa, "libsame-1.rlib");
        },
        _ => panic!("expected the same library archive twice"),
    }
}
