use ffmpeg_addon::orchestrator::extraction::{
    extract_action, extract_step, find_archive, find_top_level_dir, is_archive, start_extract,
    DirEntry, ExtractAction, ExtractState,
};
use ffmpeg_addon::orchestrator::error::SetupError;

fn file(name: &str, modified: u64) -> DirEntry {
    DirEntry { name: String::from(name), is_dir: false, modified }
}

fn dir(name: &str) -> DirEntry {
    DirEntry { name: String::from(name), is_dir: true, modified: 0 }
}

#[test]
fn an_archive_is_named_by_prefix_and_suffix() {
    assert!(is_archive("ffmpeg-7.1.tar.gz"));
    assert!(is_archive("ffmpeg.tar.gz"));
    assert!(is_archive("ffmpeg-ffmpeg-n7.1.tar.gz"));
    assert!(!is_archive("FFmpeg-7.1.tar.gz"));
    assert!(!is_archive("x264-1.0.tar.gz"));
    assert!(!is_archive("ffmpeg-7.1.tar.gz.part"));
    assert!(!is_archive("ffmpeg-7.1.zip"));
    assert!(!is_archive("ffmpeg"));
    assert!(!is_archive(""));
}

#[test]
fn the_only_archive_is_found() {
    let entries = vec![file("x264.tar.gz", 9), file("ffmpeg-7.1.tar.gz", 1), file("readme", 5)];
    assert_eq!(find_archive(&entries), Some(1));
}

#[test]
fn the_newest_archive_is_found() {
    let entries = vec![
        file("ffmpeg-6.0.tar.gz", 100),
        file("ffmpeg-7.1.tar.gz", 300),
        file("other.tar.gz", 900),
        file("ffmpeg-7.0.tar.gz", 200),
    ];
    assert_eq!(find_archive(&entries), Some(1));
}

#[test]
fn of_archives_of_one_age_the_first_is_found() {
    let entries = vec![file("a", 7), file("ffmpeg-1.tar.gz", 7), file("ffmpeg-2.tar.gz", 7)];
    assert_eq!(find_archive(&entries), Some(1));
}

#[test]
fn no_archive_is_found_among_other_files() {
    assert_eq!(find_archive(&vec![file("x264.tar.gz", 9), file("ffmpeg.zip", 1)]), None);
    assert_eq!(find_archive(&Vec::new()), None);
}

#[test]
fn the_first_directory_is_the_top_level() {
    let entries = vec![file("pax_global_header", 0), dir("pkg-1.2"), dir("other")];
    assert_eq!(find_top_level_dir(&entries), Some(1));
    assert_eq!(find_top_level_dir(&vec![file("a", 0)]), None);
    assert_eq!(find_top_level_dir(&Vec::new()), None);
}

#[test]
fn a_tree_that_is_in_place_ends_the_extraction_at_once() {
    let none: Vec<DirEntry> = Vec::new();
    let state = start_extract();
    assert_eq!(extract_action(state), ExtractAction::ProbeTree);
    let state = extract_step(state, true, &none);
    assert_eq!(state, ExtractState::Finished);
    assert_eq!(extract_action(state), ExtractAction::Succeed);
}

#[test]
fn an_archive_with_one_top_level_directory_is_moved_into_place() {
    let none: Vec<DirEntry> = Vec::new();
    let downloads = vec![file("cmake.zip", 3), file("ffmpeg-pkg-1.2.tar.gz", 2)];
    let staging = vec![dir("pkg-1.2")];
    let mut actions = Vec::new();
    let mut state = start_extract();
    loop {
        let action = extract_action(state);
        actions.push(action);
        state = match action {
            ExtractAction::ProbeTree => extract_step(state, false, &none),
            ExtractAction::ListDownloads => extract_step(state, true, &downloads),
            ExtractAction::ListStaging => extract_step(state, true, &staging),
            ExtractAction::PrepareStaging
            | ExtractAction::Unpack { .. }
            | ExtractAction::RemoveTarget
            | ExtractAction::Promote { .. }
            | ExtractAction::RemoveStaging => extract_step(state, true, &none),
            ExtractAction::Succeed | ExtractAction::Fail(_) => break,
        };
    }
    assert_eq!(
        actions,
        vec![
            ExtractAction::ProbeTree,
            ExtractAction::ListDownloads,
            ExtractAction::PrepareStaging,
            ExtractAction::Unpack { archive: 1 },
            ExtractAction::ListStaging,
            ExtractAction::RemoveTarget,
            ExtractAction::Promote { top: 0 },
            ExtractAction::RemoveStaging,
            ExtractAction::Succeed,
        ]
    );
}

#[test]
fn missing_downloads_end_the_extraction_before_anything_is_unpacked() {
    let none: Vec<DirEntry> = Vec::new();
    let state = extract_step(start_extract(), false, &none);
    assert_eq!(state, ExtractState::AwaitDownloads);
    assert_eq!(
        extract_step(state, true, &vec![file("x264.tar.gz", 1)]),
        ExtractState::Failed(SetupError::ArchiveMissing)
    );
    assert_eq!(
        extract_step(state, false, &vec![file("ffmpeg.tar.gz", 1)]),
        ExtractState::Failed(SetupError::ArchiveMissing)
    );
    assert_eq!(
        extract_action(ExtractState::Failed(SetupError::ArchiveMissing)),
        ExtractAction::Fail(SetupError::ArchiveMissing)
    );
}

#[test]
fn an_archive_without_a_directory_is_refused_after_the_cleanup() {
    let none: Vec<DirEntry> = Vec::new();
    let state = extract_step(ExtractState::AwaitStaging, true, &vec![file("README", 0)]);
    assert_eq!(state, ExtractState::AwaitCleanup { failure: Some(SetupError::NoTopLevelDirectory) });
    assert_eq!(extract_action(state), ExtractAction::RemoveStaging);
    assert_eq!(
        extract_step(state, true, &none),
        ExtractState::Failed(SetupError::NoTopLevelDirectory)
    );
    assert_eq!(
        extract_step(state, false, &none),
        ExtractState::Failed(SetupError::NoTopLevelDirectory)
    );
    assert_eq!(
        extract_step(ExtractState::AwaitStaging, false, &vec![dir("pkg")]),
        ExtractState::AwaitCleanup { failure: Some(SetupError::NoTopLevelDirectory) }
    );
}

#[test]
fn a_failed_unpack_or_move_is_reported_after_the_cleanup() {
    let none: Vec<DirEntry> = Vec::new();
    let failed = ExtractState::AwaitCleanup { failure: Some(SetupError::ExtractionFailed) };
    assert_eq!(extract_step(ExtractState::AwaitFreshStaging { archive: 0 }, false, &none), failed);
    assert_eq!(extract_step(ExtractState::AwaitUnpack { archive: 0 }, false, &none), failed);
    assert_eq!(extract_step(ExtractState::AwaitClearTarget { top: 0 }, false, &none), failed);
    assert_eq!(extract_step(ExtractState::AwaitPromote { top: 0 }, false, &none), failed);
    assert_eq!(extract_step(failed, true, &none), ExtractState::Failed(SetupError::ExtractionFailed));
}

#[test]
fn a_failed_cleanup_after_success_is_a_failure() {
    let none: Vec<DirEntry> = Vec::new();
    let state = extract_step(ExtractState::AwaitPromote { top: 0 }, true, &none);
    assert_eq!(state, ExtractState::AwaitCleanup { failure: None });
    assert_eq!(extract_step(state, true, &none), ExtractState::Finished);
    assert_eq!(extract_step(state, false, &none), ExtractState::Failed(SetupError::ExtractionFailed));
}

#[test]
fn the_final_path_is_cleared_before_the_move() {
    let none: Vec<DirEntry> = Vec::new();
    let state = extract_step(ExtractState::AwaitStaging, true, &vec![dir("pkg-1.2")]);
    assert_eq!(state, ExtractState::AwaitClearTarget { top: 0 });
    assert_eq!(extract_action(state), ExtractAction::RemoveTarget);
    let state = extract_step(state, true, &none);
    assert_eq!(state, ExtractState::AwaitPromote { top: 0 });
    assert_eq!(extract_action(state), ExtractAction::Promote { top: 0 });
}

#[test]
fn the_archive_is_unpacked_into_a_fresh_staging_directory() {
    let none: Vec<DirEntry> = Vec::new();
    let state = extract_step(ExtractState::AwaitDownloads, true, &vec![file("ffmpeg.tar.gz", 1)]);
    assert_eq!(state, ExtractState::AwaitFreshStaging { archive: 0 });
    assert_eq!(extract_action(state), ExtractAction::PrepareStaging);
    let state = extract_step(state, true, &none);
    assert_eq!(state, ExtractState::AwaitUnpack { archive: 0 });
    assert_eq!(extract_action(state), ExtractAction::Unpack { archive: 0 });
}
