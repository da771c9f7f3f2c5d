use ffmpeg_addon::orchestrator::bootstrap::{
    bootstrap_action, bootstrap_step, start_bootstrap, BootstrapAction, BootstrapState,
};
use ffmpeg_addon::orchestrator::error::SetupError;
use ffmpeg_addon::orchestrator::install::{
    install_action, install_step, start_install, InstallAction, InstallState,
};
use ffmpeg_addon::orchestrator::retry::RetryPolicy;
use ffmpeg_addon::package::PackageRequirement;

fn requirement() -> PackageRequirement {
    PackageRequirement {
        name: String::from("ffmpeg"),
        features: vec![String::from("x264"), String::from("x265"), String::from("vpx")],
        triplet: String::from("x64-linux"),
    }
}

/// Runs the bootstrap with a client that runs and a clone that always
/// fails; returns the clones asked for and the final action.
fn run_failing_bootstrap(policy: &RetryPolicy, mirrors: usize) -> (Vec<BootstrapAction>, BootstrapAction) {
    let mut clones = Vec::new();
    let mut cleared = 0;
    let mut state = start_bootstrap();
    let mut steps = 0;
    loop {
        steps += 1;
        assert!(steps < 10_000);
        let action = bootstrap_action(policy, state);
        let ok = match action {
            BootstrapAction::ProbeTool => false,
            BootstrapAction::CheckGit => true,
            BootstrapAction::CleanDestination => {
                // Every clone has its own clearing before it.
                assert_eq!(cleared, clones.len());
                cleared += 1;
                cleared % 2 == 0
            }
            BootstrapAction::Clone { .. } => {
                assert_eq!(cleared, clones.len() + 1);
                clones.push(action);
                false
            }
            BootstrapAction::RunScript => panic!("no clone succeeded"),
            BootstrapAction::Succeed | BootstrapAction::Fail(_) => {
                assert_eq!(cleared, clones.len());
                return (clones, action);
            }
        };
        state = bootstrap_step(policy, mirrors, state, ok);
    }
}

#[test]
fn a_policy_needs_one_attempt() {
    assert!(RetryPolicy::new(0, 2).is_none());
    let p = RetryPolicy::new(1, 0).unwrap();
    assert_eq!(p.max_attempts(), 1);
    assert_eq!(p.base_backoff_secs(), 0);
    let p = RetryPolicy::standard();
    assert_eq!(p.max_attempts(), 3);
    assert_eq!(p.base_backoff_secs(), 2);
}

#[test]
fn the_wait_is_the_base_times_the_attempt() {
    let p = RetryPolicy::standard();
    assert_eq!(p.delay_before(1), 2);
    assert_eq!(p.delay_before(2), 4);
    assert_eq!(p.delay_before(3), 6);
    assert_eq!(p.delay_before(0), 0);
    let p = RetryPolicy::new(5, 7).unwrap();
    assert_eq!(p.delay_before(4), 28);
    let p = RetryPolicy::new(u32::MAX, u32::MAX).unwrap();
    assert_eq!(p.delay_before(u32::MAX), 18_446_744_065_119_617_025);
}

#[test]
fn a_clone_that_always_fails_is_tried_on_every_mirror_for_every_attempt() {
    let policy = RetryPolicy::standard();
    let (clones, last) = run_failing_bootstrap(&policy, 3);
    assert_eq!(last, BootstrapAction::Fail(SetupError::BootstrapExhausted));
    let expected: Vec<BootstrapAction> = vec![
        BootstrapAction::Clone { mirror: 0, attempt: 1, wait_secs: 2 },
        BootstrapAction::Clone { mirror: 0, attempt: 2, wait_secs: 4 },
        BootstrapAction::Clone { mirror: 0, attempt: 3, wait_secs: 6 },
        BootstrapAction::Clone { mirror: 1, attempt: 1, wait_secs: 2 },
        BootstrapAction::Clone { mirror: 1, attempt: 2, wait_secs: 4 },
        BootstrapAction::Clone { mirror: 1, attempt: 3, wait_secs: 6 },
        BootstrapAction::Clone { mirror: 2, attempt: 1, wait_secs: 2 },
        BootstrapAction::Clone { mirror: 2, attempt: 2, wait_secs: 4 },
        BootstrapAction::Clone { mirror: 2, attempt: 3, wait_secs: 6 },
    ];
    assert_eq!(clones, expected);
}

#[test]
fn the_number_of_failing_clones_is_attempts_times_mirrors() {
    for attempts in 1..6u32 {
        for mirrors in 0..5usize {
            let policy = RetryPolicy::new(attempts, 1).unwrap();
            let (clones, last) = run_failing_bootstrap(&policy, mirrors);
            assert_eq!(clones.len(), attempts as usize * mirrors);
            assert_eq!(last, BootstrapAction::Fail(SetupError::BootstrapExhausted));
        }
    }
}

#[test]
fn the_wait_does_not_shrink_on_one_mirror() {
    let policy = RetryPolicy::new(4, 3).unwrap();
    let (clones, _) = run_failing_bootstrap(&policy, 2);
    let mut last_mirror = usize::MAX;
    let mut last_wait = 0;
    for c in clones {
        if let BootstrapAction::Clone { mirror, wait_secs, .. } = c {
            if mirror == last_mirror {
                assert!(wait_secs >= last_wait);
            } else {
                assert_eq!(wait_secs, 3);
            }
            last_mirror = mirror;
            last_wait = wait_secs;
        }
    }
}

#[test]
fn a_tool_that_is_there_ends_the_bootstrap_at_once() {
    let policy = RetryPolicy::standard();
    let state = start_bootstrap();
    assert_eq!(state, BootstrapState::AwaitProbe);
    assert_eq!(bootstrap_action(&policy, state), BootstrapAction::ProbeTool);
    let state = bootstrap_step(&policy, 3, state, true);
    assert_eq!(state, BootstrapState::Finished);
    assert_eq!(bootstrap_action(&policy, state), BootstrapAction::Succeed);
    assert_eq!(bootstrap_step(&policy, 3, state, false), BootstrapState::Finished);
}

#[test]
fn a_missing_client_ends_the_bootstrap() {
    let policy = RetryPolicy::standard();
    let state = bootstrap_step(&policy, 3, start_bootstrap(), false);
    assert_eq!(bootstrap_action(&policy, state), BootstrapAction::CheckGit);
    let state = bootstrap_step(&policy, 3, state, false);
    assert_eq!(state, BootstrapState::Failed(SetupError::GitMissing));
    assert_eq!(bootstrap_action(&policy, state), BootstrapAction::Fail(SetupError::GitMissing));
    assert_eq!(bootstrap_step(&policy, 3, state, true), state);
}

#[test]
fn a_clone_that_succeeds_on_the_second_mirror_is_followed_by_the_script() {
    let policy = RetryPolicy::new(2, 5).unwrap();
    let mut state = bootstrap_step(&policy, 3, start_bootstrap(), false);
    state = bootstrap_step(&policy, 3, state, true);
    assert_eq!(state, BootstrapState::AwaitClean { mirror: 0, attempt: 1 });
    assert_eq!(bootstrap_action(&policy, state), BootstrapAction::CleanDestination);
    state = bootstrap_step(&policy, 3, state, true);
    assert_eq!(state, BootstrapState::AwaitClone { mirror: 0, attempt: 1 });
    state = bootstrap_step(&policy, 3, state, false);
    assert_eq!(state, BootstrapState::AwaitClean { mirror: 0, attempt: 2 });
    state = bootstrap_step(&policy, 3, state, false);
    assert_eq!(state, BootstrapState::AwaitClone { mirror: 0, attempt: 2 });
    state = bootstrap_step(&policy, 3, state, false);
    assert_eq!(state, BootstrapState::AwaitClean { mirror: 1, attempt: 1 });
    state = bootstrap_step(&policy, 3, state, true);
    assert_eq!(
        bootstrap_action(&policy, state),
        BootstrapAction::Clone { mirror: 1, attempt: 1, wait_secs: 5 }
    );
    state = bootstrap_step(&policy, 3, state, true);
    assert_eq!(bootstrap_action(&policy, state), BootstrapAction::RunScript);
    state = bootstrap_step(&policy, 3, state, true);
    assert_eq!(state, BootstrapState::AwaitVerify);
    assert_eq!(bootstrap_action(&policy, state), BootstrapAction::ProbeTool);
    assert_eq!(bootstrap_step(&policy, 3, state, true), BootstrapState::Finished);
}

#[test]
fn the_last_failure_on_the_last_mirror_exhausts_the_bootstrap() {
    let policy = RetryPolicy::standard();
    assert_eq!(
        bootstrap_step(&policy, 3, BootstrapState::AwaitClone { mirror: 2, attempt: 2 }, false),
        BootstrapState::AwaitClean { mirror: 2, attempt: 3 }
    );
    assert_eq!(
        bootstrap_step(&policy, 3, BootstrapState::AwaitClone { mirror: 2, attempt: 3 }, false),
        BootstrapState::Failed(SetupError::BootstrapExhausted)
    );
    assert_eq!(
        bootstrap_step(&policy, 3, BootstrapState::AwaitClone { mirror: 2, attempt: 3 }, true),
        BootstrapState::AwaitScript
    );
    assert_eq!(
        bootstrap_step(&policy, 0, BootstrapState::AwaitGit, true),
        BootstrapState::Failed(SetupError::BootstrapExhausted)
    );
}

#[test]
fn a_script_that_fails_or_leaves_no_executable_ends_the_bootstrap() {
    let policy = RetryPolicy::standard();
    assert_eq!(
        bootstrap_step(&policy, 3, BootstrapState::AwaitScript, false),
        BootstrapState::Failed(SetupError::BootstrapFailed)
    );
    assert_eq!(
        bootstrap_step(&policy, 3, BootstrapState::AwaitVerify, false),
        BootstrapState::Failed(SetupError::BootstrapVerificationFailed)
    );
}

#[test]
fn a_satisfied_requirement_installs_nothing() {
    let req = requirement();
    let listing = b"ffmpeg:x64-linux    7.1#2    a library\nffmpeg[x264]:x64-linux\nffmpeg[x265]:x64-linux\nffmpeg[vpx]:x64-linux\n";
    let state = start_install();
    assert_eq!(install_action(state), InstallAction::ProbeTool);
    let state = install_step(&req, state, true, b"");
    assert_eq!(install_action(state), InstallAction::ListPackage);
    let state = install_step(&req, state, true, listing);
    assert_eq!(state, InstallState::Finished);
    assert_eq!(install_action(state), InstallAction::Succeed);
}

#[test]
fn a_listing_for_another_triplet_does_not_satisfy() {
    let req = requirement();
    let listing = b"ffmpeg[x264,x265,vpx]:x64-windows-static    7.1#2\n";
    let state = install_step(&req, InstallState::AwaitListing, true, listing);
    assert_eq!(state, InstallState::AwaitInstall);
    assert_eq!(install_action(state), InstallAction::InstallPackage);
}

#[test]
fn a_package_without_its_features_is_removed_first() {
    let req = requirement();
    let listing = b"ffmpeg:x64-linux    7.1#2\nffmpeg[x264]:x64-linux\n";
    let state = install_step(&req, InstallState::AwaitListing, true, listing);
    assert_eq!(state, InstallState::AwaitRemove);
    assert_eq!(install_action(state), InstallAction::RemovePackage);
    let state = install_step(&req, state, true, b"");
    assert_eq!(state, InstallState::AwaitInstall);
    let state = install_step(&req, state, true, b"");
    assert_eq!(state, InstallState::Finished);
}

#[test]
fn a_failed_removal_ends_the_installation() {
    let req = requirement();
    let state = install_step(&req, InstallState::AwaitRemove, false, b"");
    assert_eq!(state, InstallState::Failed(SetupError::RemoveFailed));
    assert_eq!(install_action(state), InstallAction::Fail(SetupError::RemoveFailed));
}

#[test]
fn a_listing_that_could_not_be_had_leads_to_the_install() {
    let req = requirement();
    let listing = b"ffmpeg[x264,x265,vpx]:x64-linux\n";
    assert_eq!(
        install_step(&req, InstallState::AwaitListing, false, listing),
        InstallState::AwaitInstall
    );
    assert_eq!(install_step(&req, InstallState::AwaitListing, true, b""), InstallState::AwaitInstall);
}

#[test]
fn the_exit_status_of_the_install_decides() {
    let req = requirement();
    assert_eq!(install_step(&req, InstallState::AwaitInstall, true, b""), InstallState::Finished);
    assert_eq!(
        install_step(&req, InstallState::AwaitInstall, false, b""),
        InstallState::Failed(SetupError::InstallFailed)
    );
}

#[test]
fn packages_need_the_tool() {
    let req = requirement();
    assert_eq!(
        install_step(&req, start_install(), false, b""),
        InstallState::Failed(SetupError::ToolMissing)
    );
}

#[test]
fn every_error_has_a_message() {
    assert_eq!(
        SetupError::GitMissing.message(),
        "git is not installed or not in PATH, please install git first"
    );
    assert_eq!(SetupError::BootstrapExhausted.message(), "bootstrap exhausted: every mirror failed");
    assert_eq!(SetupError::BootstrapFailed.message(), "vcpkg bootstrap failed");
    assert_eq!(
        SetupError::BootstrapVerificationFailed.message(),
        "bootstrap verification failed: vcpkg executable was not generated"
    );
    assert_eq!(
        SetupError::ToolMissing.message(),
        "vcpkg is not installed, please call install_vcpkg() first"
    );
    assert_eq!(SetupError::RemoveFailed.message(), "Failed to remove existing ffmpeg package");
    assert_eq!(SetupError::InstallFailed.message(), "ffmpeg installation failed");
    assert_eq!(
        SetupError::ArchiveMissing.message(),
        "archive missing: ffmpeg tar.gz file not found, please install ffmpeg package first"
    );
    assert_eq!(
        SetupError::ExtractionFailed.message(),
        "ffmpeg archive could not be unpacked into place"
    );
    assert_eq!(
        SetupError::NoTopLevelDirectory.message(),
        "Top-level directory not found after extraction"
    );
}

#[test]
fn the_report_of_an_exhausted_bootstrap_ends_with_the_last_output() {
    assert_eq!(
        SetupError::BootstrapExhausted.report(b"fatal: unable to access"),
        b"bootstrap exhausted: every mirror failed; last error: fatal: unable to access".to_vec()
    );
    assert_eq!(
        SetupError::BootstrapExhausted.report(b""),
        b"bootstrap exhausted: every mirror failed".to_vec()
    );
    assert_eq!(
        SetupError::InstallFailed.report(b"ignored"),
        b"ffmpeg installation failed".to_vec()
    );
}
