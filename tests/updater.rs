use desktop_updater::controller::{
    Action, CheckOutcome, Event, Notice, Phase, PromptMode, UpdateController, UpdateDescriptor,
    UpdateError,
};
use desktop_updater::flight::SingleFlight;
use desktop_updater::policy::{has_skip_flag, policy_from_args, UpdateCheckPolicy};
use desktop_updater::progress::{add_chunk, percent_done};

fn args(list: &[&str]) -> Vec<String> {
    list.iter().map(|s| s.to_string()).collect()
}

fn policy(suppressed: bool, announce_up_to_date: bool) -> UpdateCheckPolicy {
    UpdateCheckPolicy { suppressed, announce_up_to_date }
}

fn available(current: &str, latest: &str) -> Event {
    Event::Checked(CheckOutcome::UpdateAvailable(UpdateDescriptor {
        current_version: current.to_string(),
        available_version: latest.to_string(),
    }))
}

#[test]
fn test_skip_update_flag_detection() {
    let args = vec!["app".to_string(), "--skip-update".to_string()];
    assert!(has_skip_flag(&args));
}

#[test]
fn test_skip_update_not_present() {
    let args = vec!["app".to_string(), "--other-flag".to_string()];
    assert!(!has_skip_flag(&args));
}

#[test]
fn skip_flag_must_match_exactly() {
    assert!(!has_skip_flag(&args(&["app", "--skip-updates", "-skip-update", "--SKIP-UPDATE"])));
    assert!(has_skip_flag(&args(&["--skip-update", "app"])));
    assert!(!has_skip_flag(&args(&[])));
}

#[test]
fn policy_follows_flag_and_build_mode() {
    let p = policy_from_args(&args(&["app", "--skip-update"]), false, true);
    assert!(p.suppressed);
    assert!(p.announce_up_to_date);
    let p = policy_from_args(&args(&["app"]), false, false);
    assert!(!p.suppressed);
    assert!(!p.announce_up_to_date);
    let p = policy_from_args(&args(&["app"]), true, false);
    assert!(p.suppressed);
}

#[test]
fn skip_flag_run_makes_no_query() {
    let p = policy_from_args(&args(&["app", "--skip-update"]), false, false);
    let mut c = UpdateController::new(p, PromptMode::Mandatory);
    let a = c.step(Event::Start);
    assert!(matches!(a, Action::Finish(None, Ok(()))));
    assert!(c.is_finished());
    for e in [Event::Start, Event::Checked(CheckOutcome::NoUpdate), Event::PromptClosed] {
        assert!(matches!(c.step(e), Action::Ignore));
    }
}

#[test]
fn no_update_silent_without_announce() {
    let mut c = UpdateController::new(policy(false, false), PromptMode::Mandatory);
    assert!(matches!(c.step(Event::Start), Action::QuerySource));
    let a = c.step(Event::Checked(CheckOutcome::NoUpdate));
    assert!(matches!(a, Action::Finish(None, Ok(()))));
    assert_eq!(c.phase, Phase::Finished);
}

#[test]
fn no_update_announced_when_asked() {
    let mut c = UpdateController::new(policy(false, true), PromptMode::Informational);
    assert!(matches!(c.step(Event::Start), Action::QuerySource));
    let a = c.step(Event::Checked(CheckOutcome::NoUpdate));
    assert!(matches!(a, Action::Finish(Some(Notice::UpToDate), Ok(()))));
}

#[test]
fn failed_check_continues_either_way() {
    for announce in [false, true] {
        let mut c = UpdateController::new(policy(false, announce), PromptMode::Mandatory);
        c.step(Event::Start);
        let a = c.step(Event::Checked(CheckOutcome::CheckFailed("offline".to_string())));
        match a {
            Action::Finish(None, Ok(())) => assert!(!announce),
            Action::Finish(Some(Notice::CheckFailed(m)), Ok(())) => {
                assert!(announce);
                assert_eq!(m, "offline");
            }
            other => panic!("unexpected {:?}", other),
        }
    }
}

#[test]
fn available_update_prompts_once_then_restarts_after_completion() {
    let mut c = UpdateController::new(policy(false, false), PromptMode::Mandatory);
    let events = vec![
        Event::Start,
        available("1.0.0", "1.1.0"),
        Event::PromptClosed,
        Event::Chunk(400, Some(1000)),
        Event::Chunk(600, None),
        Event::DownloadComplete,
        Event::Installed,
    ];
    let actions: Vec<Action> = events.into_iter().map(|e| c.step(e)).collect();
    let prompts: Vec<&String> = actions
        .iter()
        .filter_map(|a| match a {
            Action::Prompt(v) => Some(v),
            _ => None,
        })
        .collect();
    assert_eq!(prompts, vec!["1.1.0"]);
    assert!(matches!(actions[2], Action::Download));
    assert!(matches!(actions[3], Action::Progress(400, Some(1000))));
    assert!(matches!(actions[4], Action::Progress(1000, Some(1000))));
    let restarts: Vec<usize> = actions
        .iter()
        .enumerate()
        .filter(|(_, a)| matches!(a, Action::Restart))
        .map(|(i, _)| i)
        .collect();
    assert_eq!(restarts, vec![6]);
    assert_eq!(c.phase, Phase::Restarting);
    assert!(matches!(c.step(Event::Installed), Action::Ignore));
}

#[test]
fn informational_mode_downloads_without_prompt() {
    let mut c = UpdateController::new(policy(false, false), PromptMode::Informational);
    c.step(Event::Start);
    assert!(matches!(c.step(available("1.0.0", "1.1.0")), Action::Download));
    assert_eq!(c.phase, Phase::Downloading);
}

#[test]
fn transfer_error_is_reported_and_no_restart() {
    let mut c = UpdateController::new(policy(false, false), PromptMode::Mandatory);
    c.step(Event::Start);
    c.step(available("1.0.0", "1.1.0"));
    c.step(Event::PromptClosed);
    c.step(Event::Chunk(10, Some(100)));
    let a = c.step(Event::UpdateFailed);
    assert!(matches!(a, Action::Finish(None, Err(UpdateError::TransferFailure))));
    assert!(matches!(c.step(Event::Installed), Action::Ignore));
    assert!(matches!(c.step(Event::DownloadComplete), Action::Ignore));
}

#[test]
fn failure_after_completion_is_install_failure() {
    let mut c = UpdateController::new(policy(false, false), PromptMode::Informational);
    c.step(Event::Start);
    c.step(available("1.0.0", "2.0.0"));
    c.step(Event::DownloadComplete);
    let a = c.step(Event::UpdateFailed);
    assert!(matches!(a, Action::Finish(None, Err(UpdateError::InstallFailure))));
}

#[test]
fn failed_restart_is_reported() {
    let mut c = UpdateController::new(policy(false, false), PromptMode::Informational);
    c.step(Event::Start);
    c.step(available("1.0.0", "2.0.0"));
    c.step(Event::DownloadComplete);
    assert!(matches!(c.step(Event::Installed), Action::Restart));
    let a = c.step(Event::RestartFailed);
    assert!(matches!(a, Action::Finish(None, Err(UpdateError::RestartFailure))));
}

#[test]
fn install_before_completion_does_not_restart() {
    let mut c = UpdateController::new(policy(false, false), PromptMode::Informational);
    c.step(Event::Start);
    c.step(available("1.0.0", "2.0.0"));
    assert!(matches!(c.step(Event::Installed), Action::Ignore));
    assert_eq!(c.phase, Phase::Downloading);
}

#[test]
fn progress_never_goes_down() {
    let mut c = UpdateController::new(policy(false, false), PromptMode::Informational);
    c.step(Event::Start);
    c.step(available("1.0.0", "2.0.0"));
    let mut last = 0u64;
    for len in [0u64, 5, 0, u64::MAX, 7] {
        match c.step(Event::Chunk(len, None)) {
            Action::Progress(b, t) => {
                assert!(b >= last);
                assert_eq!(t, None);
                last = b;
            }
            other => panic!("unexpected {:?}", other),
        }
    }
    assert_eq!(last, u64::MAX);
}

#[test]
fn chunk_sum_saturates() {
    assert_eq!(add_chunk(3, 4), 7);
    assert_eq!(add_chunk(u64::MAX - 1, 5), u64::MAX);
    assert_eq!(add_chunk(0, 0), 0);
}

#[test]
fn percent_needs_known_total() {
    assert_eq!(percent_done(50, None), None);
    assert_eq!(percent_done(0, None), None);
    assert_eq!(percent_done(50, Some(0)), None);
    assert_eq!(percent_done(50, Some(200)), Some(25));
    assert_eq!(percent_done(199, Some(200)), Some(99));
    assert_eq!(percent_done(300, Some(200)), Some(100));
    assert_eq!(percent_done(u64::MAX - 1, Some(u64::MAX)), Some(99));
}

#[test]
fn single_flight_admits_one_cycle() {
    let mut g = SingleFlight::new();
    assert!(!g.busy());
    assert!(g.try_begin());
    assert!(g.busy());
    assert!(!g.try_begin());
    g.end();
    assert!(!g.busy());
    assert!(g.try_begin());
}
