use mod_installer::backup::{BackupAction, BackupEvent, BackupRun};
use mod_installer::prompt::{device_address, get_choice};
use mod_installer::setup::{SetupEvent, SetupRun, Stage};

#[test]
fn choices_parse_as_decimal() {
    assert_eq!(get_choice("1"), Some(1));
    assert_eq!(get_choice("+3"), Some(3));
    assert_eq!(get_choice("007"), Some(7));
    assert_eq!(get_choice("4294967295"), Some(4294967295));
    assert_eq!(get_choice("4294967296"), None);
    assert_eq!(get_choice("99999999999"), None);
    assert_eq!(get_choice(""), None);
    assert_eq!(get_choice("+"), None);
    assert_eq!(get_choice("-1"), None);
    assert_eq!(get_choice("1a"), None);
    assert_eq!(get_choice(" 1"), None);
}

#[test]
fn device_address_adds_port() {
    assert_eq!(device_address("192.168.0.5"), "192.168.0.5:21");
}

#[test]
fn backup_continue_skips_failed_file() {
    let mut run = BackupRun::new(3);
    assert_eq!(run.pending(), BackupAction::Retrieve(0));
    assert_eq!(run.step(BackupEvent::Retrieved), BackupAction::Write(0));
    assert_eq!(run.step(BackupEvent::Written), BackupAction::Retrieve(1));
    assert_eq!(run.step(BackupEvent::RetrievalFailed), BackupAction::AskToContinue(1));
    assert_eq!(run.step(BackupEvent::Answered(1)), BackupAction::Retrieve(2));
    assert_eq!(run.step(BackupEvent::Retrieved), BackupAction::Write(2));
    assert_eq!(run.step(BackupEvent::Written), BackupAction::Finish);
    assert_eq!(run.step(BackupEvent::Retrieved), BackupAction::Finish);
}

#[test]
fn backup_abort_attempts_nothing_more() {
    let mut run = BackupRun::new(3);
    assert_eq!(run.step(BackupEvent::RetrievalFailed), BackupAction::AskToContinue(0));
    assert_eq!(run.step(BackupEvent::Answered(2)), BackupAction::Finish);
    assert_eq!(run.pending(), BackupAction::Finish);
    assert_eq!(run.step(BackupEvent::Written), BackupAction::Finish);
}

#[test]
fn backup_continue_after_last_file_finishes() {
    let mut run = BackupRun::new(1);
    assert_eq!(run.step(BackupEvent::RetrievalFailed), BackupAction::AskToContinue(0));
    assert_eq!(run.step(BackupEvent::Answered(1)), BackupAction::Finish);
}

#[test]
fn backup_of_empty_plan_finishes_at_once() {
    let run = BackupRun::new(0);
    assert_eq!(run.pending(), BackupAction::Finish);
}

#[test]
fn backup_refuses_existing_destination() {
    let mut run = BackupRun::new(2);
    assert_eq!(run.step(BackupEvent::Retrieved), BackupAction::Write(0));
    assert_eq!(run.step(BackupEvent::DestinationExists), BackupAction::Fail(0));
    assert_eq!(run.step(BackupEvent::Written), BackupAction::Fail(0));
    assert_eq!(run.pending(), BackupAction::Fail(0));
}

#[test]
fn backup_ignores_unexpected_event() {
    let mut run = BackupRun::new(2);
    assert_eq!(run.step(BackupEvent::Written), BackupAction::Retrieve(0));
    assert_eq!(run.step(BackupEvent::Answered(1)), BackupAction::Retrieve(0));
}

#[test]
fn setup_full_session_with_backup_and_patch() {
    let mut s = SetupRun::new();
    assert_eq!(s.stage, Stage::AskPlatform);
    assert_eq!(s.step(SetupEvent::Choice(1)), Stage::ConfirmAccess);
    assert_eq!(s.step(SetupEvent::Entered), Stage::AskAddress);
    assert_eq!(s.step(SetupEvent::Address(true)), Stage::Probe);
    assert_eq!(s.step(SetupEvent::Probed(2)), Stage::ChooseTitle);
    assert_eq!(s.step(SetupEvent::Choice(1)), Stage::AskModPath);
    assert_eq!(s.selected, 1);
    assert_eq!(s.step(SetupEvent::Entered), Stage::AskBackup);
    assert_eq!(s.step(SetupEvent::Choice(1)), Stage::AskBackupPath);
    assert_eq!(s.step(SetupEvent::Entered), Stage::Backup);
    assert_eq!(s.step(SetupEvent::Done), Stage::Install);
    assert_eq!(s.step(SetupEvent::Done), Stage::AskPatch);
    assert_eq!(s.step(SetupEvent::Choice(1)), Stage::InstallPatch);
    assert_eq!(s.step(SetupEvent::Done), Stage::Quit);
    assert!(!s.is_over());
    assert_eq!(s.step(SetupEvent::Done), Stage::Finished);
    assert!(s.is_over());
}

#[test]
fn setup_without_backup_or_patch() {
    let mut s = SetupRun::new();
    s.step(SetupEvent::Choice(1));
    s.step(SetupEvent::Entered);
    s.step(SetupEvent::Address(true));
    s.step(SetupEvent::Probed(1));
    assert_eq!(s.step(SetupEvent::Choice(0)), Stage::AskModPath);
    s.step(SetupEvent::Entered);
    assert_eq!(s.step(SetupEvent::Choice(2)), Stage::Install);
    assert_eq!(s.step(SetupEvent::Done), Stage::AskPatch);
    assert_eq!(s.step(SetupEvent::Choice(2)), Stage::Quit);
}

#[test]
fn setup_ends_early() {
    let mut s = SetupRun::new();
    assert_eq!(s.step(SetupEvent::Choice(2)), Stage::CemuUnsupported);
    assert!(s.is_over());

    let mut s = SetupRun::new();
    s.step(SetupEvent::Choice(1));
    s.step(SetupEvent::Entered);
    assert_eq!(s.step(SetupEvent::Address(false)), Stage::InvalidAddress);
    assert!(s.is_over());

    let mut s = SetupRun::new();
    s.step(SetupEvent::Choice(1));
    s.step(SetupEvent::Entered);
    s.step(SetupEvent::Address(true));
    assert_eq!(s.step(SetupEvent::Probed(0)), Stage::NotDetected);
    assert!(s.is_over());

    let mut s = SetupRun::new();
    s.step(SetupEvent::Choice(1));
    s.step(SetupEvent::Entered);
    s.step(SetupEvent::Address(true));
    s.step(SetupEvent::Probed(2));
    assert_eq!(s.step(SetupEvent::Choice(2)), Stage::InvalidChoice);
    assert!(s.is_over());
}
