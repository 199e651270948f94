use companion_bot::alerts::{alerts_refusal, change_reply, command_kind, role_change, CommandKind, Reply, RoleChange};
use companion_bot::error::BotError;
use companion_bot::scheduler::{Scheduler, SchedulerAction, SchedulerEvent, SchedulerState};
use companion_bot::settings::Settings;

#[test]
fn scheduler_rotates_at_once_then_waits() {
    let mut s = Scheduler::new();
    assert_eq!(s.step(SchedulerEvent::Activated), SchedulerAction::ApplyRotation);
    assert_eq!(s.rotation_finished(2, 2), SchedulerAction::Wait { seconds: 7_200 });
    assert_eq!(s.state, SchedulerState::Waiting);
    assert_eq!(s.step(SchedulerEvent::WaitElapsed), SchedulerAction::ApplyRotation);
    assert_eq!(s.state, SchedulerState::Applying);
}

#[test]
fn scheduler_stops_when_disabled() {
    let mut s = Scheduler::new();
    s.step(SchedulerEvent::Activated);
    assert_eq!(s.rotation_finished(4, 0), SchedulerAction::Stop);
    assert_eq!(s.state, SchedulerState::Stopped);
    assert_eq!(s.step(SchedulerEvent::WaitElapsed), SchedulerAction::Ignore);
    assert_eq!(s.step(SchedulerEvent::Activated), SchedulerAction::Ignore);
    assert_eq!(s.state, SchedulerState::Stopped);
}

#[test]
fn scheduler_aborts_on_configuration_error() {
    let mut s = Scheduler::new();
    s.step(SchedulerEvent::Activated);
    assert_eq!(s.rotation_finished(5, 2), SchedulerAction::Abort(BotError::Configuration));
    assert_eq!(s.state, SchedulerState::Stopped);
}

#[test]
fn scheduler_ignores_events_out_of_order() {
    let mut s = Scheduler::new();
    assert_eq!(s.step(SchedulerEvent::WaitElapsed), SchedulerAction::Ignore);
    assert_eq!(s.state, SchedulerState::Idle);
    s.step(SchedulerEvent::Activated);
    assert_eq!(s.step(SchedulerEvent::Activated), SchedulerAction::Ignore);
    assert_eq!(s.step(SchedulerEvent::RotationFinished { delay: Ok(Some(60)) }), SchedulerAction::Wait { seconds: 60 });
}

#[test]
fn commands_by_name() {
    assert_eq!(command_kind("alerts"), CommandKind::Alerts);
    assert_eq!(command_kind("Alerts"), CommandKind::Unknown);
    assert_eq!(command_kind("alert"), CommandKind::Unknown);
    assert_eq!(command_kind(""), CommandKind::Unknown);
    assert_eq!(Reply::UnknownCommand.message(), "Unknown command");
}

#[test]
fn alerts_refusals() {
    assert_eq!(alerts_refusal(1, 9, None), Some(Reply::NotInGuild));
    assert_eq!(alerts_refusal(1, 9, Some(2)), Some(Reply::WrongGuild));
    assert_eq!(alerts_refusal(1, 0, Some(1)), Some(Reply::RoleNotConfigured));
    assert_eq!(alerts_refusal(1, 9, Some(1)), None);
    assert_eq!(Reply::NotInGuild.message(), "This command can only be used in a guild");
    assert_eq!(Reply::WrongGuild.message(), "This command is not available in this guild");
    assert_eq!(
        Reply::RoleNotConfigured.message(),
        "Alerts role is not configured. Please contact an administrator."
    );
}

#[test]
fn alerts_role_toggles() {
    assert_eq!(role_change(&vec![3, 9, 4], 9), RoleChange::Remove);
    assert_eq!(role_change(&vec![3, 4], 9), RoleChange::Add);
    assert_eq!(role_change(&vec![], 9), RoleChange::Add);
    assert_eq!(change_reply(RoleChange::Add, true), Reply::Added);
    assert_eq!(change_reply(RoleChange::Add, false), Reply::AddFailed);
    assert_eq!(change_reply(RoleChange::Remove, true), Reply::Removed);
    assert_eq!(change_reply(RoleChange::Remove, false), Reply::RemoveFailed);
    assert_eq!(Reply::Added.message(), "Successfully added the alerts role!");
    assert_eq!(Reply::RemoveFailed.message(), "Failed to remove the alerts role. Please contact an administrator.");
    assert!(Reply::Removed.is_success());
    assert!(!Reply::AddFailed.is_success());
    assert_eq!(RoleChange::Add.past_tense(), "added");
    assert_eq!(RoleChange::Remove.past_tense(), "removed");
}

#[test]
fn settings_give_access_config() {
    let s = Settings {
        guild: 1,
        voice: 2,
        video: 3,
        alerts: 4,
        server_icons_unused: String::from("u"),
        server_icons_used: String::from("s"),
        server_icons_delay_min_hours: 1,
        server_icons_delay_max_hours: 2,
    };
    let a = s.access();
    assert_eq!((a.guild, a.companion, a.restricted), (1, 2, 3));
}
