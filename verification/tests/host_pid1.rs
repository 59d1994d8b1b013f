use rinit::host::{get_host_address, host_address};
use rinit::mode::Mode;
use rinit::pid1::{
    is_pid1, pid_is_init, reap_step, reboot_mode, signal_action, to_final, to_system_action,
    FinalAction, RebootMode, ReapStep, ShutdownSignal, WaitOutcome,
};
use rinit::request::SystemAction;

#[test]
fn host_address_for_project_is_local() {
    assert_eq!(host_address(Mode::Project, 0), "rsvc.socket");
    assert_eq!(host_address(Mode::Project, 1000), "rsvc.socket");
}

#[test]
fn host_address_for_root() {
    assert_eq!(host_address(Mode::Root, 0), "/run/rinit/.socket");
    assert_eq!(host_address(Mode::User, 0), "/run/rinit/.socket");
}

#[test]
fn host_address_for_users() {
    assert_eq!(host_address(Mode::User, 1000), "/run/user/1000/rinit/.socket");
    assert_eq!(host_address(Mode::Root, 7), "/run/user/7/rinit/.socket");
    assert_eq!(host_address(Mode::User, 10), "/run/user/10/rinit/.socket");
    assert_eq!(
        host_address(Mode::User, u32::MAX),
        format!("/run/user/{}/rinit/.socket", u32::MAX)
    );
}

#[test]
fn host_address_distinct_users_distinct_sockets() {
    assert_ne!(host_address(Mode::User, 1), host_address(Mode::User, 10));
    assert_ne!(host_address(Mode::User, 0), host_address(Mode::User, 1));
}

#[test]
fn get_host_address_uses_the_process_user() {
    let uid = nix::unistd::getuid().as_raw();
    assert_eq!(get_host_address(Mode::User), host_address(Mode::User, uid));
    assert_eq!(get_host_address(Mode::Root), host_address(Mode::Root, uid));
    assert_eq!(get_host_address(Mode::Project), "rsvc.socket");
}

#[test]
fn pid1_detection() {
    assert!(pid_is_init(1));
    assert!(!pid_is_init(0));
    assert!(!pid_is_init(2));
    let pid = nix::unistd::getpid().as_raw();
    assert_eq!(is_pid1(), pid == 1);
}

#[test]
fn final_actions_follow_system_actions() {
    assert_eq!(to_final(SystemAction::Poweroff), FinalAction::Poweroff);
    assert_eq!(to_final(SystemAction::Reboot), FinalAction::Reboot);
    assert_eq!(to_final(SystemAction::Halt), FinalAction::Halt);
}

#[test]
fn final_action_roundtrip() {
    for f in [FinalAction::Poweroff, FinalAction::Reboot, FinalAction::Halt] {
        assert_eq!(to_final(to_system_action(f)), f);
    }
    for a in [SystemAction::Poweroff, SystemAction::Reboot, SystemAction::Halt] {
        assert_eq!(to_system_action(to_final(a)), a);
    }
}

#[test]
fn signals_choose_final_action() {
    assert_eq!(signal_action(ShutdownSignal::Interrupt), FinalAction::Poweroff);
    assert_eq!(signal_action(ShutdownSignal::Terminate), FinalAction::Poweroff);
    assert_eq!(signal_action(ShutdownSignal::User1), FinalAction::Reboot);
    assert_eq!(signal_action(ShutdownSignal::User2), FinalAction::Poweroff);
}

#[test]
fn reboot_modes() {
    assert_eq!(reboot_mode(FinalAction::Poweroff), RebootMode::PowerOff);
    assert_eq!(reboot_mode(FinalAction::Reboot), RebootMode::Autoboot);
    assert_eq!(reboot_mode(FinalAction::Halt), RebootMode::HaltSystem);
}

#[test]
fn reaper_steps() {
    assert_eq!(reap_step(WaitOutcome::StillAlive), ReapStep::Sleep);
    assert_eq!(reap_step(WaitOutcome::Reaped), ReapStep::WaitAgain);
    assert_eq!(reap_step(WaitOutcome::NoChild), ReapStep::Sleep);
    assert_eq!(reap_step(WaitOutcome::Interrupted), ReapStep::WaitAgain);
    assert_eq!(reap_step(WaitOutcome::Failed), ReapStep::Sleep);
}

#[test]
fn root_and_user_share_a_socket() {
    for uid in [0u32, 1, 1000] {
        assert_eq!(host_address(Mode::Root, uid), host_address(Mode::User, uid));
    }
}
