use browser_steps::outcome::BrowserOutcome;
use browser_steps::supervisor::{LoopCommand, Supervisor};

#[test]
fn timeout_restarts_once_and_reruns_startup() {
    let mut s = Supervisor::new(2);
    assert_eq!(s.command(), LoopCommand::SwitchTab(0));
    s.tab_switched(true);
    assert_eq!(s.command(), LoopCommand::RunGroup { index: 0, startup: true });
    s.group_finished(&Err(BrowserOutcome::NoSuchElement("#a".to_string())));
    assert_eq!(s.command(), LoopCommand::SwitchTab(1));
    s.tab_switched(true);
    assert_eq!(s.command(), LoopCommand::RunGroup { index: 1, startup: true });
    s.group_finished(&Err(BrowserOutcome::MatchURLFail("u".to_string())));
    s.tab_switched(true);
    // group 0 again: its startup already ran
    assert_eq!(s.command(), LoopCommand::RunGroup { index: 0, startup: false });
    s.group_finished(&Err(BrowserOutcome::Timeout));
    assert_eq!(s.command(), LoopCommand::Restart);
    s.restarted();
    assert_eq!(s.command(), LoopCommand::SwitchTab(1));
    s.tab_switched(true);
    assert_eq!(s.command(), LoopCommand::RunGroup { index: 1, startup: true });
    s.group_finished(&Err(BrowserOutcome::EarlyEnd));
    s.tab_switched(true);
    assert_eq!(s.command(), LoopCommand::RunGroup { index: 0, startup: true });
}

#[test]
fn failed_tab_switch_restarts_without_stopping() {
    let mut s = Supervisor::new(3);
    s.tab_switched(false);
    assert_eq!(s.command(), LoopCommand::Restart);
    s.restarted();
    assert_eq!(s.command(), LoopCommand::SwitchTab(1));
}

#[test]
fn completed_group_closes_session() {
    let mut s = Supervisor::new(1);
    s.tab_switched(true);
    s.group_finished(&Ok(()));
    assert_eq!(s.command(), LoopCommand::Close);
    s.tab_switched(true);
    s.restarted();
    assert_eq!(s.command(), LoopCommand::Close);
}

#[test]
fn unexpected_and_client_lost_restart() {
    for e in [BrowserOutcome::Unexpected("x".to_string()), BrowserOutcome::ClientLost] {
        let mut s = Supervisor::new(1);
        s.tab_switched(true);
        s.group_finished(&Err(e));
        assert_eq!(s.command(), LoopCommand::Restart);
        s.restarted();
        assert_eq!(s.command(), LoopCommand::SwitchTab(0));
    }
}

#[test]
fn no_groups_means_nothing_to_do() {
    let s = Supervisor::new(0);
    assert_eq!(s.command(), LoopCommand::Close);
}

#[test]
fn reports_out_of_phase_change_nothing() {
    let mut s = Supervisor::new(2);
    s.group_finished(&Ok(()));
    s.restarted();
    assert_eq!(s.command(), LoopCommand::SwitchTab(0));
}
