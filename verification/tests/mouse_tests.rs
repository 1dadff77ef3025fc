use keep_awake::mouse::{next_action, nudge_moves, phase_after, JigglerAction, JigglerPhase};

#[test]
fn waiting_phase() {
    assert_eq!(next_action(JigglerPhase::Waiting, true, false), JigglerAction::SleepInterval);
    assert_eq!(next_action(JigglerPhase::Waiting, false, false), JigglerAction::SleepInterval);
    assert_eq!(next_action(JigglerPhase::Waiting, true, true), JigglerAction::Finish);
}

#[test]
fn woken_phase() {
    assert_eq!(next_action(JigglerPhase::Woken, true, false), JigglerAction::Nudge);
    assert_eq!(next_action(JigglerPhase::Woken, false, false), JigglerAction::Finish);
    assert_eq!(next_action(JigglerPhase::Woken, true, true), JigglerAction::Finish);
}

#[test]
fn nudge_goes_right_and_back() {
    let n = nudge_moves(100, 200);
    assert_eq!(n.out, (101, 200));
    assert_eq!(n.back, (100, 200));
    let edge = nudge_moves(i32::MAX - 1, -5);
    assert_eq!(edge.out, (i32::MAX, -5));
    assert_eq!(edge.back, (i32::MAX - 1, -5));
}

#[test]
fn finished_loop_never_resumes() {
    assert_eq!(phase_after(JigglerAction::SleepInterval), JigglerPhase::Woken);
    assert_eq!(phase_after(JigglerAction::Nudge), JigglerPhase::Waiting);
    let a = next_action(JigglerPhase::Woken, false, false);
    assert_eq!(a, JigglerAction::Finish);
    let done = phase_after(a);
    assert_eq!(done, JigglerPhase::Done);
    for (running, stop) in [(true, false), (false, false), (true, true)] {
        assert_eq!(next_action(done, running, stop), JigglerAction::Finish);
    }
}
