use hover_rs::protocol::{
    check_admission, classify, exit_code, read_event, ChildAction, ChildEvent, ChildProtocol,
    ChildStatus, ExitOutcome, ParentAction, ParentEvent, ParentPhase, PrivilegeError, Wake,
};

#[test]
fn stacking_is_refused_first() {
    assert_eq!(check_admission(true, 1000), Err(PrivilegeError::Stacked));
    assert_eq!(check_admission(true, 0), Err(PrivilegeError::Stacked));
    let p = ParentPhase::start(true, 1000);
    assert_eq!(p.action(), ParentAction::Refuse(PrivilegeError::Stacked));
    assert_eq!(p.advance(ParentEvent::Succeeded), p);
}

#[test]
fn root_is_refused() {
    assert_eq!(check_admission(false, 0), Err(PrivilegeError::RunAsRoot));
    assert_eq!(check_admission(false, 1000), Ok(()));
    let p = ParentPhase::start(false, 0);
    assert_eq!(p.action(), ParentAction::Refuse(PrivilegeError::RunAsRoot));
    assert_eq!(p.advance(ParentEvent::Failed).action(), p.action());
}

fn run_parent(start: ParentPhase, events: &[ParentEvent]) -> Vec<ParentAction> {
    let mut p = start;
    let mut actions = vec![p.action()];
    for e in events {
        p = p.advance(*e);
        actions.push(p.action());
    }
    actions
}

#[test]
fn parent_maps_then_releases_then_waits() {
    let ok = ParentEvent::Succeeded;
    let events = [ok, ok, ok, ok, ok, ok, ok, ok, ok, ParentEvent::ChildEnded(ChildStatus::Exited(0))];
    let actions = run_parent(ParentPhase::start(false, 1000), &events);
    assert_eq!(
        actions,
        vec![
            ParentAction::Prepare,
            ParentAction::OpenChannel,
            ParentAction::SpawnChild,
            ParentAction::CloseReadEnd,
            ParentAction::ProbeCapabilities,
            ParentAction::WriteChildControl(0),
            ParentAction::WriteChildControl(1),
            ParentAction::WriteChildControl(2),
            ParentAction::CloseWriteEnd,
            ParentAction::AwaitChild,
            ParentAction::Exit(0),
        ]
    );
}

#[test]
fn parent_signals_failed_mapping_before_release() {
    let ok = ParentEvent::Succeeded;
    let events = [ok, ok, ok, ok, ParentEvent::Failed, ok, ParentEvent::Failed, ok, ok, ok];
    let actions = run_parent(ParentPhase::start(false, 1000), &events);
    assert_eq!(
        &actions[4..],
        &[
            ParentAction::ProbeCapabilities,
            ParentAction::WriteChildControl(0),
            ParentAction::WriteChildControl(1),
            ParentAction::SignalFailure,
            ParentAction::CloseWriteEnd,
            ParentAction::AwaitChild,
            ParentAction::Exit(1),
        ][..]
    );
}

#[test]
fn parent_fails_before_child_exists() {
    let actions = run_parent(ParentPhase::start(false, 1000), &[ParentEvent::Failed]);
    assert_eq!(actions, vec![ParentAction::Prepare, ParentAction::Exit(1)]);
}

#[test]
fn parent_reports_child_failure() {
    let ok = ParentEvent::Succeeded;
    let events = [ok, ok, ok, ok, ok, ok, ok, ok, ok, ParentEvent::ChildEnded(ChildStatus::Signaled(9))];
    let actions = run_parent(ParentPhase::start(false, 1000), &events);
    assert_eq!(actions.last(), Some(&ParentAction::Exit(137)));
}

fn run_child(steps: usize, events: &[ChildEvent]) -> Vec<ChildAction> {
    let mut c = ChildProtocol::new(steps);
    let mut actions = vec![c.action()];
    for e in events {
        c.advance(*e);
        actions.push(c.action());
    }
    actions
}

#[test]
fn child_waits_for_end_of_stream() {
    let ok = ChildEvent::Succeeded;
    let events = [ok, ChildEvent::Woken(Wake::EndOfStream), ok, ok, ok, ChildEvent::Failed];
    assert_eq!(
        run_child(2, &events),
        vec![
            ChildAction::CloseWriteEnd,
            ChildAction::AwaitParent,
            ChildAction::SetDeathSignal,
            ChildAction::RunStep(0),
            ChildAction::RunStep(1),
            ChildAction::ExecCommand,
            ChildAction::Exit(1),
        ]
    );
}

#[test]
fn child_stops_on_failure_byte() {
    let events = [ChildEvent::Succeeded, ChildEvent::Woken(Wake::Data), ChildEvent::Succeeded];
    assert_eq!(
        run_child(13, &events),
        vec![ChildAction::CloseWriteEnd, ChildAction::AwaitParent, ChildAction::Exit(1), ChildAction::Exit(1)]
    );
}

#[test]
fn child_stops_at_failing_step() {
    let ok = ChildEvent::Succeeded;
    let events = [ok, ChildEvent::Woken(Wake::EndOfStream), ok, ok, ChildEvent::Failed, ok];
    let actions = run_child(5, &events);
    assert_eq!(&actions[3..], &[ChildAction::RunStep(0), ChildAction::RunStep(1), ChildAction::Exit(1), ChildAction::Exit(1)][..]);
}

#[test]
fn read_results() {
    assert_eq!(read_event(Some(0)), ChildEvent::Woken(Wake::EndOfStream));
    assert_eq!(read_event(Some(1)), ChildEvent::Woken(Wake::Data));
    assert_eq!(read_event(None), ChildEvent::Failed);
}

#[test]
fn exit_outcomes() {
    assert_eq!(classify(ChildStatus::Exited(0)), ExitOutcome::Clean);
    assert_eq!(classify(ChildStatus::Exited(3)), ExitOutcome::Failed(3));
    assert_eq!(classify(ChildStatus::Signaled(15)), ExitOutcome::Killed(15));
    assert_eq!(classify(ChildStatus::Other), ExitOutcome::Abnormal);
    assert_eq!(exit_code(ExitOutcome::Clean), 0);
    assert_eq!(exit_code(ExitOutcome::Failed(3)), 3);
    assert_eq!(exit_code(ExitOutcome::Failed(300)), 1);
    assert_eq!(exit_code(ExitOutcome::Killed(15)), 143);
    assert_eq!(exit_code(ExitOutcome::Abnormal), 1);
}
