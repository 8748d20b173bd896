use oracle_lib::script::ScriptCommand;
use oracle_lib::script::ScriptEvent;
use oracle_lib::script::ScriptState;
use oracle_lib::script::next_step;
use oracle_lib::script::workspace_summary;

#[test]
fn summary_messages() {
    assert_eq!(workspace_summary(0, 0), "No workspaces found");
    assert_eq!(workspace_summary(5, 1), "Deleted 4 workspaces");
    assert_eq!(workspace_summary(1, 0), "Deleted 1 workspaces");
    assert_eq!(workspace_summary(3, 3), "Deleted 0 workspaces");
}

#[test]
fn scenario_no_workspaces_still_commits() {
    let (s, c) = next_step(ScriptState::Connecting, ScriptEvent::ConnectOk);
    assert_eq!(s, ScriptState::CountingBefore);
    assert_eq!(c, ScriptCommand::CountWorkspaces);

    let (s, c) = next_step(s, ScriptEvent::Counted { n: 0 });
    assert_eq!(s, ScriptState::Reporting { before: 0, after: 0 });
    assert_eq!(c, ScriptCommand::Report { message: "No workspaces found".to_string() });

    // No merge was commanded; the commit still is.
    let (s, c) = next_step(s, ScriptEvent::Printed);
    assert_eq!(s, ScriptState::Committing);
    assert_eq!(c, ScriptCommand::Commit);

    let (s, c) = next_step(s, ScriptEvent::CommitOk);
    assert_eq!(s, ScriptState::Closing);
    assert_eq!(c, ScriptCommand::Close);

    let (s, c) = next_step(s, ScriptEvent::CloseOk);
    assert_eq!(s, ScriptState::Done);
    assert_eq!(c, ScriptCommand::Finished);
}

#[test]
fn scenario_five_workspaces_merged_to_one() {
    let (s, _) = next_step(ScriptState::Connecting, ScriptEvent::ConnectOk);
    let (s, c) = next_step(s, ScriptEvent::Counted { n: 5 });
    assert_eq!(s, ScriptState::Merging { before: 5 });
    assert_eq!(c, ScriptCommand::MergeWorkspaces);

    let (s, c) = next_step(s, ScriptEvent::MergeFinished);
    assert_eq!(s, ScriptState::CountingAfter { before: 5 });
    assert_eq!(c, ScriptCommand::CountWorkspaces);

    let (s, c) = next_step(s, ScriptEvent::Counted { n: 1 });
    assert_eq!(s, ScriptState::Reporting { before: 5, after: 1 });
    assert_eq!(c, ScriptCommand::Report { message: "Deleted 4 workspaces".to_string() });

    let (s, c) = next_step(s, ScriptEvent::Printed);
    assert_eq!(s, ScriptState::Committing);
    assert_eq!(c, ScriptCommand::Commit);
}

#[test]
fn scenario_connect_failure_aborts_without_commit() {
    let (s, c) = next_step(ScriptState::Connecting, ScriptEvent::ConnectFailed);
    assert_eq!(s, ScriptState::Failed);
    assert_eq!(c, ScriptCommand::Abort);

    // Whatever still arrives, the failed session only ever aborts.
    let mut state = s;
    for e in [
        ScriptEvent::Counted { n: 3 },
        ScriptEvent::CommitOk,
        ScriptEvent::Printed,
    ] {
        let (s2, c2) = next_step(state, e);
        assert_eq!(s2, ScriptState::Failed);
        assert_ne!(c2, ScriptCommand::Commit);
        assert_eq!(c2, ScriptCommand::Abort);
        state = s2;
    }
}

#[test]
fn failures_late_in_the_session_abort() {
    let (s, _) = next_step(ScriptState::Connecting, ScriptEvent::ConnectOk);
    let (s2, c2) = next_step(s, ScriptEvent::QueryFailed);
    assert_eq!(s2, ScriptState::Failed);
    assert_eq!(c2, ScriptCommand::Abort);

    let (s3, c3) = next_step(ScriptState::Committing, ScriptEvent::CommitFailed);
    assert_eq!(s3, ScriptState::Failed);
    assert_eq!(c3, ScriptCommand::Abort);

    let (s4, c4) = next_step(ScriptState::Closing, ScriptEvent::CloseFailed);
    assert_eq!(s4, ScriptState::Failed);
    assert_eq!(c4, ScriptCommand::Abort);
}
