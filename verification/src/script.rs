//! The administrative session: a one-shot script that counts the
//! workspaces outside the live one, merges them when there are any,
//! reports what happened, commits, and closes.
//!
//! The session is a state machine. The surrounding process performs each
//! commanded step against the database and hands the outcome back as an
//! event; `next_step` decides what follows. Any failure of a connect,
//! count, commit or close moves the session to `Failed`, from which
//! nothing but `Abort` is ever commanded — in particular, no commit. The
//! merge call's own outcome is deliberately ignored: the recount after it
//! is the report of record.

use vstd::prelude::*;

verus! {

use vstd::string::StringExecFns;
use crate::strutil::dec_spec;
use crate::strutil::u64_to_dec;

/// Where the session stands.
#[derive(PartialEq, Eq, Structural, Clone, Copy, Debug)]
pub enum ScriptState {
    /// Awaiting the outcome of the connection attempt.
    Connecting,
    /// Awaiting the workspace count before any merge.
    CountingBefore,
    /// Awaiting the end of the merge call; `before` workspaces were found.
    Merging { before: u64 },
    /// Awaiting the workspace count after the merge.
    CountingAfter { before: u64 },
    /// Awaiting the summary line being printed.
    Reporting { before: u64, after: u64 },
    /// Awaiting the outcome of the commit.
    Committing,
    /// Awaiting the outcome of closing the connection.
    Closing,
    /// The session finished.
    Done,
    /// The session aborted; nothing further happens.
    Failed,
}

/// What the database or the console answered.
#[derive(PartialEq, Eq, Structural, Clone, Copy, Debug)]
pub enum ScriptEvent {
    ConnectOk,
    ConnectFailed,
    Counted { n: u64 },
    QueryFailed,
    MergeFinished,
    Printed,
    CommitOk,
    CommitFailed,
    CloseOk,
    CloseFailed,
}

/// What the surrounding process must perform next, at the model level.
pub enum CommandSpec {
    CountWorkspaces,
    MergeWorkspaces,
    Report(Seq<char>),
    Commit,
    Close,
    Abort,
    Finished,
}

/// What the surrounding process must perform next.
#[derive(PartialEq, Eq, Debug)]
pub enum ScriptCommand {
    /// Query the number of workspaces beside the live one.
    CountWorkspaces,
    /// Run the merge procedure over all of them.
    MergeWorkspaces,
    /// Print the summary line.
    Report { message: String },
    /// Commit the transaction.
    Commit,
    /// Close the connection.
    Close,
    /// Stop; report the failure to the operator.
    Abort,
    /// Stop; the session succeeded.
    Finished,
}

impl View for ScriptCommand {
    type V = CommandSpec;

    open spec fn view(&self) -> CommandSpec {
        match self {
            ScriptCommand::CountWorkspaces => CommandSpec::CountWorkspaces,
            ScriptCommand::MergeWorkspaces => CommandSpec::MergeWorkspaces,
            ScriptCommand::Report { message } => CommandSpec::Report(message@),
            ScriptCommand::Commit => CommandSpec::Commit,
            ScriptCommand::Close => CommandSpec::Close,
            ScriptCommand::Abort => CommandSpec::Abort,
            ScriptCommand::Finished => CommandSpec::Finished,
        }
    }
}

/// The summary line: how many workspaces the merge removed, or that none
/// were found to begin with.
pub open spec fn report_spec(before: nat, after: nat) -> Seq<char> {
    if before == 0 {
        "No workspaces found"@
    } else {
        "Deleted "@ + dec_spec((before - after) as nat) + " workspaces"@
    }
}

/// The session step function, at the model level. Events that their state
/// cannot answer with sense (including any event in a finished session)
/// fail the session.
pub open spec fn step_spec(s: ScriptState, e: ScriptEvent) -> (ScriptState, CommandSpec) {
    match (s, e) {
        (ScriptState::Connecting, ScriptEvent::ConnectOk) => (
            ScriptState::CountingBefore,
            CommandSpec::CountWorkspaces,
        ),
        (ScriptState::CountingBefore, ScriptEvent::Counted { n }) => if n == 0 {
            (ScriptState::Reporting { before: 0, after: 0 }, CommandSpec::Report(report_spec(0, 0)))
        } else {
            (ScriptState::Merging { before: n }, CommandSpec::MergeWorkspaces)
        },
        (ScriptState::Merging { before }, ScriptEvent::MergeFinished) => (
            ScriptState::CountingAfter { before },
            CommandSpec::CountWorkspaces,
        ),
        (ScriptState::CountingAfter { before }, ScriptEvent::Counted { n }) => (
            ScriptState::Reporting { before, after: n },
            CommandSpec::Report(report_spec(before as nat, n as nat)),
        ),
        (ScriptState::Reporting { .. }, ScriptEvent::Printed) => (
            ScriptState::Committing,
            CommandSpec::Commit,
        ),
        (ScriptState::Committing, ScriptEvent::CommitOk) => (ScriptState::Closing, CommandSpec::Close),
        (ScriptState::Closing, ScriptEvent::CloseOk) => (ScriptState::Done, CommandSpec::Finished),
        _ => (ScriptState::Failed, CommandSpec::Abort),
    }
}

/// The events a state can answer without failing, and within the machine
/// limits (a recount never exceeds the count before the merge).
pub open spec fn event_fits(s: ScriptState, e: ScriptEvent) -> bool {
    match s {
        ScriptState::Connecting => e is ConnectOk,
        ScriptState::CountingBefore => e is Counted,
        ScriptState::Merging { .. } => e is MergeFinished,
        ScriptState::CountingAfter { before } => e matches ScriptEvent::Counted { n } && n
            <= before,
        ScriptState::Reporting { .. } => e is Printed,
        ScriptState::Committing => e is CommitOk,
        ScriptState::Closing => e is CloseOk,
        ScriptState::Done => false,
        ScriptState::Failed => false,
    }
}

/// Renders the summary line for a session that counted `before`
/// workspaces and then `after`.
pub fn workspace_summary(before: u64, after: u64) -> (r: String)
    requires
        after <= before,
    ensures
        r@ == report_spec(before as nat, after as nat),
{
    if before == 0 {
        "No workspaces found".to_owned()
    } else {
        let mut r = "Deleted ".to_owned();
        r.append(u64_to_dec(before - after).as_str());
        r.append(" workspaces");
        r
    }
}

/// One step of the session: the event that resolved the pending command
/// goes in, the next command comes out. Implements `step_spec` exactly;
/// failure events are allowed in every waiting state and move the session
/// to `Failed` with an `Abort` command.
pub fn next_step(s: ScriptState, e: ScriptEvent) -> (r: (ScriptState, ScriptCommand))
    requires
        event_fits(s, e) || step_spec(s, e).0 is Failed,
    ensures
        r.0 == step_spec(s, e).0,
        r.1@ == step_spec(s, e).1,
{
    match (s, e) {
        (ScriptState::Connecting, ScriptEvent::ConnectOk) => (
            ScriptState::CountingBefore,
            ScriptCommand::CountWorkspaces,
        ),
        (ScriptState::CountingBefore, ScriptEvent::Counted { n }) => if n == 0 {
            (
                ScriptState::Reporting { before: 0, after: 0 },
                ScriptCommand::Report { message: workspace_summary(0, 0) },
            )
        } else {
            (ScriptState::Merging { before: n }, ScriptCommand::MergeWorkspaces)
        },
        (ScriptState::Merging { before }, ScriptEvent::MergeFinished) => (
            ScriptState::CountingAfter { before },
            ScriptCommand::CountWorkspaces,
        ),
        (ScriptState::CountingAfter { before }, ScriptEvent::Counted { n }) => (
            ScriptState::Reporting { before, after: n },
            ScriptCommand::Report { message: workspace_summary(before, n) },
        ),
        (ScriptState::Reporting { .. }, ScriptEvent::Printed) => (
            ScriptState::Committing,
            ScriptCommand::Commit,
        ),
        (ScriptState::Committing, ScriptEvent::CommitOk) => (
            ScriptState::Closing,
            ScriptCommand::Close,
        ),
        (ScriptState::Closing, ScriptEvent::CloseOk) => (ScriptState::Done, ScriptCommand::Finished),
        _ => (ScriptState::Failed, ScriptCommand::Abort),
    }
}

/// The commands a whole session run issues, one per event, from `s` on.
pub open spec fn run_commands(s: ScriptState, events: Seq<ScriptEvent>) -> Seq<CommandSpec>
    decreases events.len(),
{
    if events.len() == 0 {
        Seq::empty()
    } else {
        let step = step_spec(s, events[0]);
        seq![step.1] + run_commands(step.0, events.drop_first())
    }
}

/// No command of the run is a commit.
pub open spec fn no_commit(cmds: Seq<CommandSpec>) -> bool {
    forall|i: int| 0 <= i < cmds.len() ==> !((#[trigger] cmds[i]) is Commit)
}

/// A failed session never commits, whatever events still arrive.
pub proof fn lemma_failed_never_commits(events: Seq<ScriptEvent>)
    ensures
        no_commit(run_commands(ScriptState::Failed, events)),
    decreases events.len(),
{
    if events.len() > 0 {
        lemma_failed_never_commits(events.drop_first());
        let cmds = run_commands(ScriptState::Failed, events);
        let rest = run_commands(ScriptState::Failed, events.drop_first());
        assert forall|i: int| 0 <= i < cmds.len() implies !((#[trigger] cmds[i]) is Commit) by {
            if i > 0 {
                assert(cmds[i] == rest[i - 1]);
            }
        }
    }
}

/// Law: if the connection attempt fails, the session aborts at once and
/// never commits — whatever else would have followed.
pub proof fn lemma_no_commit_after_connect_failure(events: Seq<ScriptEvent>)
    ensures
        no_commit(
            run_commands(ScriptState::Connecting, seq![ScriptEvent::ConnectFailed] + events),
        ),
{
    let all = seq![ScriptEvent::ConnectFailed] + events;
    assert(step_spec(ScriptState::Connecting, all[0]).0 == ScriptState::Failed);
    lemma_failed_never_commits(all.drop_first());
    let cmds = run_commands(ScriptState::Connecting, all);
    let rest = run_commands(ScriptState::Failed, all.drop_first());
    assert forall|i: int| 0 <= i < cmds.len() implies !((#[trigger] cmds[i]) is Commit) by {
        if i > 0 {
            assert(cmds[i] == rest[i - 1]);
        }
    }
}

} // verus!
