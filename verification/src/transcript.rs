//! The course of a session, seen from outside: the actions that come due
//! one after another, and what holds of them whatever the tools do.

use crate::command::CommandView;
use crate::outcome::{install_failed, ran, RunView, StatusView};
use crate::search_path::{bin_dir, lemma_bin_path_occurrences, with_bin_path};
use crate::session::{not_found_notice, ActionView, SessionView, StageView};
use vstd::prelude::*;

verus! {

impl SessionView {
    /// The actions that come due, in order, for a caller who performs each
    /// and hands back the reports `reports` one by one: up to the action
    /// that finishes, or up to the one for which no report is left.
    pub open spec fn transcript(self, reports: Seq<StatusView>) -> Seq<ActionView>
        decreases reports.len(),
    {
        if self.stage is Finished || reports.len() == 0 {
            seq![self.action()]
        } else {
            seq![self.action()] + self.step(reports[0]).transcript(reports.drop_first())
        }
    }

    /// The most reports that the session still takes before it is finished.
    pub open spec fn steps_left(self) -> nat {
        match self.stage {
            StageView::FirstRun => 3,
            StageView::Installing => 2,
            StageView::SecondRun => 1,
            StageView::Finished(_) => 0,
        }
    }

    /// The most runs of the tool that are still to come.
    pub open spec fn runs_left(self) -> nat {
        match self.stage {
            StageView::FirstRun => 2,
            StageView::Installing => 1,
            StageView::SecondRun => 1,
            StageView::Finished(_) => 0,
        }
    }

    /// The most installations that are still to come.
    pub open spec fn installs_left(self) -> nat {
        match self.stage {
            StageView::FirstRun => 1,
            StageView::Installing => 1,
            StageView::SecondRun => 0,
            StageView::Finished(_) => 0,
        }
    }
}

/// How many of `actions` run the tool.
pub open spec fn runs(actions: Seq<ActionView>) -> nat
    decreases actions.len(),
{
    if actions.len() == 0 {
        0
    } else if actions[0] is Run {
        1 + runs(actions.drop_first())
    } else {
        runs(actions.drop_first())
    }
}

/// How many of `actions` install the tool.
pub open spec fn installs(actions: Seq<ActionView>) -> nat
    decreases actions.len(),
{
    if actions.len() == 0 {
        0
    } else if actions[0] is Install {
        1 + installs(actions.drop_first())
    } else {
        installs(actions.drop_first())
    }
}

/// The report of a program that was not found, whatever the system's
/// message.
pub open spec fn is_not_found(status: StatusView) -> bool {
    status matches StatusView::SpawnFailed { not_found, .. } && not_found
}

/// The report of a program that left with the exit code zero.
pub open spec fn is_success(status: StatusView) -> bool {
    status == (StatusView::Exited { success: true })
}

/// Runs and installations are counted action by action.
proof fn lemma_count_front(first: ActionView, rest: Seq<ActionView>)
    ensures
        runs(seq![first] + rest) == runs(seq![first]) + runs(rest),
        installs(seq![first] + rest) == installs(seq![first]) + installs(rest),
        runs(seq![first]) == (if first is Run { 1nat } else { 0nat }),
        installs(seq![first]) == (if first is Install { 1nat } else { 0nat }),
{
    assert((seq![first] + rest).drop_first() =~= rest);
    assert(seq![first].drop_first() =~= Seq::<ActionView>::empty());
    assert(runs(Seq::<ActionView>::empty()) == 0);
    assert(installs(Seq::<ActionView>::empty()) == 0);
}

/// A session never takes more than three reports, never runs its tool
/// more than twice and never installs it more than once, whatever is
/// reported to it.
pub proof fn lemma_session_bounded(session: SessionView, reports: Seq<StatusView>)
    ensures
        session.transcript(reports).len() <= session.steps_left() + 1,
        runs(session.transcript(reports)) <= session.runs_left(),
        installs(session.transcript(reports)) <= session.installs_left(),
        reports.len() >= session.steps_left() ==> session.transcript(reports).last() is Finish,
    decreases reports.len(),
{
    if session.stage is Finished || reports.len() == 0 {
        lemma_count_front(session.action(), Seq::empty());
    } else {
        let next = session.step(reports[0]);
        let rest = next.transcript(reports.drop_first());
        lemma_session_bounded(next, reports.drop_first());
        lemma_count_front(session.action(), rest);
        assert((seq![session.action()] + rest).last() == rest.last());
    }
}

/// Every run in a session starts the session's own command, search path
/// included, and every installation is that of the command's program.
pub proof fn lemma_session_commands(session: SessionView, reports: Seq<StatusView>, i: int)
    requires
        0 <= i < session.transcript(reports).len(),
    ensures
        session.transcript(reports)[i] is Run ==> session.transcript(reports)[i]
            == ActionView::Run(session.command),
        session.transcript(reports)[i] is Install ==> session.transcript(reports)[i] == (
        ActionView::Install {
            notice: not_found_notice(session.name()),
            command: CommandView::install(session.name()),
        }),
    decreases reports.len(),
{
    if session.stage is Finished || reports.len() == 0 {
    } else if i > 0 {
        lemma_session_commands(session.step(reports[0]), reports.drop_first(), i - 1);
    }
}

/// Every run of a session that was begun starts the tool with the
/// inherited search path and `./bin` on it.
pub proof fn lemma_runs_with_bin_path(
    command: CommandView,
    no_install: bool,
    inherited: Seq<Seq<char>>,
    reports: Seq<StatusView>,
    i: int,
)
    requires
        0 <= i < SessionView::begun(command, no_install, inherited).transcript(reports).len(),
        SessionView::begun(command, no_install, inherited).transcript(reports)[i] is Run,
    ensures
        ({
            let run = SessionView::begun(command, no_install, inherited).transcript(reports)[i];
            &&& run->Run_0.program == command.program
            &&& run->Run_0.args == command.args
            &&& run->Run_0.path == Some(with_bin_path(inherited))
            &&& with_bin_path(inherited).contains(bin_dir())
        }),
{
    lemma_session_commands(SessionView::begun(command, no_install, inherited), reports, i);
    lemma_bin_path_occurrences(inherited);
}

/// Where the tool is not found and must not be installed, the session
/// ends in success after the one run, and nothing is installed.
pub proof fn lemma_missing_tool_skipped(
    command: CommandView,
    inherited: Seq<Seq<char>>,
    reports: Seq<StatusView>,
)
    requires
        reports.len() >= 1,
        is_not_found(reports[0]),
    ensures
        ({
            let session = SessionView::begun(command, true, inherited);
            &&& session.transcript(reports) == seq![
                ActionView::Run(session.command),
                ActionView::Finish(Ok(())),
            ]
            &&& installs(session.transcript(reports)) == 0
            &&& runs(session.transcript(reports)) == 1
        }),
{
    let first = SessionView::begun(command, true, inherited);
    let second = first.step(reports[0]);
    assert(second.stage == StageView::Finished(Ok(())));
    assert(second.transcript(reports.drop_first()) == seq![second.action()]);
    assert(first.transcript(reports) =~= seq![first.action(), second.action()]);
    lemma_count_front(first.action(), seq![second.action()]);
    lemma_count_front(second.action(), Seq::empty());
}

/// The course of a session that finds its tool missing and installs it:
/// run, install, run, and the result that the second run decides.
pub proof fn lemma_install_and_retry(first: SessionView, reports: Seq<StatusView>)
    requires
        first.stage is FirstRun,
        !first.no_install,
        reports.len() >= 3,
        is_not_found(reports[0]),
        is_success(reports[1]),
    ensures
        first.transcript(reports) == seq![
            ActionView::Run(first.command),
            ActionView::Install {
                notice: not_found_notice(first.name()),
                command: CommandView::install(first.name()),
            },
            ActionView::Run(first.command),
            ActionView::Finish(
                match ran(first.name(), reports[2]) {
                    RunView::Success => Ok(()),
                    RunView::NotFound => Err(install_failed(first.name())),
                    RunView::Failed(message) => Err(message),
                },
            ),
        ],
        installs(first.transcript(reports)) == 1,
        runs(first.transcript(reports)) == 2,
{
    let second = first.step(reports[0]);
    let third = second.step(reports[1]);
    let fourth = third.step(reports[2]);
    let after_first = reports.drop_first();
    let after_second = after_first.drop_first();
    let after_third = after_second.drop_first();
    let tail4 = fourth.transcript(after_third);
    let tail3 = third.transcript(after_second);
    let tail2 = second.transcript(after_first);
    assert(tail4 == seq![fourth.action()]);
    assert(tail3 == seq![third.action()] + tail4);
    assert(tail2 == seq![second.action()] + tail3);
    assert(first.transcript(reports) =~= seq![
        first.action(),
        second.action(),
        third.action(),
        fourth.action(),
    ]);
    lemma_count_front(fourth.action(), Seq::empty());
    lemma_count_front(third.action(), tail4);
    lemma_count_front(second.action(), tail3);
    lemma_count_front(first.action(), tail2);
}

/// Where the tool is not found at first, may be installed, is installed
/// and then runs, the session ends in success after two runs and exactly
/// one installation between them.
pub proof fn lemma_missing_tool_installed(
    command: CommandView,
    inherited: Seq<Seq<char>>,
    reports: Seq<StatusView>,
)
    requires
        reports.len() >= 3,
        is_not_found(reports[0]),
        is_success(reports[1]),
        is_success(reports[2]),
    ensures
        ({
            let session = SessionView::begun(command, false, inherited);
            &&& session.transcript(reports) == seq![
                ActionView::Run(session.command),
                ActionView::Install {
                    notice: not_found_notice(command.program),
                    command: CommandView::install(command.program),
                },
                ActionView::Run(session.command),
                ActionView::Finish(Ok(())),
            ]
            &&& installs(session.transcript(reports)) == 1
            &&& runs(session.transcript(reports)) == 2
        }),
{
    lemma_install_and_retry(SessionView::begun(command, false, inherited), reports);
}

/// Where the tool is not found at first, may be installed, the
/// installation reports success and the tool is still not found, the
/// session ends in the error that the tool could not be installed, after
/// exactly two runs.
pub proof fn lemma_missing_tool_still_missing(
    command: CommandView,
    inherited: Seq<Seq<char>>,
    reports: Seq<StatusView>,
)
    requires
        reports.len() >= 3,
        is_not_found(reports[0]),
        is_success(reports[1]),
        is_not_found(reports[2]),
    ensures
        ({
            let session = SessionView::begun(command, false, inherited);
            &&& session.transcript(reports) == seq![
                ActionView::Run(session.command),
                ActionView::Install {
                    notice: not_found_notice(command.program),
                    command: CommandView::install(command.program),
                },
                ActionView::Run(session.command),
                ActionView::Finish(Err(install_failed(command.program))),
            ]
            &&& installs(session.transcript(reports)) == 1
            &&& runs(session.transcript(reports)) == 2
        }),
{
    lemma_install_and_retry(SessionView::begun(command, false, inherited), reports);
}

/// A failure of the first run that is not a missing tool ends the session
/// at once, with its message: nothing is installed and nothing is run
/// again.
pub proof fn lemma_failure_is_final(
    command: CommandView,
    no_install: bool,
    inherited: Seq<Seq<char>>,
    reports: Seq<StatusView>,
)
    requires
        reports.len() >= 1,
        ran(command.program, reports[0]) is Failed,
    ensures
        ({
            let session = SessionView::begun(command, no_install, inherited);
            &&& session.transcript(reports) == seq![
                ActionView::Run(session.command),
                ActionView::Finish(Err(ran(command.program, reports[0])->Failed_0)),
            ]
            &&& installs(session.transcript(reports)) == 0
            &&& runs(session.transcript(reports)) == 1
        }),
{
    let first = SessionView::begun(command, no_install, inherited);
    let second = first.step(reports[0]);
    assert(second.stage is Finished);
    assert(second.transcript(reports.drop_first()) == seq![second.action()]);
    assert(first.transcript(reports) =~= seq![first.action(), second.action()]);
    lemma_count_front(first.action(), seq![second.action()]);
    lemma_count_front(second.action(), Seq::empty());
}

/// A session that must not install never does, whatever is reported to
/// it: it is over after its one run.
pub proof fn lemma_no_install_never_installs(
    command: CommandView,
    inherited: Seq<Seq<char>>,
    reports: Seq<StatusView>,
)
    ensures
        installs(SessionView::begun(command, true, inherited).transcript(reports)) == 0,
        runs(SessionView::begun(command, true, inherited).transcript(reports)) == 1,
{
    let first = SessionView::begun(command, true, inherited);
    if reports.len() == 0 {
        lemma_count_front(first.action(), Seq::empty());
    } else {
        let second = first.step(reports[0]);
        assert(second.stage is Finished);
        assert(second.transcript(reports.drop_first()) == seq![second.action()]);
        lemma_count_front(first.action(), seq![second.action()]);
        lemma_count_front(second.action(), Seq::empty());
    }
}

} // verus!
