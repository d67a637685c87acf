//! One run of the runner: try the tool, install it on demand, try once more.
//!
//! A [`Session`] makes the decisions and leaves the work to its caller. The
//! caller asks for the [`Action`] that is due, performs it, and hands back
//! what the operating system reported, until the action is to finish.
//!
//! First the tool is run, with `./bin` on its search path. Where it ran,
//! that is the result. Where it is not installed and the session may not
//! install it, the session ends in success with nothing done. Every other
//! failure ends the session at once. Then the tool is installed, and a
//! failure here ends the session too. Last the tool is run once more, and
//! this time a missing tool is an error: the session never tries a third
//! time.

use crate::cli::{Mode, Opts};
use crate::command::{CommandSpec, CommandView};
use crate::outcome::{
    install, install_failed, install_failed_message, installed, ran, result_view, run, Run,
    RunView, Status, StatusView,
};
use crate::search_path::{add_bin_path, with_bin_path};
use vstd::prelude::*;

verus! {

/// What the caller of a [`Session`] is to do next.
#[derive(Debug, PartialEq, Eq)]
pub enum Action {
    /// Start the tool and wait for its end.
    Run(CommandSpec),
    /// Print `notice` to the error stream, then start the package manager
    /// and wait for its end.
    Install { notice: String, command: CommandSpec },
    /// Stop: this is the overall result.
    Finish(Result<(), String>),
}

/// What an [`Action`] holds, as mathematical values.
pub ghost enum ActionView {
    Run(CommandView),
    Install { notice: Seq<char>, command: CommandView },
    Finish(Result<(), Seq<char>>),
}

impl View for Action {
    type V = ActionView;

    open spec fn view(&self) -> ActionView {
        match self {
            Action::Run(command) => ActionView::Run(command@),
            Action::Install { notice, command } => ActionView::Install {
                notice: notice@,
                command: command@,
            },
            Action::Finish(result) => ActionView::Finish(result_view(*result)),
        }
    }
}

/// How far a session has come.
#[derive(Debug)]
enum Stage {
    FirstRun,
    Installing,
    SecondRun,
    Finished(Result<(), String>),
}

/// How far a session has come: which report it waits for, or how it ended.
pub ghost enum StageView {
    /// The tool is being run for the first time.
    FirstRun,
    /// The tool was not found and is being installed.
    Installing,
    /// The tool was installed and is being run again.
    SecondRun,
    /// The session is over, with this result.
    Finished(Result<(), Seq<char>>),
}

/// One run of the runner for one tool.
#[derive(Debug)]
pub struct Session {
    command: CommandSpec,
    no_install: bool,
    stage: Stage,
}

/// The state of a [`Session`].
pub ghost struct SessionView {
    /// The tool's command, with its search path.
    pub command: CommandView,
    /// A tool that is missing is not installed.
    pub no_install: bool,
    pub stage: StageView,
}

impl View for Session {
    type V = SessionView;

    closed spec fn view(&self) -> SessionView {
        SessionView {
            command: self.command@,
            no_install: self.no_install,
            stage: match self.stage {
                Stage::FirstRun => StageView::FirstRun,
                Stage::Installing => StageView::Installing,
                Stage::SecondRun => StageView::SecondRun,
                Stage::Finished(result) => StageView::Finished(result_view(result)),
            },
        }
    }
}

/// The notice that is printed before a tool is installed.
pub open spec fn not_found_notice(name: Seq<char>) -> Seq<char> {
    name + " not found, installing.."@
}

impl SessionView {
    /// The session that runs `command`: the search path of `command` is the
    /// inherited one with `./bin`, and the first run is due.
    pub open spec fn begun(
        command: CommandView,
        no_install: bool,
        inherited: Seq<Seq<char>>,
    ) -> SessionView {
        SessionView {
            command: CommandView { path: Some(with_bin_path(inherited)), ..command },
            no_install,
            stage: StageView::FirstRun,
        }
    }

    /// The tool's name, as it stands in messages and as it is installed.
    pub open spec fn name(self) -> Seq<char> {
        self.command.program
    }

    /// The action that is due.
    pub open spec fn action(self) -> ActionView {
        match self.stage {
            StageView::FirstRun => ActionView::Run(self.command),
            StageView::Installing => ActionView::Install {
                notice: not_found_notice(self.name()),
                command: CommandView::install(self.name()),
            },
            StageView::SecondRun => ActionView::Run(self.command),
            StageView::Finished(result) => ActionView::Finish(result),
        }
    }

    /// The stage after the action that was due has been performed and the
    /// system has reported `status` of it.
    pub open spec fn next_stage(self, status: StatusView) -> StageView {
        match self.stage {
            StageView::FirstRun => match ran(self.name(), status) {
                RunView::Success => StageView::Finished(Ok(())),
                RunView::NotFound => if self.no_install {
                    StageView::Finished(Ok(()))
                } else {
                    StageView::Installing
                },
                RunView::Failed(message) => StageView::Finished(Err(message)),
            },
            StageView::Installing => match installed(self.name(), status) {
                Ok(()) => StageView::SecondRun,
                Err(message) => StageView::Finished(Err(message)),
            },
            StageView::SecondRun => match ran(self.name(), status) {
                RunView::Success => StageView::Finished(Ok(())),
                RunView::NotFound => StageView::Finished(Err(install_failed(self.name()))),
                RunView::Failed(message) => StageView::Finished(Err(message)),
            },
            StageView::Finished(result) => StageView::Finished(result),
        }
    }

    /// The session after the report `status`: the command and the option
    /// stay, the stage moves on.
    pub open spec fn step(self, status: StatusView) -> SessionView {
        SessionView { stage: self.next_stage(status), ..self }
    }
}

/// Builds the notice [`not_found_notice`].
pub fn not_found_notice_message(name: &str) -> (notice: String)
    ensures
        notice@ == not_found_notice(name@),
{
    let mut notice = String::from_str(name);
    notice.append(" not found, installing..");
    notice
}

/// Begins the session that runs `command` and that installs its program
/// where it is missing, unless `no_install` is set. `inherited` holds the
/// entries of the caller's search path; the tool is run with these and
/// `./bin`.
pub fn install_and_run(
    command: CommandSpec,
    no_install: bool,
    inherited: Vec<String>,
) -> (session: Session)
    ensures
        session@ == SessionView::begun(command@, no_install, inherited.deep_view()),
{
    let mut command = command;
    add_bin_path(&mut command, inherited);
    Session { command, no_install, stage: Stage::FirstRun }
}

/// Begins the session that builds the WebAssembly bundle.
pub fn build(opts: Opts, inherited: Vec<String>) -> (session: Session)
    ensures
        session@ == SessionView::begun(
            CommandView::build(),
            opts.no_install,
            inherited.deep_view(),
        ),
{
    let mut cmd = CommandSpec::new("wasm-pack");
    cmd.arg("build");
    cmd.arg("web");
    cmd.arg("--no-pack");
    cmd.arg("--no-typescript");
    cmd.arg("--target");
    cmd.arg("web");
    cmd.arg("--out-dir");
    cmd.arg("../static/pkg");
    assert(cmd@.args =~= CommandView::build().args);
    install_and_run(cmd, opts.no_install, inherited)
}

/// Begins the session that serves the static directory.
pub fn serve(opts: Opts, inherited: Vec<String>) -> (session: Session)
    ensures
        session@ == SessionView::begun(
            CommandView::serve(),
            opts.no_install,
            inherited.deep_view(),
        ),
{
    let mut cmd = CommandSpec::new("miniserve");
    cmd.arg("--index");
    cmd.arg("index.html");
    cmd.arg("static");
    assert(cmd@.args =~= CommandView::serve().args);
    install_and_run(cmd, opts.no_install, inherited)
}

/// Begins the session for `mode`, with the caller's search path.
pub fn start(opts: Opts, mode: Mode, inherited: Vec<String>) -> (session: Session)
    ensures
        session@ == SessionView::begun(
            CommandView::for_mode(mode),
            opts.no_install,
            inherited.deep_view(),
        ),
{
    match mode {
        Mode::Build => build(opts, inherited),
        Mode::Serve => serve(opts, inherited),
    }
}

impl Session {
    /// The action that is due. It stays the same until [`Session::step`]
    /// is called.
    pub fn action(&self) -> (action: Action)
        ensures
            action@ == self@.action(),
    {
        match &self.stage {
            Stage::FirstRun => Action::Run(self.command.clone()),
            Stage::Installing => Action::Install {
                notice: not_found_notice_message(self.command.program.as_str()),
                command: CommandSpec::install(self.command.program.as_str()),
            },
            Stage::SecondRun => Action::Run(self.command.clone()),
            Stage::Finished(result) => Action::Finish(
                match result {
                    Ok(()) => Ok(()),
                    Err(message) => Err(message.clone()),
                },
            ),
        }
    }

    /// Takes the report on the action that was due and moves on.
    ///
    /// `status` is what the system reported of the subprocess of that
    /// action. A session that is finished stays as it is.
    pub fn step(self, status: Status) -> (next: Session)
        ensures
            next@ == self@.step(status@),
    {
        let Session { command, no_install, stage } = self;
        let stage = match stage {
            Stage::FirstRun => match run(command.program.as_str(), status) {
                Run::Success => Stage::Finished(Ok(())),
                Run::NotFound => if no_install {
                    Stage::Finished(Ok(()))
                } else {
                    Stage::Installing
                },
                Run::Failed(message) => Stage::Finished(Err(message)),
            },
            Stage::Installing => match install(command.program.as_str(), status) {
                Ok(()) => Stage::SecondRun,
                Err(message) => Stage::Finished(Err(message)),
            },
            Stage::SecondRun => match run(command.program.as_str(), status) {
                Run::Success => Stage::Finished(Ok(())),
                Run::NotFound => Stage::Finished(
                    Err(install_failed_message(command.program.as_str())),
                ),
                Run::Failed(message) => Stage::Finished(Err(message)),
            },
            Stage::Finished(result) => Stage::Finished(result),
        };
        Session { command, no_install, stage }
    }
}

} // verus!
