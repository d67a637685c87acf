//! The description of a subprocess, and the fixed commands of the runner.

use crate::cli::Mode;
use crate::text::clone_texts;
use vstd::prelude::*;

verus! {

/// A subprocess to start: the program, its arguments in order, and the
/// one environment override the runner knows, the search path.
#[derive(Debug, PartialEq, Eq)]
pub struct CommandSpec {
    /// The program's name, looked up on the search path.
    pub program: String,
    /// The arguments, in the order in which they are handed over.
    pub args: Vec<String>,
    /// The entries of the child's `PATH`, first to last, where the child gets
    /// one of its own; `None` where it inherits the caller's unchanged.
    pub path: Option<Vec<String>>,
}

/// What a [`CommandSpec`] holds, as mathematical sequences.
pub ghost struct CommandView {
    pub program: Seq<char>,
    pub args: Seq<Seq<char>>,
    pub path: Option<Seq<Seq<char>>>,
}

impl View for CommandSpec {
    type V = CommandView;

    open spec fn view(&self) -> CommandView {
        CommandView {
            program: self.program@,
            args: self.args.deep_view(),
            path: match self.path {
                Some(entries) => Some(entries.deep_view()),
                None => None,
            },
        }
    }
}

impl CommandView {
    /// The bundler's command: `wasm-pack` with its fixed arguments.
    pub open spec fn build() -> CommandView {
        CommandView {
            program: "wasm-pack"@,
            args: seq![
                "build"@,
                "web"@,
                "--no-pack"@,
                "--no-typescript"@,
                "--target"@,
                "web"@,
                "--out-dir"@,
                "../static/pkg"@,
            ],
            path: None,
        }
    }

    /// The file server's command: `miniserve` with its fixed arguments.
    pub open spec fn serve() -> CommandView {
        CommandView {
            program: "miniserve"@,
            args: seq!["--index"@, "index.html"@, "static"@],
            path: None,
        }
    }

    /// The command that a mode stands for.
    pub open spec fn for_mode(mode: Mode) -> CommandView {
        match mode {
            Mode::Build => CommandView::build(),
            Mode::Serve => CommandView::serve(),
        }
    }

    /// The package manager's command that installs the tool `name`: into
    /// the current directory, so that its executable lands in `./bin`, with
    /// a build directory of its own and with locked dependencies.
    pub open spec fn install(name: Seq<char>) -> CommandView {
        CommandView {
            program: "cargo"@,
            args: seq![
                "install"@,
                "--root"@,
                "."@,
                "--target-dir"@,
                "target"@,
                "--locked"@,
                name,
            ],
            path: None,
        }
    }
}

impl CommandSpec {
    /// A command that runs `program` without arguments and with the
    /// caller's search path.
    pub fn new(program: &str) -> (cmd: CommandSpec)
        ensures
            cmd@ == (CommandView { program: program@, args: Seq::empty(), path: None }),
    {
        let cmd = CommandSpec { program: String::from_str(program), args: Vec::new(), path: None };
        assert(cmd.args.deep_view() =~= Seq::empty());
        cmd
    }

    /// Adds one argument after those already there.
    pub fn arg(&mut self, arg: &str)
        ensures
            final(self)@ == (CommandView { args: old(self)@.args.push(arg@), ..old(self)@ }),
    {
        self.args.push(String::from_str(arg));
        assert(self.args.deep_view() =~= old(self).args.deep_view().push(arg@));
    }

    /// The package manager's command that installs the tool `name`.
    pub fn install(name: &str) -> (cmd: CommandSpec)
        ensures
            cmd@ == CommandView::install(name@),
    {
        let mut cmd = CommandSpec::new("cargo");
        cmd.arg("install");
        cmd.arg("--root");
        cmd.arg(".");
        cmd.arg("--target-dir");
        cmd.arg("target");
        cmd.arg("--locked");
        cmd.arg(name);
        assert(cmd@.args =~= CommandView::install(name@).args);
        cmd
    }
}

impl Clone for CommandSpec {
    fn clone(&self) -> (copy: CommandSpec)
        ensures
            copy@ == self@,
    {
        CommandSpec {
            program: self.program.clone(),
            args: clone_texts(&self.args),
            path: match &self.path {
                Some(entries) => Some(clone_texts(entries)),
                None => None,
            },
        }
    }
}

} // verus!
