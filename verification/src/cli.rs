//! The command line: one mode, and the flag `--no-install`.

use crate::text::same_text;
use vstd::prelude::*;
use vstd::seq_lib::lemma_seq_contains_after_push;

verus! {

/// The options of one invocation.
#[derive(Clone, Copy, Debug, PartialEq, Eq)]
pub struct Opts {
    /// A tool that is missing is not installed.
    pub no_install: bool,
}

/// What the runner is asked to do.
#[derive(Clone, Copy, Debug, PartialEq, Eq)]
pub enum Mode {
    /// Build the WebAssembly bundle.
    Build,
    /// Serve the static directory.
    Serve,
}

/// The one flag that the command line knows.
pub open spec fn no_install_flag() -> Seq<char> {
    "--no-install"@
}

/// The mode that a token names, if it names one.
pub open spec fn mode_of(token: Seq<char>) -> Option<Mode> {
    if token == "build"@ {
        Some(Mode::Build)
    } else if token == "serve"@ {
        Some(Mode::Serve)
    } else {
        None
    }
}

/// The argument at `at` names the mode, and every other argument is the
/// flag `--no-install`.
pub open spec fn selects(args: Seq<Seq<char>>, at: int) -> bool {
    &&& 0 <= at < args.len()
    &&& mode_of(args[at]) is Some
    &&& forall|j: int| 0 <= j < args.len() && j != at ==> args[j] == no_install_flag()
}

/// What a list of arguments means.
///
/// A list is accepted where exactly one argument names a mode and all
/// others are the flag `--no-install`, in whatever order. The flag's
/// option is set where the flag is there at all. Every other list, the
/// empty one too, means nothing.
pub open spec fn parsed(args: Seq<Seq<char>>) -> Option<(Opts, Mode)> {
    if exists|at: int| selects(args, at) {
        let at = choose|at: int| selects(args, at);
        Some((Opts { no_install: args.contains(no_install_flag()) }, mode_of(args[at])->0))
    } else {
        None
    }
}

/// The tokens of the command line differ from one another.
proof fn lemma_tokens_differ()
    ensures
        mode_of(no_install_flag()) is None,
        "build"@ != "serve"@,
{
    reveal_strlit("build");
    reveal_strlit("serve");
    reveal_strlit("--no-install");
    assert("build"@[0] != "serve"@[0]);
}

/// At most one position of a list of arguments can name its mode.
pub proof fn lemma_selects_once(args: Seq<Seq<char>>, at: int, other: int)
    requires
        selects(args, at),
        selects(args, other),
    ensures
        at == other,
{
    lemma_tokens_differ();
}

/// Reads the mode of a single token.
pub fn parse_mode(token: &str) -> (mode: Option<Mode>)
    ensures
        mode == mode_of(token@),
{
    if same_text(token, "build") {
        Some(Mode::Build)
    } else if same_text(token, "serve") {
        Some(Mode::Serve)
    } else {
        None
    }
}

/// A list of arguments none of which names a mode is not accepted.
pub proof fn lemma_parse_needs_mode(args: Seq<Seq<char>>)
    requires
        forall|i: int| 0 <= i < args.len() ==> args[i] != "build"@ && args[i] != "serve"@,
    ensures
        parsed(args) is None,
{
}

/// A list of one mode and of one or more flags `--no-install` is accepted,
/// wherever in it the mode stands, and the flag's option is set.
pub proof fn lemma_parse_mode_and_flag(args: Seq<Seq<char>>, at: int)
    requires
        selects(args, at),
        args.len() >= 2,
    ensures
        parsed(args) == Some((Opts { no_install: true }, mode_of(args[at])->0)),
{
    let chosen = choose|k: int| selects(args, k);
    lemma_selects_once(args, at, chosen);
    let flag = if at == 0 {
        1int
    } else {
        0int
    };
    assert(args[flag] == no_install_flag());
}

/// A list of one mode and nothing else is accepted, and the flag's option
/// is not set.
pub proof fn lemma_parse_mode_alone(args: Seq<Seq<char>>)
    requires
        args.len() == 1,
        mode_of(args[0]) is Some,
    ensures
        parsed(args) == Some((Opts { no_install: false }, mode_of(args[0])->0)),
{
    lemma_tokens_differ();
    assert(selects(args, 0));
    let chosen = choose|k: int| selects(args, k);
    lemma_selects_once(args, 0, chosen);
}

/// A token that is neither a mode nor the flag `--no-install` has the whole
/// list refused, wherever in it the token stands.
pub proof fn lemma_parse_rejects_unknown(args: Seq<Seq<char>>, i: int)
    requires
        0 <= i < args.len(),
        mode_of(args[i]) is None,
        args[i] != no_install_flag(),
    ensures
        parsed(args) is None,
{
    assert forall|k: int| !selects(args, k) by {
        if selects(args, k) {
            assert(k != i);
            assert(args[i] == no_install_flag());
        }
    }
}

/// A list with two tokens that name a mode is refused.
pub proof fn lemma_parse_rejects_second_mode(args: Seq<Seq<char>>, i: int, j: int)
    requires
        0 <= i < j < args.len(),
        mode_of(args[i]) is Some,
        mode_of(args[j]) is Some,
    ensures
        parsed(args) is None,
{
    lemma_tokens_differ();
    assert forall|k: int| !selects(args, k) by {
        if selects(args, k) {
            if k == i {
                assert(args[j] == no_install_flag());
            } else {
                assert(args[i] == no_install_flag());
            }
        }
    }
}

/// Reads the arguments of an invocation, the program's own name left out.
///
/// Returns the options and the mode where the list is one that [`parsed`]
/// accepts, and `None` for every other list: nothing is made of a list
/// that is only partly understood.
pub fn parse(args: &Vec<String>) -> (result: Option<(Opts, Mode)>)
    ensures
        result == parsed(args.deep_view()),
{
    let ghost tokens = args.deep_view();
    let ghost mut at: int = 0;
    let mut mode: Option<Mode> = None;
    let mut no_install = false;
    let mut i: usize = 0;
    while i < args.len()
        invariant
            i <= args.len(),
            tokens == args.deep_view(),
            no_install == tokens.take(i as int).contains(no_install_flag()),
            match mode {
                Some(m) => {
                    &&& 0 <= at < i
                    &&& mode_of(tokens[at]) == Some(m)
                    &&& forall|j: int| 0 <= j < i && j != at ==> tokens[j] == no_install_flag()
                },
                None => forall|j: int| 0 <= j < i ==> tokens[j] == no_install_flag(),
            },
        decreases args.len() - i,
    {
        let token = args[i].as_str();
        proof {
            lemma_tokens_differ();
            assert(token@ == tokens[i as int]);
            assert(tokens.take(i + 1) =~= tokens.take(i as int).push(tokens[i as int]));
            lemma_seq_contains_after_push(
                tokens.take(i as int),
                tokens[i as int],
                no_install_flag(),
            );
        }
        match parse_mode(token) {
            Some(m) => {
                if mode.is_some() {
                    proof {
                        lemma_parse_rejects_second_mode(tokens, at, i as int);
                    }
                    return None;
                }
                mode = Some(m);
                proof {
                    at = i as int;
                }
            },
            None => {
                if !same_text(token, "--no-install") {
                    proof {
                        lemma_parse_rejects_unknown(tokens, i as int);
                    }
                    return None;
                }
                no_install = true;
            },
        }
        i += 1;
    }
    proof {
        lemma_tokens_differ();
        assert(tokens.take(i as int) =~= tokens);
    }
    match mode {
        Some(m) => {
            proof {
                lemma_selects_once(tokens, at, choose|k: int| selects(tokens, k));
            }
            Some((Opts { no_install }, m))
        },
        None => {
            proof {
                lemma_parse_needs_mode(tokens);
            }
            None
        },
    }
}

} // verus!
