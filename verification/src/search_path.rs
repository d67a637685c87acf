//! The search path handed to the tools.
//!
//! Tools that the runner installs land in `./bin`, so every tool is started
//! with that directory on its search path. It goes last: a tool that the
//! system already has is not shadowed by a local one of the same name.

use crate::command::{CommandSpec, CommandView};
use crate::text::same_text;
use vstd::prelude::*;

verus! {

/// The directory of locally installed tools, as it is written on the
/// search path.
pub open spec fn bin_dir() -> Seq<char> {
    "./bin"@
}

/// The child's search path for an inherited one: the same entries in the
/// same order, and `./bin` behind them unless it is among them already.
pub open spec fn with_bin_path(inherited: Seq<Seq<char>>) -> Seq<Seq<char>> {
    if inherited.contains(bin_dir()) {
        inherited
    } else {
        inherited.push(bin_dir())
    }
}

/// How often `entry` stands on the search path `entries`.
pub open spec fn occurrences(entries: Seq<Seq<char>>, entry: Seq<char>) -> nat {
    entries.to_multiset().count(entry)
}

/// Tells whether `./bin` is one of `entries`.
pub fn has_bin_path(entries: &Vec<String>) -> (found: bool)
    ensures
        found == entries.deep_view().contains(bin_dir()),
{
    let mut i: usize = 0;
    while i < entries.len()
        invariant
            i <= entries.len(),
            forall|k: int| 0 <= k < i ==> entries.deep_view()[k] != bin_dir(),
        decreases entries.len() - i,
    {
        if same_text(entries[i].as_str(), "./bin") {
            assert(entries.deep_view()[i as int] == bin_dir());
            return true;
        }
        i += 1;
    }
    false
}

/// Gives `cmd` a search path of its own: the entries of `inherited`, the
/// caller's search path, and `./bin` after them unless it is one of them.
/// The program and the arguments stay as they are.
pub fn add_bin_path(cmd: &mut CommandSpec, inherited: Vec<String>)
    ensures
        final(cmd)@ == (CommandView {
            path: Some(with_bin_path(inherited.deep_view())),
            ..old(cmd)@
        }),
{
    let mut entries = inherited;
    if !has_bin_path(&entries) {
        entries.push(String::from_str("./bin"));
        assert(entries.deep_view() =~= inherited.deep_view().push(bin_dir()));
    }
    cmd.path = Some(entries);
}

/// `./bin` is on every search path that [`with_bin_path`] gives, and as
/// often as it was inherited, but for the one time that it is added where
/// it was missing.
pub proof fn lemma_bin_path_occurrences(inherited: Seq<Seq<char>>)
    ensures
        with_bin_path(inherited).contains(bin_dir()),
        occurrences(with_bin_path(inherited), bin_dir()) == if occurrences(inherited, bin_dir())
            == 0 {
            1
        } else {
            occurrences(inherited, bin_dir())
        },
{
    broadcast use vstd::seq_lib::group_to_multiset_ensures;

    if inherited.contains(bin_dir()) {
    } else {
        let last = inherited.len() as int;
        assert(inherited.push(bin_dir())[last] == bin_dir());
    }
}

/// Where `./bin` is inherited at most once, the child's search path holds
/// it exactly once.
pub proof fn lemma_bin_path_once(inherited: Seq<Seq<char>>)
    requires
        occurrences(inherited, bin_dir()) <= 1,
    ensures
        occurrences(with_bin_path(inherited), bin_dir()) == 1,
{
    lemma_bin_path_occurrences(inherited);
}

/// Building the child's search path a second time, from the result of the
/// first, changes nothing.
pub proof fn lemma_bin_path_idempotent(inherited: Seq<Seq<char>>)
    ensures
        with_bin_path(with_bin_path(inherited)) == with_bin_path(inherited),
{
    lemma_bin_path_occurrences(inherited);
}

/// The inherited entries keep their places, and nothing but `./bin` is
/// ever added, at the end.
pub proof fn lemma_bin_path_appends(inherited: Seq<Seq<char>>)
    ensures
        inherited.is_prefix_of(with_bin_path(inherited)),
        with_bin_path(inherited) == inherited || with_bin_path(inherited) == inherited.push(
            bin_dir(),
        ),
{
}

} // verus!
