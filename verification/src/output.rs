//! Rendering of the final output lines.
//!
//! Every deduplicated entry that is not hidden yields one line: `NAME=EXEC`,
//! or `NAME=TERMINAL_CMD EXEC` when the entry must run in a terminal, with a
//! single space between the terminal command and the original command line.
//! No quoting or escaping is applied.

use vstd::prelude::*;

use crate::entry::{DesktopEntry, EntryV};

verus! {

/// The output line of one entry: the name, `=`, and the command, prefixed
/// with the terminal command and a space when the entry asks for a terminal.
pub open spec fn line_spec(e: EntryV, terminal_cmd: Seq<char>) -> Seq<char> {
    if e.terminal {
        e.name + "="@ + terminal_cmd + " "@ + e.exec_cmd
    } else {
        e.name + "="@ + e.exec_cmd
    }
}

/// The lines of a sequence of entries, in order, hidden entries left out.
pub open spec fn lines_spec(s: Seq<EntryV>, terminal_cmd: Seq<char>) -> Seq<Seq<char>>
    decreases s.len(),
{
    if s.len() == 0 {
        Seq::empty()
    } else if s.last().skip {
        lines_spec(s.drop_last(), terminal_cmd)
    } else {
        lines_spec(s.drop_last(), terminal_cmd).push(line_spec(s.last(), terminal_cmd))
    }
}

/// Holds when some visible entry of `s` asks for a terminal, so that a
/// terminal command is needed to render `s`.
pub open spec fn terminal_needed(s: Seq<EntryV>) -> bool {
    exists|i: int| 0 <= i < s.len() && !(#[trigger] s[i]).skip && s[i].terminal
}

/// A hidden entry contributes nothing to the output: removing an entry
/// whose hide flag is set leaves the rendered lines unchanged, so a
/// `NoDisplay` entry, though it normalizes successfully, is never printed.
pub proof fn lemma_hidden_entry_contributes_nothing(
    s: Seq<EntryV>,
    i: int,
    terminal_cmd: Seq<char>,
)
    requires
        0 <= i < s.len(),
        s[i].skip,
    ensures
        lines_spec(s, terminal_cmd) == lines_spec(s.remove(i), terminal_cmd),
    decreases s.len(),
{
    if i == s.len() - 1 {
        assert(s.remove(i) =~= s.drop_last());
    } else {
        let t = s.drop_last();
        lemma_hidden_entry_contributes_nothing(t, i, terminal_cmd);
        assert(s.remove(i).drop_last() =~= t.remove(i));
        assert(s.remove(i).last() == s.last());
    }
}

/// Renders the output line of one entry.
pub fn output_line(e: &DesktopEntry, terminal_cmd: &str) -> (r: String)
    ensures
        r@ == line_spec(e@, terminal_cmd@),
{
    let mut s: String = e.name.clone();
    s.append("=");
    if e.terminal {
        s.append(terminal_cmd);
        s.append(" ");
    }
    s.append(e.exec_cmd.as_str());
    s
}

/// Decides whether rendering `entries` needs a terminal command: whether
/// some entry that will be printed asks for a terminal.
pub fn needs_terminal(entries: &Vec<DesktopEntry>) -> (r: bool)
    ensures
        r == terminal_needed(entries.deep_view()),
{
    let ghost s = entries.deep_view();
    let mut i: usize = 0;
    while i < entries.len()
        invariant
            i <= entries.len(),
            s == entries.deep_view(),
            s.len() == entries.len(),
            forall|j: int| 0 <= j < i ==> (#[trigger] s[j]).skip || !s[j].terminal,
        decreases entries.len() - i,
    {
        if !entries[i].skip && entries[i].terminal {
            proof {
                assert(!s[i as int].skip && s[i as int].terminal);
            }
            return true;
        }
        i = i + 1;
    }
    false
}

/// Renders the output lines of `entries`, in order, leaving hidden entries
/// out and prefixing terminal entries with `terminal_cmd`.
pub fn render_lines(entries: &Vec<DesktopEntry>, terminal_cmd: &str) -> (r: Vec<String>)
    ensures
        r.deep_view() == lines_spec(entries.deep_view(), terminal_cmd@),
{
    let ghost s = entries.deep_view();
    let mut out: Vec<String> = Vec::new();
    let mut i: usize = 0;
    proof {
        assert(s.take(0) =~= Seq::<EntryV>::empty());
    }
    while i < entries.len()
        invariant
            i <= entries.len(),
            s == entries.deep_view(),
            s.len() == entries.len(),
            out.deep_view() == lines_spec(s.take(i as int), terminal_cmd@),
        decreases entries.len() - i,
    {
        proof {
            assert(s.take(i + 1).drop_last() =~= s.take(i as int));
            assert(s.take(i + 1).last() == s[i as int]);
        }
        if !entries[i].skip {
            out.push(output_line(&entries[i], terminal_cmd));
        }
        i = i + 1;
    }
    proof {
        assert(s.take(s.len() as int) =~= s);
    }
    out
}

} // verus!
