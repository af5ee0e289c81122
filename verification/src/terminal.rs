//! Resolution of the terminal emulator used to prefix terminal-mode entries.
//!
//! An override value, when present, is returned verbatim. Otherwise a fixed,
//! ordered list of well-known terminal emulators is probed against the
//! executable search path, and the first name found wins; generic wrappers
//! and desktop-environment terminals come first. When nothing is found the
//! resolver returns nothing, and the caller treats that as fatal — but only
//! when some entry actually asks for a terminal.

use vstd::prelude::*;

verus! {

/// The probe order: generic wrappers and desktop-environment terminals
/// first, then the long tail of specific emulators.
pub open spec fn candidates_seq() -> Seq<Seq<char>> {
    seq![
        "x-terminal-emulator"@,
        "mate-terminal"@,
        "gnome-terminal"@,
        "terminator"@,
        "xfce4-terminal"@,
        "foot"@,
        "urxvt"@,
        "rxvt"@,
        "termit"@,
        "Eterm"@,
        "aterm"@,
        "uxterm"@,
        "xterm"@,
        "roxterm"@,
        "termite"@,
        "lxterminal"@,
        "terminology"@,
        "st"@,
        "qterminal"@,
        "lilyterm"@,
        "tilix"@,
        "terminix"@,
        "konsole"@,
        "kitty"@,
        "guake"@,
        "tilda"@,
        "alacritty"@,
        "hyper"@,
        "wezterm"@,
    ]
}

/// The position of the first probe that succeeded, from position `i` on.
pub open spec fn first_found(found: Seq<bool>, i: int) -> Option<int>
    decreases found.len() - i,
{
    if i < 0 || i >= found.len() {
        None
    } else if found[i] {
        Some(i)
    } else {
        first_found(found, i + 1)
    }
}

/// The candidate that the probe results pick: the name whose probe is the
/// first to have succeeded, or nothing when every probe failed. The results
/// are given in the order of `candidates_seq()`.
pub open spec fn selected(found: Seq<bool>) -> Option<Seq<char>> {
    match first_found(found, 0) {
        None => None,
        Some(i) => Some(candidates_seq()[i]),
    }
}

/// The probe list, in probe order.
pub fn terminal_candidates() -> (r: Vec<String>)
    ensures
        r.deep_view() == candidates_seq(),
{
    let mut v: Vec<String> = Vec::new();
    v.push("x-terminal-emulator".to_owned());
    v.push("mate-terminal".to_owned());
    v.push("gnome-terminal".to_owned());
    v.push("terminator".to_owned());
    v.push("xfce4-terminal".to_owned());
    v.push("foot".to_owned());
    v.push("urxvt".to_owned());
    v.push("rxvt".to_owned());
    v.push("termit".to_owned());
    v.push("Eterm".to_owned());
    v.push("aterm".to_owned());
    v.push("uxterm".to_owned());
    v.push("xterm".to_owned());
    v.push("roxterm".to_owned());
    v.push("termite".to_owned());
    v.push("lxterminal".to_owned());
    v.push("terminology".to_owned());
    v.push("st".to_owned());
    v.push("qterminal".to_owned());
    v.push("lilyterm".to_owned());
    v.push("tilix".to_owned());
    v.push("terminix".to_owned());
    v.push("konsole".to_owned());
    v.push("kitty".to_owned());
    v.push("guake".to_owned());
    v.push("tilda".to_owned());
    v.push("alacritty".to_owned());
    v.push("hyper".to_owned());
    v.push("wezterm".to_owned());
    proof {
        assert(v.deep_view() =~= candidates_seq());
    }
    v
}

/// Picks the terminal that the probe results select: the candidate, in probe
/// order, whose probe succeeded first.
pub fn select_terminal(found: &Vec<bool>) -> (r: Option<String>)
    requires
        found@.len() == candidates_seq().len(),
    ensures
        r.deep_view() == selected(found@),
{
    let cands = terminal_candidates();
    let mut i: usize = 0;
    while i < found.len()
        invariant
            i <= found.len(),
            found@.len() == candidates_seq().len(),
            cands.deep_view() == candidates_seq(),
            cands.len() == candidates_seq().len(),
            first_found(found@, 0) == first_found(found@, i as int),
        decreases found.len() - i,
    {
        if found[i] {
            return Some(cands[i].clone());
        }
        i = i + 1;
    }
    None
}

/// When the probe results select a name, it is one of the candidates.
pub proof fn lemma_selected_is_candidate(found: Seq<bool>)
    requires
        found.len() <= candidates_seq().len(),
    ensures
        selected(found) matches Some(t) ==> candidates_seq().contains(t),
{
    lemma_first_found_in_range(found, 0);
}

/// `first_found` returns a position inside the sequence, at which the probe
/// succeeded.
proof fn lemma_first_found_in_range(found: Seq<bool>, i: int)
    ensures
        first_found(found, i) matches Some(j) ==> i <= j < found.len() && found[j],
    decreases found.len() - i,
{
    if 0 <= i < found.len() && !found[i] {
        lemma_first_found_in_range(found, i + 1);
    }
}

/// Relies on `which::which`: it searches the executable search path for the
/// given name and returns `Ok` exactly when it resolves to an executable
/// file. The outcome depends on the machine's state, so nothing is assumed
/// of it.
#[verifier::external_body]
fn which_found(name: &str) -> bool {
    which::which(name).is_ok()
}

/// Resolves the terminal command: the override verbatim when one is given,
/// otherwise the first candidate of the probe list that is found on the
/// executable search path, or nothing when none is.
pub fn find_terminal(term_override: Option<String>) -> (r: Option<String>)
    ensures
        term_override matches Some(t) ==> r matches Some(u) && u == t,
        term_override is None ==> (r matches Some(u) ==> candidates_seq().contains(u@)),
{
    match term_override {
        Some(t) => Some(t),
        None => {
            let cands = terminal_candidates();
            let mut found: Vec<bool> = Vec::new();
            let mut i: usize = 0;
            while i < cands.len()
                invariant
                    found@.len() == i,
                    i <= cands.len(),
                    cands.len() == candidates_seq().len(),
                decreases cands.len() - i,
            {
                found.push(which_found(cands[i].as_str()));
                i = i + 1;
            }
            let r = select_terminal(&found);
            proof {
                lemma_selected_is_candidate(found@);
            }
            r
        },
    }
}

} // verus!
