//! The per-node decisions of the directory walk.
//!
//! The walk itself — listing directories, resolving symbolic links, reading
//! file bytes — is I/O and belongs to the caller. The caller follows
//! symbolic links to their target before classifying a node, and hands this
//! module plain values: whether the resolved node is a regular file, the
//! node's name, the namespace prefix accumulated from ancestor directory
//! names, and a candidate file's bytes. Everything decided from those values
//! is verified here: how a node is classified, which file names are
//! candidates, how the namespaced identifier is built, and what record a
//! candidate file yields.

use vstd::prelude::*;

use crate::entry::{normalize_spec, DesktopEntry};
use crate::parse::{parse_desktop_bytes, parsed_sections};
use crate::text::str_eq;

verus! {

/// How the walk treats a filesystem node, once symbolic links have been
/// resolved: a regular file is a candidate entry file, anything else is
/// descended into as a directory.
#[derive(Debug, PartialEq, Eq, Structural)]
pub enum FileType {
    Directory,
    File,
}

impl FileType {
    /// Classifies a node from what the filesystem said of the path: whether
    /// the node, after resolving symbolic links, is a regular file.
    pub fn from_path(resolved_is_file: bool) -> (r: FileType)
        ensures
            r == (if resolved_is_file {
                FileType::File
            } else {
                FileType::Directory
            }),
    {
        if resolved_is_file {
            FileType::File
        } else {
            FileType::Directory
        }
    }
}

/// Holds when a file with this name is a candidate desktop entry file: the
/// name ends in `.desktop` and has at least one character before that
/// extension.
pub open spec fn is_desktop_file_name(name: Seq<char>) -> bool {
    name.len() >= 9 && name.subrange(name.len() - 8, name.len() as int) == ".desktop"@
}

/// Decides whether `name` is a candidate desktop entry file name.
pub fn has_desktop_extension(name: &str) -> (r: bool)
    ensures
        r == is_desktop_file_name(name@),
{
    let n = name.unicode_len();
    if n < 9 {
        return false;
    }
    let suffix = name.substring_char(n - 8, n);
    str_eq(suffix, ".desktop")
}

/// The identifier of a node named `name` under the namespace `prefix`: the
/// bare name when there is no prefix, else the prefix and the name joined by
/// a dash. The same construction extends the prefix with a subdirectory's
/// name when the walk descends.
pub open spec fn id_spec(prefix: Option<Seq<char>>, name: Seq<char>) -> Seq<char> {
    match prefix {
        None => name,
        Some(p) => p + "-"@ + name,
    }
}

/// Builds the namespaced identifier for a node.
pub fn entry_id(prefix: Option<&str>, name: &str) -> (r: String)
    ensures
        r@ == id_spec(prefix.deep_view(), name@),
{
    match prefix {
        None => name.to_owned(),
        Some(p) => {
            let mut s: String = p.to_owned();
            s.append("-");
            s.append(name);
            s
        },
    }
}

/// What the walk makes of one regular file: `None` when the name is not a
/// candidate, the file does not parse, or normalization rejects it — all
/// three are silently dropped — and otherwise the normalized record under
/// the namespaced identifier.
pub open spec fn candidate_spec(
    name: Seq<char>,
    prefix: Option<Seq<char>>,
    bytes: Seq<u8>,
    source_path: Seq<char>,
) -> Option<crate::entry::EntryV> {
    if !is_desktop_file_name(name) {
        None
    } else {
        match parsed_sections(bytes) {
            None => None,
            Some(sections) => match normalize_spec(sections, id_spec(prefix, name), source_path) {
                Ok(ev) => Some(ev),
                Err(_) => None,
            },
        }
    }
}

/// A file whose `Type` is not exactly `Application` — a link or directory
/// entry, or one with no `Type` at all — never yields a record, whatever
/// else it carries; so it can never appear in the output.
pub proof fn lemma_non_application_dropped(
    name: Seq<char>,
    prefix: Option<Seq<char>>,
    bytes: Seq<u8>,
    source_path: Seq<char>,
)
    requires
        parsed_sections(bytes) matches Some(sections) ==> crate::entry::desktop_attr(
            sections,
            "Type"@,
        ) != Some("Application"@),
    ensures
        candidate_spec(name, prefix, bytes, source_path) is None,
{
}

/// Handles one regular file of the walk: checks the name, parses the bytes,
/// and normalizes the result under the namespaced identifier.
pub fn process_candidate(name: &str, prefix: Option<&str>, bytes: &[u8], source_path: &str) -> (r:
    Option<DesktopEntry>)
    ensures
        r.deep_view() == candidate_spec(name@, prefix.deep_view(), bytes@, source_path@),
{
    if !has_desktop_extension(name) {
        return None;
    }
    let sections = match parse_desktop_bytes(bytes) {
        Some(sections) => sections,
        None => {
            return None;
        },
    };
    let id = entry_id(prefix, name);
    match DesktopEntry::from_entry(&sections, id, source_path.to_owned()) {
        Ok(e) => Some(e),
        Err(_) => None,
    }
}

} // verus!
