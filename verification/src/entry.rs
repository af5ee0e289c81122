//! The normalized desktop entry record and its construction from a parsed
//! file.
//!
//! Normalization looks up the `Desktop Entry` section, demands
//! `Type=Application` and the presence of `Name` and `Exec`, strips the
//! field-code placeholders from the command line, and reads the optional
//! `Terminal` and `NoDisplay` booleans, which are true exactly when their
//! raw value is the literal `true`.

use vstd::prelude::*;

use crate::fields::{strip_field_codes, strip_spec};
use crate::parse::{AttrV, RawAttr, RawSection, SectionV};
use crate::text::str_eq;

verus! {

/// A normalized desktop entry: a display name, the command line with field
/// codes stripped, the terminal and hide flags, the namespaced identifier
/// used for deduplication, and the originating file's path (diagnostic
/// only).
#[derive(Debug)]
pub struct DesktopEntry {
    pub name: String,
    pub exec_cmd: String,
    pub terminal: bool,
    pub skip: bool,
    pub id: String,
    pub source_path: String,
}

impl Clone for DesktopEntry {
    fn clone(&self) -> (r: Self)
        ensures
            r == *self,
    {
        DesktopEntry {
            name: self.name.clone(),
            exec_cmd: self.exec_cmd.clone(),
            terminal: self.terminal,
            skip: self.skip,
            id: self.id.clone(),
            source_path: self.source_path.clone(),
        }
    }
}

/// The mathematical value of a [`DesktopEntry`].
pub ghost struct EntryV {
    pub name: Seq<char>,
    pub exec_cmd: Seq<char>,
    pub terminal: bool,
    pub skip: bool,
    pub id: Seq<char>,
    pub source_path: Seq<char>,
}

impl View for DesktopEntry {
    type V = EntryV;

    open spec fn view(&self) -> EntryV {
        EntryV {
            name: self.name@,
            exec_cmd: self.exec_cmd@,
            terminal: self.terminal,
            skip: self.skip,
            id: self.id@,
            source_path: self.source_path@,
        }
    }
}

impl DeepView for DesktopEntry {
    type V = EntryV;

    open spec fn deep_view(&self) -> EntryV {
        self.view()
    }
}

/// Why a candidate file is not a launchable application entry. Such a
/// candidate is silently dropped by the caller; the variants only tell the
/// failures apart.
#[derive(Debug)]
pub enum ValidationError {
    /// The `Type` attribute is missing or is not exactly `Application`.
    NotAnApplication,
    /// A required attribute (`Name` or `Exec`) is missing; carries the
    /// missing key.
    MissingField(&'static str),
}

/// The mathematical value of a [`ValidationError`].
pub ghost enum ErrorV {
    NotAnApplication,
    MissingField(Seq<char>),
}

impl View for ValidationError {
    type V = ErrorV;

    open spec fn view(&self) -> ErrorV {
        match self {
            ValidationError::NotAnApplication => ErrorV::NotAnApplication,
            ValidationError::MissingField(k) => ErrorV::MissingField(k@),
        }
    }
}

/// The attributes of the first section of `sections` whose title is
/// `title`, or `None` when no section has it.
pub open spec fn section_attrs(sections: Seq<SectionV>, title: Seq<char>) -> Option<Seq<AttrV>>
    decreases sections.len(),
{
    if sections.len() == 0 {
        None
    } else if sections[0].title == title {
        Some(sections[0].attrs)
    } else {
        section_attrs(sections.skip(1), title)
    }
}

/// The first value given for the attribute `key`, without a parameter, in
/// `attrs`; `None` when the key is absent or has no value.
pub open spec fn attr_value(attrs: Seq<AttrV>, key: Seq<char>) -> Option<Seq<char>>
    decreases attrs.len(),
{
    if attrs.len() == 0 {
        None
    } else if attrs[0].key == key && attrs[0].param is None {
        if attrs[0].values.len() >= 1 {
            Some(attrs[0].values[0])
        } else {
            None
        }
    } else {
        attr_value(attrs.skip(1), key)
    }
}

/// The value of `key` in the `Desktop Entry` section of a parsed file.
pub open spec fn desktop_attr(sections: Seq<SectionV>, key: Seq<char>) -> Option<Seq<char>> {
    match section_attrs(sections, "Desktop Entry"@) {
        None => None,
        Some(attrs) => attr_value(attrs, key),
    }
}

/// What normalization makes of a parsed file: the record that
/// [`DesktopEntry::from_entry`] returns, or the validation failure.
pub open spec fn normalize_spec(sections: Seq<SectionV>, id: Seq<char>, source_path: Seq<char>) -> Result<
    EntryV,
    ErrorV,
> {
    if desktop_attr(sections, "Type"@) != Some("Application"@) {
        Err(ErrorV::NotAnApplication)
    } else {
        match desktop_attr(sections, "Name"@) {
            None => Err(ErrorV::MissingField("Name"@)),
            Some(name) => match desktop_attr(sections, "Exec"@) {
                None => Err(ErrorV::MissingField("Exec"@)),
                Some(cmd) => Ok(
                    EntryV {
                        name,
                        exec_cmd: strip_spec(cmd),
                        terminal: desktop_attr(sections, "Terminal"@) == Some("true"@),
                        skip: desktop_attr(sections, "NoDisplay"@) == Some("true"@),
                        id,
                        source_path,
                    },
                ),
            },
        }
    }
}

/// Finds the first section of `sections` whose title is `title` and returns
/// its index.
fn find_section_idx(sections: &Vec<RawSection>, title: &str) -> (r: Option<usize>)
    ensures
        match r {
            Some(i) => i < sections.len() && sections@[i as int].title@ == title@ && section_attrs(
                sections.deep_view(),
                title@,
            ) == Some(sections@[i as int].attrs.deep_view()),
            None => section_attrs(sections.deep_view(), title@) is None,
        },
{
    let ghost all = sections.deep_view();
    let mut i: usize = 0;
    proof {
        assert(all.skip(0) =~= all);
    }
    while i < sections.len()
        invariant
            i <= sections.len(),
            all == sections.deep_view(),
            all.len() == sections.len(),
            section_attrs(all, title@) == section_attrs(all.skip(i as int), title@),
        decreases sections.len() - i,
    {
        proof {
            assert(all.skip(i as int)[0] == all[i as int]);
        }
        if str_eq(sections[i].title.as_str(), title) {
            return Some(i);
        }
        proof {
            assert(all.skip(i as int).skip(1) =~= all.skip(i + 1));
        }
        i = i + 1;
    }
    proof {
        assert(all.skip(i as int).len() == 0);
    }
    None
}

/// Looks up the first value of the attribute `key`, without a parameter, in
/// `attrs`.
fn lookup_attr(attrs: &Vec<RawAttr>, key: &str) -> (r: Option<String>)
    ensures
        r.deep_view() == attr_value(attrs.deep_view(), key@),
{
    let ghost all = attrs.deep_view();
    let mut i: usize = 0;
    proof {
        assert(all.skip(0) =~= all);
    }
    while i < attrs.len()
        invariant
            i <= attrs.len(),
            all == attrs.deep_view(),
            all.len() == attrs.len(),
            attr_value(all, key@) == attr_value(all.skip(i as int), key@),
        decreases attrs.len() - i,
    {
        proof {
            assert(all.skip(i as int)[0] == all[i as int]);
        }
        if str_eq(attrs[i].key.as_str(), key) && attrs[i].param.is_none() {
            if attrs[i].values.len() >= 1 {
                return Some(attrs[i].values[0].clone());
            } else {
                return None;
            }
        }
        proof {
            assert(all.skip(i as int).skip(1) =~= all.skip(i + 1));
        }
        i = i + 1;
    }
    proof {
        assert(all.skip(i as int).len() == 0);
    }
    None
}

impl DesktopEntry {
    /// Normalizes a parsed desktop entry file into a record, or reports why
    /// the file is not a launchable application entry.
    pub fn from_entry(sections: &Vec<RawSection>, id: String, source_path: String) -> (r: Result<
        DesktopEntry,
        ValidationError,
    >)
        ensures
            ({
                let expected = normalize_spec(sections.deep_view(), id@, source_path@);
                match r {
                    Ok(e) => expected matches Ok(ev) && e@ == ev,
                    Err(err) => expected matches Err(ev) && err@ == ev,
                }
            }),
    {
        let attrs: &Vec<RawAttr> = match find_section_idx(sections, "Desktop Entry") {
            Some(i) => &sections[i].attrs,
            None => {
                return Err(ValidationError::NotAnApplication);
            },
        };
        let is_app = match lookup_attr(attrs, "Type") {
            Some(ty) => str_eq(ty.as_str(), "Application"),
            None => false,
        };
        if !is_app {
            return Err(ValidationError::NotAnApplication);
        }
        let name = match lookup_attr(attrs, "Name") {
            Some(name) => name,
            None => {
                return Err(ValidationError::MissingField("Name"));
            },
        };
        let exec_raw = match lookup_attr(attrs, "Exec") {
            Some(exec_raw) => exec_raw,
            None => {
                return Err(ValidationError::MissingField("Exec"));
            },
        };
        let terminal = match lookup_attr(attrs, "Terminal") {
            Some(v) => str_eq(v.as_str(), "true"),
            None => false,
        };
        let skip = match lookup_attr(attrs, "NoDisplay") {
            Some(v) => str_eq(v.as_str(), "true"),
            None => false,
        };
        Ok(
            DesktopEntry {
                name,
                exec_cmd: strip_field_codes(exec_raw.as_str()),
                terminal,
                skip,
                id,
                source_path,
            },
        )
    }
}

/// A minimal valid entry normalizes to a visible, non-terminal record: when
/// the `Desktop Entry` section gives `Type=Application` and non-empty `Name`
/// and `Exec` values, and neither `Terminal` nor `NoDisplay` is set to
/// `true`, normalization succeeds and the record keeps the name, is not
/// skipped, and does not ask for a terminal.
pub proof fn lemma_minimal_entry_normalizes(
    sections: Seq<SectionV>,
    id: Seq<char>,
    source_path: Seq<char>,
)
    requires
        desktop_attr(sections, "Type"@) == Some("Application"@),
        desktop_attr(sections, "Name"@) matches Some(n) && n.len() > 0,
        desktop_attr(sections, "Exec"@) matches Some(e) && e.len() > 0,
        desktop_attr(sections, "Terminal"@) != Some("true"@),
        desktop_attr(sections, "NoDisplay"@) != Some("true"@),
    ensures
        normalize_spec(sections, id, source_path) matches Ok(ev) && ev.skip == false && ev.terminal
            == false && Some(ev.name) == desktop_attr(sections, "Name"@) && ev.id == id,
{
}

} // verus!
