//! The parsed form of a desktop entry file.
//!
//! A desktop entry file is a sectioned key/value text format. The parsing
//! itself is done by the `freedesktop_entry_parser` crate; the library holds
//! its output as plain values — a list of sections, each with a title and a
//! list of attributes — and all lookups over that structure are verified
//! code. An attribute may carry a parameter (a locale tag such as
//! `Name[ca]`), and, because the parser merges duplicate keys, a list of
//! values in file order.

use vstd::prelude::*;

verus! {

/// One attribute of a section: a key, an optional parameter, and the values
/// given for that key, in file order.
pub struct RawAttr {
    pub key: String,
    pub param: Option<String>,
    pub values: Vec<String>,
}

/// The mathematical value of a [`RawAttr`].
pub ghost struct AttrV {
    pub key: Seq<char>,
    pub param: Option<Seq<char>>,
    pub values: Seq<Seq<char>>,
}

/// One section of a parsed desktop entry file: its title and attributes, in
/// file order, with duplicate keys merged by the parser.
pub struct RawSection {
    pub title: String,
    pub attrs: Vec<RawAttr>,
}

/// The mathematical value of a [`RawSection`].
pub ghost struct SectionV {
    pub title: Seq<char>,
    pub attrs: Seq<AttrV>,
}

impl View for RawAttr {
    type V = AttrV;

    open spec fn view(&self) -> AttrV {
        AttrV { key: self.key@, param: self.param.deep_view(), values: self.values.deep_view() }
    }
}

impl DeepView for RawAttr {
    type V = AttrV;

    open spec fn deep_view(&self) -> AttrV {
        self.view()
    }
}

impl View for RawSection {
    type V = SectionV;

    open spec fn view(&self) -> SectionV {
        SectionV { title: self.title@, attrs: self.attrs.deep_view() }
    }
}

impl DeepView for RawSection {
    type V = SectionV;

    open spec fn deep_view(&self) -> SectionV {
        self.view()
    }
}

/// What the desktop entry parser makes of the given file bytes: `None` when
/// the bytes are not a well-formed entry file, otherwise the parsed sections
/// in file order, duplicate sections and keys merged. The result depends on
/// the bytes alone.
pub uninterp spec fn parsed_sections(bytes: Seq<u8>) -> Option<Seq<SectionV>>;

/// Relies on `freedesktop_entry_parser::Entry::parse`: it parses the byte
/// buffer alone, with no I/O, into sections held in insertion order, each
/// with its attributes in insertion order and the values of repeated keys
/// collected in file order. The body only converts that structure, field by
/// field, into the library's plain representation.
#[verifier::external_body]
pub fn parse_desktop_bytes(bytes: &[u8]) -> (r: Option<Vec<RawSection>>)
    ensures
        r.deep_view() == parsed_sections(bytes@),
{
    let entry = match freedesktop_entry_parser::Entry::parse(bytes) {
        Ok(e) => e,
        Err(_) => return None,
    };
    let mut sections = Vec::new();
    for (title, sect) in entry.sections() {
        let mut attrs = Vec::new();
        for (key, values) in sect.attrs() {
            attrs.push(RawAttr { key: key.key.clone(), param: key.param.clone(), values: values.clone() });
        }
        sections.push(RawSection { title: title.clone(), attrs });
    }
    Some(sections)
}

} // verus!
