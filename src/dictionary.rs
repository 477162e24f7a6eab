use vstd::prelude::*;

use crate::text::{format_tag, hex_pair};

verus! {

/// The view of an optional text.
pub open spec fn opt_text(r: Option<String>) -> Option<Seq<char>> {
    match r {
        Some(s) => Some(s@),
        None => None,
    }
}

/// A read-only lookup from a numeric tag to a human-readable alias.
pub trait TagDictionary {
    /// The alias the dictionary holds for a tag, if any.
    spec fn alias_of(&self, group: u16, element: u16) -> Option<Seq<char>>;

    fn alias(&self, group: u16, element: u16) -> (r: Option<String>)
        ensures
            opt_text(r) == self.alias_of(group, element),
    ;
}

/// The name of a tag: its alias where the dictionary knows one, else `GGGG,EEEE`.
pub open spec fn tag_name<D: TagDictionary>(dict: &D, group: u16, element: u16) -> Seq<char> {
    match dict.alias_of(group, element) {
        Some(a) => a,
        None => hex_pair(group, element),
    }
}

/// Resolves the name of a tag; never fails.
pub fn resolve<D: TagDictionary>(dict: &D, group: u16, element: u16) -> (r: String)
    ensures
        r@ == tag_name(dict, group, element),
{
    match dict.alias(group, element) {
        Some(a) => a,
        None => format_tag(group, element),
    }
}

/// What the standard DICOM data dictionary gives as the alias of a tag.
pub uninterp spec fn standard_alias(group: u16, element: u16) -> Option<Seq<char>>;

/// Relies on dicom's `StandardDataDictionary::by_tag`: the alias of the entry that the
/// standard data dictionary holds for the tag, if it holds one.
#[verifier::external_body]
fn standard_dictionary_alias(group: u16, element: u16) -> (r: Option<String>)
    ensures
        opt_text(r) == standard_alias(group, element),
{
    let dict = dicom::dictionary_std::StandardDataDictionary;
    <dicom::dictionary_std::StandardDataDictionary as dicom::core::DataDictionary>::by_tag(
        &dict,
        dicom::core::Tag(group, element),
    ).map(|entry| entry.alias.to_string())
}

/// The standard DICOM data dictionary.
#[derive(Clone, Copy, Debug, Default)]
pub struct StandardDictionary;

impl TagDictionary for StandardDictionary {
    open spec fn alias_of(&self, group: u16, element: u16) -> Option<Seq<char>> {
        standard_alias(group, element)
    }

    fn alias(&self, group: u16, element: u16) -> (r: Option<String>) {
        standard_dictionary_alias(group, element)
    }
}

/// A dictionary that knows no tag: every tag is named `GGGG,EEEE`.
#[derive(Clone, Copy, Debug, Default)]
pub struct EmptyDictionary;

impl TagDictionary for EmptyDictionary {
    open spec fn alias_of(&self, group: u16, element: u16) -> Option<Seq<char>> {
        None
    }

    fn alias(&self, group: u16, element: u16) -> (r: Option<String>) {
        None
    }
}

/// A tag that the dictionary does not know is named by its hexadecimal pair.
pub proof fn lemma_dictionary_fallback<D: TagDictionary>(dict: &D, group: u16, element: u16)
    requires
        dict.alias_of(group, element) is None,
    ensures
        tag_name(dict, group, element) == hex_pair(group, element),
        tag_name(dict, group, element).len() == 9,
{
}

} // verus!
