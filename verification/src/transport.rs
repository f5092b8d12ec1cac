//! The transport representation of a secrets bundle: a structured,
//! language-agnostic value — named sections, each a list of named text
//! fields — suitable for transmission as JSON-like data. The surrounding
//! runtime turns it into whatever concrete object model the wire uses.

use vstd::prelude::*;

verus! {

/// A named text field of a transport value.
pub struct TransportEntry {
    pub name: String,
    pub text: String,
}

/// A named section: a list of named text fields.
pub struct TransportSection {
    pub name: String,
    pub entries: Vec<TransportEntry>,
}

/// A transport value: a list of named sections.
pub struct TransportValue {
    pub sections: Vec<TransportSection>,
}

/// The abstract value of a [`TransportEntry`].
#[verifier::ext_equal]
pub struct EntryModel {
    pub name: Seq<char>,
    pub text: Seq<char>,
}

/// The abstract value of a [`TransportSection`].
#[verifier::ext_equal]
pub struct SectionModel {
    pub name: Seq<char>,
    pub entries: Seq<EntryModel>,
}

impl View for TransportEntry {
    type V = EntryModel;

    open spec fn view(&self) -> EntryModel {
        EntryModel { name: self.name@, text: self.text@ }
    }
}

/// The abstract value of a list of entries.
pub open spec fn entries_view(es: Seq<TransportEntry>) -> Seq<EntryModel> {
    es.map_values(|e: TransportEntry| e@)
}

impl View for TransportSection {
    type V = SectionModel;

    open spec fn view(&self) -> SectionModel {
        SectionModel { name: self.name@, entries: entries_view(self.entries@) }
    }
}

/// The abstract value of a list of sections.
pub open spec fn sections_view(ss: Seq<TransportSection>) -> Seq<SectionModel> {
    ss.map_values(|s: TransportSection| s@)
}

impl View for TransportValue {
    type V = Seq<SectionModel>;

    open spec fn view(&self) -> Seq<SectionModel> {
        sections_view(self.sections@)
    }
}

} // verus!
