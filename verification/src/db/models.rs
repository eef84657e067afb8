//! The records of the catalog database.

use crate::text::{lowercase_of, push_text, string_of, to_lowercase};
use vstd::prelude::*;

verus! {

/// A distribution as the database holds it.
#[derive(Debug, Clone, PartialEq, Eq)]
pub struct Distro {
    pub id: String,
    pub name: String,
    pub version: String,
    pub category: String,
    pub description: String,
    pub size_bytes: i64,
    pub size_human: String,
    pub verified: bool,
    pub date_added: String,
    pub popularity: i32,
}

/// A place to download a distribution from.
#[derive(Debug, Clone, PartialEq, Eq)]
pub struct Mirror {
    pub id: i64,
    pub distro_id: String,
    pub url: String,
    pub region: String,
    pub priority: i32,
    pub status: String,
}

/// The mathematical value of a `Mirror`.
pub struct MirrorView {
    pub id: i64,
    pub distro_id: Seq<char>,
    pub url: Seq<char>,
    pub region: Seq<char>,
    pub priority: i32,
    pub status: Seq<char>,
}

impl View for Mirror {
    type V = MirrorView;

    open spec fn view(&self) -> MirrorView {
        MirrorView {
            id: self.id,
            distro_id: self.distro_id@,
            url: self.url@,
            region: self.region@,
            priority: self.priority,
            status: self.status@,
        }
    }
}

/// The mathematical value of a `Distro`.
pub struct DistroView {
    pub id: Seq<char>,
    pub name: Seq<char>,
    pub version: Seq<char>,
    pub category: Seq<char>,
    pub description: Seq<char>,
    pub size_bytes: i64,
    pub size_human: Seq<char>,
    pub verified: bool,
    pub date_added: Seq<char>,
    pub popularity: i32,
}

impl View for Distro {
    type V = DistroView;

    open spec fn view(&self) -> DistroView {
        DistroView {
            id: self.id@,
            name: self.name@,
            version: self.version@,
            category: self.category@,
            description: self.description@,
            size_bytes: self.size_bytes,
            size_human: self.size_human@,
            verified: self.verified,
            date_added: self.date_added@,
            popularity: self.popularity,
        }
    }
}

/// The text that a search runs over: name, version, category and
/// description in lower case, with one space between neighbours.
pub open spec fn search_text_of(d: DistroView) -> Seq<char> {
    lowercase_of(d.name) + seq![' '] + lowercase_of(d.version) + seq![' '] + lowercase_of(
        d.category,
    ) + seq![' '] + lowercase_of(d.description)
}

impl Distro {
    /// The text that a search for this distribution runs over.
    pub fn search_text(&self) -> (text: String)
        ensures
            text@ == search_text_of(self@),
    {
        let mut out: Vec<char> = Vec::new();
        push_text(&mut out, to_lowercase(self.name.as_str()).as_str());
        out.push(' ');
        push_text(&mut out, to_lowercase(self.version.as_str()).as_str());
        out.push(' ');
        push_text(&mut out, to_lowercase(self.category.as_str()).as_str());
        out.push(' ');
        push_text(&mut out, to_lowercase(self.description.as_str()).as_str());
        string_of(out.as_slice())
    }
}

} // verus!
