//! The queries that the program runs on its database.

use crate::text::{lowercase_of, push_text, string_of, to_lowercase};
use vstd::prelude::*;

verus! {

/// The connection to the catalog database. The queries are made here; who
/// holds the database runs them.
pub struct DbConnection;

/// The query that lists distributions, most popular first: all of them, or
/// those of one category.
pub open spec fn distros_query_text(category: Option<Seq<char>>) -> Seq<char> {
    match category {
        Some(c) => "SELECT id, name, version, category, description, size_bytes, size_human, verified, date_added, popularity FROM distros WHERE category = '"@
            + c + "' ORDER BY popularity DESC, name"@,
        None => "SELECT id, name, version, category, description, size_bytes, size_human, verified, date_added, popularity FROM distros ORDER BY popularity DESC, name"@,
    }
}

/// The pattern that a search for `query` matches search texts against: the
/// query in lower case between two wildcards.
pub open spec fn search_pattern_text(query: Seq<char>) -> Seq<char> {
    seq!['%'] + lowercase_of(query) + seq!['%']
}

impl DbConnection {
    /// The query that lists distributions, optionally of one category.
    pub fn distros_query(category: Option<&str>) -> (query: String)
        ensures
            query@ == distros_query_text(
                match category {
                    Some(c) => Some(c@),
                    None => None,
                },
            ),
    {
        let mut out: Vec<char> = Vec::new();
        match category {
            Some(c) => {
                push_text(
                    &mut out,
                    "SELECT id, name, version, category, description, size_bytes, size_human, verified, date_added, popularity FROM distros WHERE category = '",
                );
                push_text(&mut out, c);
                push_text(&mut out, "' ORDER BY popularity DESC, name");
            },
            None => {
                push_text(
                    &mut out,
                    "SELECT id, name, version, category, description, size_bytes, size_human, verified, date_added, popularity FROM distros ORDER BY popularity DESC, name",
                );
            },
        }
        string_of(out.as_slice())
    }

    /// The pattern that a search for `query` binds to its statement.
    pub fn search_pattern(query: &str) -> (pattern: String)
        ensures
            pattern@ == search_pattern_text(query@),
    {
        let mut out: Vec<char> = Vec::new();
        out.push('%');
        push_text(&mut out, to_lowercase(query).as_str());
        out.push('%');
        string_of(out.as_slice())
    }
}

} // verus!
