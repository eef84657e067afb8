//! Filling the database from the catalog that ships with the program.

use crate::db::models::{Distro, DistroView, Mirror, MirrorView};
use crate::text::{begins, chars_of, contains, holds, starts_with, string_of};
use vstd::prelude::*;

verus! {

/// The popularity of a distribution, by the start of its identifier; the
/// tests come in this order, and the first that holds decides.
pub open spec fn popularity_of(id: Seq<char>) -> i32 {
    if starts_with(id, "ubuntu"@) {
        99
    } else if starts_with(id, "fedora"@) {
        95
    } else if starts_with(id, "debian"@) {
        94
    } else if starts_with(id, "arch"@) {
        98
    } else if starts_with(id, "mint"@) {
        92
    } else if starts_with(id, "pop-os"@) {
        90
    } else if starts_with(id, "manjaro"@) {
        88
    } else if starts_with(id, "kali"@) {
        85
    } else if starts_with(id, "nixos"@) {
        82
    } else if starts_with(id, "tails"@) {
        80
    } else if starts_with(id, "qubes"@) {
        78
    } else {
        50
    }
}

/// The popularity score of a distribution; popular ones are shown first.
pub fn calculate_popularity(id: &str) -> (score: i32)
    ensures
        score == popularity_of(id@),
{
    let chars = chars_of(id);
    let s = chars.as_slice();
    if begins(s, "ubuntu") {
        99
    } else if begins(s, "fedora") {
        95
    } else if begins(s, "debian") {
        94
    } else if begins(s, "arch") {
        98
    } else if begins(s, "mint") {
        92
    } else if begins(s, "pop-os") {
        90
    } else if begins(s, "manjaro") {
        88
    } else if begins(s, "kali") {
        85
    } else if begins(s, "nixos") {
        82
    } else if begins(s, "tails") {
        80
    } else if begins(s, "qubes") {
        78
    } else {
        50
    }
}

/// The region that the address of a mirror tells of.
pub open spec fn region_of(url: Seq<char>) -> Seq<char> {
    if contains(url, "us."@) || contains(url, "usa"@) || contains(url, "america"@) {
        "US"@
    } else if contains(url, "eu."@) || contains(url, "europe"@) {
        "EU"@
    } else if contains(url, "asia"@) || contains(url, "jp."@) || contains(url, "cn."@) {
        "Asia"@
    } else {
        "Global"@
    }
}

/// Tells the region of a mirror from its address.
pub fn detect_region(url: &str) -> (region: String)
    ensures
        region@ == region_of(url@),
{
    let chars = chars_of(url);
    let s = chars.as_slice();
    let name: &str = if holds(s, "us.") || holds(s, "usa") || holds(s, "america") {
        "US"
    } else if holds(s, "eu.") || holds(s, "europe") {
        "EU"
    } else if holds(s, "asia") || holds(s, "jp.") || holds(s, "cn.") {
        "Asia"
    } else {
        "Global"
    };
    string_of(chars_of(name).as_slice())
}

/// Whether the database has to be filled: it holds no distribution, or
/// its count could not be read. `count` is the number of distributions,
/// `None` where reading it failed.
pub fn needs_migration(count: Option<usize>) -> (r: bool)
    ensures
        r == match count {
            Some(n) => n == 0,
            None => true,
        },
{
    match count {
        Some(n) => n == 0,
        None => true,
    }
}

/// A distribution as the catalog that ships with the program holds it.
#[derive(Debug, Clone, PartialEq, Eq)]
pub struct CatalogEntry {
    pub id: String,
    pub name: String,
    pub version: String,
    pub category: String,
    pub download_url: String,
    pub mirrors: Vec<String>,
    pub sha256: String,
    pub size_bytes: i64,
    pub size_human: String,
    pub description: String,
    pub verified: bool,
}

/// The database record that a catalog entry makes, added on the day
/// `today`.
pub open spec fn distro_record(entry: CatalogEntry, today: Seq<char>) -> DistroView {
    DistroView {
        id: entry.id@,
        name: entry.name@,
        version: entry.version@,
        category: entry.category@,
        description: entry.description@,
        size_bytes: entry.size_bytes,
        size_human: entry.size_human@,
        verified: entry.verified,
        date_added: today,
        popularity: popularity_of(entry.id@),
    }
}

/// The mirror record for the download address of a catalog entry: it comes
/// first and serves the whole world.
pub open spec fn primary_mirror(entry: CatalogEntry) -> MirrorView {
    MirrorView {
        id: 0,
        distro_id: entry.id@,
        url: entry.download_url@,
        region: "Global"@,
        priority: 1,
        status: "ok"@,
    }
}

/// The mirror record for the further mirror at position `index` of a
/// catalog entry.
pub open spec fn further_mirror(entry: CatalogEntry, index: int) -> MirrorView {
    MirrorView {
        id: 0,
        distro_id: entry.id@,
        url: entry.mirrors@[index]@,
        region: region_of(entry.mirrors@[index]@),
        priority: (index + 2) as i32,
        status: "ok"@,
    }
}

/// The mirror records of a catalog entry: the download address first, then
/// the further mirrors in their order.
pub open spec fn mirror_records(entry: CatalogEntry) -> Seq<MirrorView> {
    Seq::new(
        entry.mirrors@.len() + 1,
        |i: int|
            if i == 0 {
                primary_mirror(entry)
            } else {
                further_mirror(entry, i - 1)
            },
    )
}

/// The views of a run of mirrors.
pub open spec fn mirror_views(mirrors: Seq<Mirror>) -> Seq<MirrorView> {
    Seq::new(mirrors.len(), |i: int| mirrors[i]@)
}

/// The owned copy of a text.
fn copy_of(s: &String) -> (r: String)
    ensures
        r@ == s@,
{
    string_of(chars_of(s.as_str()).as_slice())
}

/// Makes the records of one catalog entry: the distribution and its
/// mirrors in the order in which they are to be inserted.
pub fn migration_records(entry: &CatalogEntry, today: &str) -> (r: (Distro, Vec<Mirror>))
    requires
        entry.mirrors@.len() + 2 <= i32::MAX,
    ensures
        r.0@ == distro_record(*entry, today@),
        mirror_views(r.1@) == mirror_records(*entry),
{
    let distro = Distro {
        id: copy_of(&entry.id),
        name: copy_of(&entry.name),
        version: copy_of(&entry.version),
        category: copy_of(&entry.category),
        description: copy_of(&entry.description),
        size_bytes: entry.size_bytes,
        size_human: copy_of(&entry.size_human),
        verified: entry.verified,
        date_added: string_of(chars_of(today).as_slice()),
        popularity: calculate_popularity(entry.id.as_str()),
    };
    let mut mirrors: Vec<Mirror> = Vec::new();
    mirrors.push(
        Mirror {
            id: 0,
            distro_id: copy_of(&entry.id),
            url: copy_of(&entry.download_url),
            region: string_of(chars_of("Global").as_slice()),
            priority: 1,
            status: string_of(chars_of("ok").as_slice()),
        },
    );
    let mut i: usize = 0;
    while i < entry.mirrors.len()
        invariant
            i <= entry.mirrors@.len(),
            entry.mirrors@.len() + 2 <= i32::MAX,
            mirrors@.len() == i + 1,
            forall|k: int| 0 <= k < mirrors@.len() ==> (#[trigger] mirrors@[k])@ == mirror_records(
                *entry,
            )[k],
        decreases entry.mirrors@.len() - i,
    {
        let url = &entry.mirrors[i];
        mirrors.push(
            Mirror {
                id: 0,
                distro_id: copy_of(&entry.id),
                url: copy_of(url),
                region: detect_region(url.as_str()),
                priority: (i + 2) as i32,
                status: string_of(chars_of("ok").as_slice()),
            },
        );
        i += 1;
    }
    assert(mirror_views(mirrors@) =~= mirror_records(*entry));
    (distro, mirrors)
}

} // verus!
