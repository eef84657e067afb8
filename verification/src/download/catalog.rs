//! The catalog of distributions that can be downloaded.

use vstd::prelude::*;

verus! {

/// The family of a distribution.
#[derive(Debug, Clone, Copy, PartialEq, Eq, Structural)]
pub enum DistroCategory {
    Ubuntu,
    Fedora,
    Mint,
    Debian,
    Arch,
    Other,
}

impl DistroCategory {
    /// The name shown for each category.
    pub open spec fn label(self) -> Seq<char> {
        match self {
            DistroCategory::Ubuntu => "Ubuntu"@,
            DistroCategory::Fedora => "Fedora"@,
            DistroCategory::Mint => "Linux Mint"@,
            DistroCategory::Debian => "Debian"@,
            DistroCategory::Arch => "Arch Linux"@,
            DistroCategory::Other => "Other"@,
        }
    }

    /// The name shown for this category.
    pub fn display_name(&self) -> (s: &'static str)
        ensures
            s@ == self.label(),
    {
        match self {
            DistroCategory::Ubuntu => "Ubuntu",
            DistroCategory::Fedora => "Fedora",
            DistroCategory::Mint => "Linux Mint",
            DistroCategory::Debian => "Debian",
            DistroCategory::Arch => "Arch Linux",
            DistroCategory::Other => "Other",
        }
    }
}

/// One distribution of the catalog.
#[derive(Debug, Clone, PartialEq, Eq)]
pub struct Distro {
    pub id: String,
    pub name: String,
    pub version: String,
    pub category: DistroCategory,
    pub download_url: String,
    pub sha256: String,
    pub size_bytes: u64,
    pub size_human: String,
    pub description: String,
    pub verified: bool,
}

/// The whole catalog.
#[derive(Debug, Clone, PartialEq, Eq)]
pub struct DistrosCatalog {
    pub version: u32,
    pub last_updated: String,
    pub distros: Vec<Distro>,
}

/// The distributions of `distros` that belong to `category`, in their
/// order.
pub open spec fn of_category(distros: Seq<Distro>, category: DistroCategory) -> Seq<Distro>
    decreases distros.len(),
{
    if distros.len() == 0 {
        Seq::empty()
    } else if distros.last().category == category {
        of_category(distros.drop_last(), category).push(distros.last())
    } else {
        of_category(distros.drop_last(), category)
    }
}

/// Whether a distribution of `distros` belongs to `category`.
pub open spec fn has_category(distros: Seq<Distro>, category: DistroCategory) -> bool {
    exists|i: int| 0 <= i < distros.len() && (#[trigger] distros[i]).category == category
}

/// The categories in the order in which they are listed: by their
/// identifiers in alphabetical order.
pub open spec fn category_order() -> Seq<DistroCategory> {
    seq![
        DistroCategory::Arch,
        DistroCategory::Debian,
        DistroCategory::Fedora,
        DistroCategory::Mint,
        DistroCategory::Other,
        DistroCategory::Ubuntu,
    ]
}

/// The first `n` categories of the listing order that occur in `distros`.
pub open spec fn categories_among(distros: Seq<Distro>, n: int) -> Seq<DistroCategory>
    decreases n,
{
    if n <= 0 {
        Seq::empty()
    } else if has_category(distros, category_order()[n - 1]) {
        categories_among(distros, n - 1).push(category_order()[n - 1])
    } else {
        categories_among(distros, n - 1)
    }
}

/// What a run of references points to.
pub open spec fn referents(refs: Seq<&Distro>) -> Seq<Distro> {
    Seq::new(refs.len(), |i: int| *refs[i])
}

impl DistrosCatalog {
    /// The distributions of one category, in the order of the catalog.
    pub fn by_category(&self, category: DistroCategory) -> (found: Vec<&Distro>)
        ensures
            referents(found@) == of_category(self.distros@, category),
    {
        let mut found: Vec<&Distro> = Vec::new();
        let mut i: usize = 0;
        assert(referents(found@) == Seq::<Distro>::empty());
        assert(self.distros@.take(0) == Seq::<Distro>::empty());
        while i < self.distros.len()
            invariant
                i <= self.distros.len(),
                referents(found@) == of_category(self.distros@.take(i as int), category),
            decreases self.distros.len() - i,
        {
            let ghost before = referents(found@);
            let ghost head = self.distros@.take(i + 1);
            assert(head.drop_last() == self.distros@.take(i as int));
            assert(head.last() == self.distros@[i as int]);
            let d = &self.distros[i];
            if d.category == category {
                found.push(d);
                assert(referents(found@) == before.push(*d));
            }
            i += 1;
        }
        assert(self.distros@.take(self.distros.len() as int) == self.distros@);
        found
    }

    /// Tests whether a distribution of the catalog belongs to `category`.
    pub fn has(&self, category: DistroCategory) -> (r: bool)
        ensures
            r == has_category(self.distros@, category),
    {
        let mut i: usize = 0;
        while i < self.distros.len()
            invariant
                i <= self.distros.len(),
                forall|k: int| 0 <= k < i ==> (#[trigger] self.distros@[k]).category != category,
            decreases self.distros.len() - i,
        {
            if self.distros[i].category == category {
                return true;
            }
            i += 1;
        }
        false
    }

    /// The categories that occur in the catalog, each once, in the listing
    /// order.
    pub fn categories(&self) -> (cats: Vec<DistroCategory>)
        ensures
            cats@ == categories_among(self.distros@, 6),
    {
        let order: [DistroCategory; 6] = [
            DistroCategory::Arch,
            DistroCategory::Debian,
            DistroCategory::Fedora,
            DistroCategory::Mint,
            DistroCategory::Other,
            DistroCategory::Ubuntu,
        ];
        assert(order@ == category_order());
        let mut cats: Vec<DistroCategory> = Vec::new();
        let mut i: usize = 0;
        while i < 6
            invariant
                i <= 6,
                order@ == category_order(),
                cats@ == categories_among(self.distros@, i as int),
            decreases 6 - i,
        {
            let c = order[i];
            if self.has(c) {
                cats.push(c);
            }
            i += 1;
        }
        cats
    }
}

} // verus!
