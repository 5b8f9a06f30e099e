//! Building a catalog from a RustUse root: one entry per `use-*` facade
//! directory and one per `use-*` child crate directory beneath it.

use vstd::prelude::*;
use vstd::string::StringExecFns;

use crate::catalog::{entry_views, is_name_index_of, sort_dedup_by_name, CatalogEntry, DistributionMode, EntryView};
use crate::text::{cat3, cat5, is_prefix, starts_with};

verus! {

/// The catalog entry of a facade.
pub open spec fn facade_entry_view(name: Seq<char>) -> EntryView {
    EntryView {
        name,
        kind: "facade crate"@,
        set: name,
        docs_url: "https://rustuse.org/"@ + name + "/"@,
        api_docs_url: "https://rustuse.org/api/"@ + name + "/"@,
        workspace_docs_url: Some("https://rustuse.org/api/workspaces/"@ + name + "/"@),
        modes: seq![DistributionMode::Cargo, DistributionMode::Cli],
    }
}

/// The catalog entry of a child crate of a facade.
pub open spec fn child_entry_view(facade: Seq<char>, name: Seq<char>) -> EntryView {
    EntryView {
        name,
        kind: "child crate"@,
        set: facade,
        docs_url: "https://rustuse.org/"@ + facade + "/"@ + name + "/"@,
        api_docs_url: "https://rustuse.org/api/"@ + name + "/"@,
        workspace_docs_url: Some("https://rustuse.org/api/workspaces/"@ + facade + "/"@),
        modes: seq![DistributionMode::Cargo, DistributionMode::Copy, DistributionMode::Cli],
    }
}

/// The catalog entry of the facade `name`.
pub fn facade_entry(name: &str) -> (e: CatalogEntry)
    ensures
        e@ == facade_entry_view(name@),
{
    let e = CatalogEntry {
        name: name.to_owned(),
        kind: String::from_str("facade crate"),
        set: name.to_owned(),
        docs_url: cat3("https://rustuse.org/", name, "/"),
        api_docs_url: cat3("https://rustuse.org/api/", name, "/"),
        workspace_docs_url: Some(cat3("https://rustuse.org/api/workspaces/", name, "/")),
        modes: vec![DistributionMode::Cargo, DistributionMode::Cli],
    };
    assert(e@ =~= facade_entry_view(name@));
    e
}

/// The catalog entry of the child crate `name` of the facade `facade`.
pub fn child_entry(facade: &str, name: &str) -> (e: CatalogEntry)
    ensures
        e@ == child_entry_view(facade@, name@),
{
    let e = CatalogEntry {
        name: name.to_owned(),
        kind: String::from_str("child crate"),
        set: facade.to_owned(),
        docs_url: cat5("https://rustuse.org/", facade, "/", name, "/"),
        api_docs_url: cat3("https://rustuse.org/api/", name, "/"),
        workspace_docs_url: Some(cat3("https://rustuse.org/api/workspaces/", facade, "/")),
        modes: vec![DistributionMode::Cargo, DistributionMode::Copy, DistributionMode::Cli],
    };
    assert(e@ =~= child_entry_view(facade@, name@));
    e
}

/// A directory of a RustUse root and the directories under its `crates/`
/// (none where it has no such directory).
#[derive(Clone, Debug)]
pub struct FacadeListing {
    pub name: String,
    pub crate_dirs: Vec<String>,
}

/// The entries that the child directories of a facade give, in order.
pub open spec fn child_entries(facade: Seq<char>, dirs: Seq<String>) -> Seq<EntryView>
    decreases dirs.len(),
{
    if dirs.len() == 0 {
        seq![]
    } else {
        child_entries(facade, dirs.drop_last()) + if is_prefix("use-"@, dirs.last()@) {
            seq![child_entry_view(facade, dirs.last()@)]
        } else {
            seq![]
        }
    }
}

/// The entries that the directories of a root give, in listing order.
pub open spec fn listing_entries(listing: Seq<FacadeListing>) -> Seq<EntryView>
    decreases listing.len(),
{
    if listing.len() == 0 {
        seq![]
    } else {
        let f = listing.last();
        listing_entries(listing.drop_last()) + if is_prefix("use-"@, f.name@) {
            seq![facade_entry_view(f.name@)] + child_entries(f.name@, f.crate_dirs@)
        } else {
            seq![]
        }
    }
}

/// The catalog of a RustUse root: the entries of its `use-*` directories
/// and their `use-*` child crates, sorted by name, each name once.
pub fn discover_catalog_from_root(listing: &Vec<FacadeListing>) -> (index: Vec<CatalogEntry>)
    ensures
        is_name_index_of(entry_views(index@), listing_entries(listing@)),
{
    let mut entries: Vec<CatalogEntry> = Vec::new();
    let mut i: usize = 0;
    while i < listing.len()
        invariant
            i <= listing.len(),
            entry_views(entries@) == listing_entries(listing@.take(i as int)),
        decreases listing.len() - i,
    {
        assert(listing@.take(i + 1).drop_last() =~= listing@.take(i as int));
        let f = &listing[i];
        let ghost before = entry_views(entries@);
        if starts_with(f.name.as_str(), "use-") {
            proof {
                reveal_strlit("use-");
            }
            entries.push(facade_entry(f.name.as_str()));
            let ghost head = entry_views(entries@);
            assert(head =~= before + seq![facade_entry_view(f.name@)]);
            let mut j: usize = 0;
            while j < f.crate_dirs.len()
                invariant
                    j <= f.crate_dirs.len(),
                    entry_views(entries@) == head + child_entries(f.name@, f.crate_dirs@.take(j as int)),
                decreases f.crate_dirs.len() - j,
            {
                assert(f.crate_dirs@.take(j + 1).drop_last() =~= f.crate_dirs@.take(j as int));
                let ghost mid = entry_views(entries@);
                if starts_with(f.crate_dirs[j].as_str(), "use-") {
                    entries.push(child_entry(f.name.as_str(), f.crate_dirs[j].as_str()));
                    assert(entry_views(entries@) =~= mid + seq![child_entry_view(f.name@, f.crate_dirs@[j as int]@)]);
                } else {
                    assert(entry_views(entries@) =~= mid);
                }
                assert(entry_views(entries@) =~= head + child_entries(f.name@, f.crate_dirs@.take(j + 1)));
                j = j + 1;
            }
            assert(f.crate_dirs@.take(j as int) =~= f.crate_dirs@);
        }
        assert(entry_views(entries@) =~= listing_entries(listing@.take(i + 1)));
        i = i + 1;
    }
    assert(listing@.take(i as int) =~= listing@);
    sort_dedup_by_name(entries)
}

/// How many names of `names` start with `use-`.
pub open spec fn count_use_names(names: Seq<String>) -> nat
    decreases names.len(),
{
    if names.len() == 0 {
        0
    } else {
        count_use_names(names.drop_last()) + if is_prefix("use-"@, names.last()@) { 1nat } else { 0nat }
    }
}

/// Whether a directory whose subdirectories are `dir_names` looks like a
/// RustUse root: at least three of them are `use-*` repositories.
pub fn looks_like_rustuse_root(dir_names: &Vec<String>) -> (r: bool)
    ensures
        r == (count_use_names(dir_names@) >= 3),
{
    let mut count: usize = 0;
    let mut i: usize = 0;
    while i < dir_names.len()
        invariant
            i <= dir_names.len(),
            count == count_use_names(dir_names@.take(i as int)),
            count <= i,
        decreases dir_names.len() - i,
    {
        assert(dir_names@.take(i + 1).drop_last() =~= dir_names@.take(i as int));
        if starts_with(dir_names[i].as_str(), "use-") {
            count = count + 1;
        }
        i = i + 1;
    }
    assert(dir_names@.take(i as int) =~= dir_names@);
    count >= 3
}

} // verus!
