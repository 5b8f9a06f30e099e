//! Adopting a catalog crate into a project: which requests can go ahead and
//! what the refused ones are answered.

use vstd::prelude::*;
use vstd::string::StringExecFns;

use crate::catalog::{find_by_name, generated_view, has_name, CatalogEntry, DistributionMode, EntryView};
use crate::text::{cat3, cat4};

verus! {

/// How a crate is adopted.
#[derive(Clone, Copy, Debug, PartialEq, Eq, Structural, Hash)]
pub enum AdoptionMode {
    /// As a Cargo dependency.
    Cargo,
    /// As source owned by the project.
    Own,
}

/// The label of a mode.
pub open spec fn adoption_label(m: AdoptionMode) -> Seq<char> {
    match m {
        AdoptionMode::Cargo => "cargo"@,
        AdoptionMode::Own => "own"@,
    }
}

impl AdoptionMode {
    /// The label of the mode.
    pub fn as_str(self) -> (label: &'static str)
        ensures
            label@ == adoption_label(self),
    {
        match self {
            AdoptionMode::Cargo => "cargo",
            AdoptionMode::Own => "own",
        }
    }
}

/// What an adoption did.
#[derive(Clone, Debug)]
pub struct AdoptionResult {
    pub name: String,
    pub mode: AdoptionMode,
    pub dry_run: bool,
}

/// The status word of an adoption.
pub open spec fn adoption_status(dry_run: bool, mode: AdoptionMode) -> Seq<char> {
    if dry_run {
        "dry-run"@
    } else {
        match mode {
            AdoptionMode::Cargo => "added"@,
            AdoptionMode::Own => "owned"@,
        }
    }
}

impl AdoptionResult {
    /// `dry-run` for a preview, else `added` or `owned` by mode.
    pub fn status(&self) -> (s: &'static str)
        ensures
            s@ == adoption_status(self.dry_run, self.mode),
    {
        if self.dry_run {
            return "dry-run";
        }
        match self.mode {
            AdoptionMode::Cargo => "added",
            AdoptionMode::Own => "owned",
        }
    }
}

/// Whether an entry's distribution modes include `mode`: they are compared
/// by label, so owned-source adoption is never listed.
pub open spec fn entry_supports(e: EntryView, mode: AdoptionMode) -> bool {
    mode == AdoptionMode::Cargo && e.modes.contains(DistributionMode::Cargo)
}

/// The refusal of a mode an entry does not offer.
pub open spec fn unsupported_mode_message(name: Seq<char>, mode: AdoptionMode) -> Seq<char> {
    "RustUse entry `"@ + name + "` does not support `"@ + adoption_label(mode) + "` adoption."@
}

/// Checks that `entry` can be adopted in `mode`.
pub fn ensure_mode_supported(entry: &CatalogEntry, mode: AdoptionMode) -> (r: Result<(), String>)
    ensures
        match r {
            Ok(()) => entry_supports(entry@, mode),
            Err(e) => !entry_supports(entry@, mode) && e@ == unsupported_mode_message(entry.name@, mode),
        },
{
    let mut supported = false;
    if mode == AdoptionMode::Cargo {
        let mut i: usize = 0;
        while i < entry.modes.len()
            invariant
                i <= entry.modes.len(),
                supported == exists|k: int| 0 <= k < i && entry.modes@[k] == DistributionMode::Cargo,
            decreases entry.modes.len() - i,
        {
            if entry.modes[i] == DistributionMode::Cargo {
                supported = true;
            }
            i = i + 1;
        }
    }
    assert(supported == (entry.modes@.contains(DistributionMode::Cargo) && mode == AdoptionMode::Cargo)) by {
        if mode == AdoptionMode::Cargo && entry.modes@.contains(DistributionMode::Cargo) {
            let k = choose|k: int| 0 <= k < entry.modes@.len() && entry.modes@[k] == DistributionMode::Cargo;
            assert(0 <= k < entry.modes@.len());
        }
    }
    assert(entry@.modes == entry.modes@);
    if supported {
        Ok(())
    } else {
        let mut e = cat4("RustUse entry `", entry.name.as_str(), "` does not support `", mode.as_str());
        e.append("` adoption.");
        Err(e)
    }
}

/// The refusal of a name the catalog does not hold.
pub open spec fn unknown_entry_message(name: Seq<char>) -> Seq<char> {
    "No RustUse entry found for `"@ + name + "`."@
}

/// The refusal of owned-source adoption.
pub open spec fn owned_unavailable_message(name: Seq<char>) -> Seq<char> {
    "Owned-source adoption is not implemented yet for `"@ + name
        + "`. Use the default Cargo adoption mode for now."@
}

/// Decides an adoption request: on success the name of the catalog entry to
/// add through Cargo (which is then run unless the request is a dry run).
/// Refused are a name that is not in the catalog, owned-source adoption, and
/// Cargo adoption of an entry not distributed through Cargo.
pub fn plan_adoption(name: &str, mode: AdoptionMode) -> (r: Result<String, String>)
    ensures
        !has_name(generated_view(), name@) ==> (r matches Err(e) && e@ == unknown_entry_message(name@)),
        has_name(generated_view(), name@) && mode == AdoptionMode::Own ==> (r matches Err(e) && e@
            == owned_unavailable_message(name@)),
        has_name(generated_view(), name@) && mode == AdoptionMode::Cargo ==> match r {
            Ok(n) => n@ == name@ && exists|k: int|
                0 <= k < generated_view().len() && #[trigger] generated_view()[k].name == name@
                    && generated_view()[k].modes.contains(DistributionMode::Cargo),
            Err(e) => e@ == unsupported_mode_message(name@, mode) && forall|k: int|
                0 <= k < generated_view().len() && #[trigger] generated_view()[k].name == name@
                    ==> !generated_view()[k].modes.contains(DistributionMode::Cargo),
        },
{
    let entry = match find_by_name(name) {
        Some(entry) => entry,
        None => {
            return Err(cat3("No RustUse entry found for `", name, "`."));
        },
    };
    proof {
        crate::catalog::lemma_generated_names_distinct();
        let k = choose|k: int| 0 <= k < generated_view().len() && generated_view()[k] == entry@;
        assert(generated_view()[k].name == name@);
    }
    match mode {
        AdoptionMode::Cargo => {
            match ensure_mode_supported(&entry, AdoptionMode::Cargo) {
                Ok(()) => Ok(entry.name),
                Err(e) => Err(e),
            }
        },
        AdoptionMode::Own => {
            Err(cat3("Owned-source adoption is not implemented yet for `", name,
                "`. Use the default Cargo adoption mode for now."))
        },
    }
}

} // verus!
