//! The Markdown report of a local RustUse fleet: its summary, its
//! repositories, the health of its manifests and its facades.

use vstd::prelude::*;
use vstd::string::StringExecFns;

use crate::fleet_model::{
    display_name_of, fleet_child_total, fleet_facade_status, fleet_has_warning, fleet_manifest_total, fleet_status,
    fleet_sum, missing_repo_total, version_text, FleetDiagnostics, FleetFacadeEntry, FleetRepoEntry,
};
use crate::manifest_model::{capped, count_fn, count_status, sum_over, FacadeManifestReport, ManifestCount};
use crate::markdown::{yes_no, yes_no_text};
use crate::project::{join, join_path};
use crate::text::{cat2, decimal, push_decimal, push_str, str_eq, usize_text, views};

verus! {

/// The file name of a fleet report.
pub const FLEET_REPORT_FILE_NAME: &'static str = "rustuse-fleet-report.md";

/// Where the report of a fleet is written: in the fleet's root.
pub fn default_fleet_report_path(fleet: &str) -> (path: String)
    ensures
        path@ == join_path(fleet@, FLEET_REPORT_FILE_NAME@),
{
    join(fleet, FLEET_REPORT_FILE_NAME)
}

/// The text that says whether a fleet has the standard name.
pub open spec fn standard_name_text(name: Seq<char>) -> Seq<char> {
    if name == "rustuse"@ {
        "yes"@
    } else {
        "no, expected `rustuse`"@
    }
}

/// The names in backticks, joined with `, `.
pub open spec fn quoted_names(s: Seq<Seq<char>>) -> Seq<char>
    decreases s.len(),
{
    if s.len() == 0 {
        seq![]
    } else if s.len() == 1 {
        "`"@ + s[0] + "`"@
    } else {
        quoted_names(s.drop_last()) + ", "@ + "`"@ + s.last() + "`"@
    }
}

/// The names shown for the facades without `.git`.
pub open spec fn missing_git_names(d: FleetDiagnostics) -> Seq<Seq<char>> {
    d.root_summary.missing_git@.map_values(|p: String| display_name_of(p@))
}

/// The title and summary of a fleet report.
pub open spec fn fleet_summary_text(d: FleetDiagnostics) -> Seq<char> {
    let names = missing_git_names(d);
    "# RustUse Fleet Report\n\n"@ + "## Summary\n\n"@
        + "- Fleet: `"@ + d.fleet@ + "`\n"@
        + "- Fleet name: `"@ + d.name@ + "`\n"@
        + "- CLI repository present: "@ + yes_no_text(d.root_summary.has_cli) + "\n"@
        + "- Documentation repository present: "@ + yes_no_text(d.root_summary.has_docs) + "\n"@
        + "- Standard fleet name: "@ + standard_name_text(d.name@) + "\n"@
        + "- Fleet repositories missing: `"@ + decimal(missing_repo_total(d.repos@)) + "`\n"@
        + "- `use-*` facades: `"@ + decimal(d.root_summary.use_dir_count as nat) + "`\n"@
        + "- Facades with `.git`: `"@ + decimal(d.root_summary.facade_git_count as nat) + "`\n"@
        + "- Facades missing `.git`: `"@ + decimal(d.root_summary.missing_git@.len()) + "`\n"@
        + "- Child crates detected: `"@ + decimal(capped(fleet_child_total(d.facades@))) + "`\n"@
        + "- Cargo manifests inspected: `"@ + decimal(capped(fleet_manifest_total(d.manifests@))) + "`\n"@
        + "- Cargo manifest issues: `"@ + decimal(capped(fleet_sum(d.manifests@, ManifestCount::Issues))) + "` (`"@
        + decimal(capped(fleet_sum(d.manifests@, ManifestCount::Errors))) + "` error(s), `"@
        + decimal(capped(fleet_sum(d.manifests@, ManifestCount::Warnings))) + "` warning(s))\n"@
        + "- Invalid crates.io category slugs: `"@ + decimal(capped(fleet_sum(d.manifests@, ManifestCount::InvalidCategories)))
        + "`\n"@
        + "- Status: **"@ + fleet_status(d) + "**\n"@
        + "\n"@
        + if names.len() == 0 {
        seq![]
    } else {
        "- Facades missing `.git`: "@ + quoted_names(names) + "\n\n"@
    }
}

fn write_missing_git_names(markdown: &mut String, names: &Vec<String>)
    ensures
        final(markdown)@ == old(markdown)@ + if names@.len() == 0 {
            seq![]
        } else {
            "- Facades missing `.git`: "@ + quoted_names(views(names@)) + "\n\n"@
        },
{
    if names.len() == 0 {
        assert(old(markdown)@ + Seq::<char>::empty() =~= old(markdown)@);
        return;
    }
    let mut s = String::from_str("- Facades missing `.git`: ");
    let ghost head = s@;
    let mut i: usize = 0;
    while i < names.len()
        invariant
            i <= names.len(),
            s@ == head + quoted_names(views(names@.take(i as int))),
        decreases names.len() - i,
    {
        let ghost before = s@;
        if i > 0 {
            push_str(&mut s, ", ");
        }
        let mut item = String::from_str("`");
        push_str(&mut item, names[i].as_str());
        push_str(&mut item, "`");
        push_str(&mut s, item.as_str());
        proof {
            let t = views(names@.take(i + 1));
            assert(t.drop_last() =~= views(names@.take(i as int)));
            assert(t.last() == names@[i as int]@);
            if i == 0 {
                assert(t.len() == 1 && t[0] == names@[0]@);
                assert(views(names@.take(0)) =~= Seq::<Seq<char>>::empty());
                assert(s@ =~= head + quoted_names(t));
            } else {
                assert(s@ =~= head + (quoted_names(views(names@.take(i as int))) + ", "@ + ("`"@ + names@[i as int]@ + "`"@)));
                assert(quoted_names(t) =~= quoted_names(views(names@.take(i as int))) + ", "@ + ("`"@ + names@[i as int]@ + "`"@));
            }
        }
        i = i + 1;
    }
    push_str(&mut s, "\n\n");
    assert(names@.take(i as int) =~= names@);
    push_str(markdown, s.as_str());
}

/// Appends the title and summary of the fleet report.
pub fn write_fleet_summary(markdown: &mut String, d: &FleetDiagnostics)
    ensures
        final(markdown)@ == old(markdown)@ + fleet_summary_text(*d),
{
    let mut s = String::from_str("# RustUse Fleet Report\n\n");
    push_str(&mut s, "## Summary\n\n");
    push_str(&mut s, "- Fleet: `");
    push_str(&mut s, d.fleet.as_str());
    push_str(&mut s, "`\n");
    push_str(&mut s, "- Fleet name: `");
    push_str(&mut s, d.name.as_str());
    push_str(&mut s, "`\n");
    push_str(&mut s, "- CLI repository present: ");
    push_str(&mut s, yes_no(d.has_cli()));
    push_str(&mut s, "\n");
    push_str(&mut s, "- Documentation repository present: ");
    push_str(&mut s, yes_no(d.has_docs()));
    push_str(&mut s, "\n");
    push_str(&mut s, "- Standard fleet name: ");
    let standard = str_eq(d.name.as_str(), "rustuse");
    push_str(&mut s, if standard { "yes" } else { "no, expected `rustuse`" });
    push_str(&mut s, "\n");
    push_str(&mut s, "- Fleet repositories missing: `");
    push_decimal(&mut s, d.missing_fleet_repo_count());
    push_str(&mut s, "`\n");
    push_str(&mut s, "- `use-*` facades: `");
    push_decimal(&mut s, d.facade_count());
    push_str(&mut s, "`\n");
    push_str(&mut s, "- Facades with `.git`: `");
    push_decimal(&mut s, d.facade_git_count());
    push_str(&mut s, "`\n");
    push_str(&mut s, "- Facades missing `.git`: `");
    push_decimal(&mut s, d.missing_facade_git_count());
    push_str(&mut s, "`\n");
    push_str(&mut s, "- Child crates detected: `");
    push_decimal(&mut s, d.child_crate_count());
    push_str(&mut s, "`\n");
    push_str(&mut s, "- Cargo manifests inspected: `");
    push_decimal(&mut s, d.manifest_count());
    push_str(&mut s, "`\n");
    push_str(&mut s, "- Cargo manifest issues: `");
    push_decimal(&mut s, d.manifest_issue_count());
    push_str(&mut s, "` (`");
    push_decimal(&mut s, d.manifest_error_count());
    push_str(&mut s, "` error(s), `");
    push_decimal(&mut s, d.manifest_warning_count());
    push_str(&mut s, "` warning(s))\n");
    push_str(&mut s, "- Invalid crates.io category slugs: `");
    push_decimal(&mut s, d.invalid_category_count());
    push_str(&mut s, "`\n");
    push_str(&mut s, "- Status: **");
    push_str(&mut s, d.status());
    push_str(&mut s, "**\n");
    push_str(&mut s, "\n");
    let names = d.missing_facade_git_names();
    assert(views(names@) =~= missing_git_names(*d));
    write_missing_git_names(&mut s, &names);
    push_str(markdown, s.as_str());
}

/// The table of contents of a fleet report.
pub open spec fn fleet_contents_text() -> Seq<char> {
    "## Contents\n\n"@
        + "- [Fleet Repositories](#fleet-repositories)\n"@
        + "- [Cargo Manifest Health](#cargo-manifest-health)\n"@
        + "  - [Manifest Issue Summary](#manifest-issue-summary)\n"@
        + "  - [Manifest Shape Summary](#manifest-shape-summary)\n"@
        + "  - [Manifest Summary by Facade](#manifest-summary-by-facade)\n"@
        + "  - [Top Manifest Offenders](#top-manifest-offenders)\n"@
        + "- [Facade Inventory](#facade-inventory)\n"@
        + "- [Notes](#notes)\n\n"@
}

/// Appends the table of contents of the fleet report.
pub fn write_fleet_contents(markdown: &mut String)
    ensures
        final(markdown)@ == old(markdown)@ + fleet_contents_text(),
{
    let mut s = String::from_str("## Contents\n\n");
    push_str(&mut s, "- [Fleet Repositories](#fleet-repositories)\n");
    push_str(&mut s, "- [Cargo Manifest Health](#cargo-manifest-health)\n");
    push_str(&mut s, "  - [Manifest Issue Summary](#manifest-issue-summary)\n");
    push_str(&mut s, "  - [Manifest Shape Summary](#manifest-shape-summary)\n");
    push_str(&mut s, "  - [Manifest Summary by Facade](#manifest-summary-by-facade)\n");
    push_str(&mut s, "  - [Top Manifest Offenders](#top-manifest-offenders)\n");
    push_str(&mut s, "- [Facade Inventory](#facade-inventory)\n");
    push_str(&mut s, "- [Notes](#notes)\n\n");
    push_str(markdown, s.as_str());
}

/// The row of one fleet repository.
pub open spec fn repo_row(r: FleetRepoEntry) -> Seq<char> {
    "| `"@ + r.name@ + "` | "@ + yes_no_text(r.present) + " | "@ + yes_no_text(r.has_git) + " |\n"@
}

/// The rows of the fleet repositories, in order.
pub open spec fn repo_rows(s: Seq<FleetRepoEntry>) -> Seq<char>
    decreases s.len(),
{
    if s.len() == 0 {
        seq![]
    } else {
        repo_rows(s.drop_last()) + repo_row(s.last())
    }
}

/// The section on the fleet repositories.
pub open spec fn fleet_repositories_text(d: FleetDiagnostics) -> Seq<char> {
    "## Fleet Repositories\n\n"@ + "| Repository | Present | Git |\n"@ + "|---|---:|---:|\n"@ + repo_rows(d.repos@) + "\n"@
}

/// Appends the section on the fleet repositories.
pub fn write_fleet_repositories(markdown: &mut String, d: &FleetDiagnostics)
    ensures
        final(markdown)@ == old(markdown)@ + fleet_repositories_text(*d),
{
    let mut s = String::from_str("## Fleet Repositories\n\n");
    push_str(&mut s, "| Repository | Present | Git |\n");
    push_str(&mut s, "|---|---:|---:|\n");
    let ghost head = s@;
    let mut i: usize = 0;
    while i < d.repos.len()
        invariant
            i <= d.repos.len(),
            s@ == head + repo_rows(d.repos@.take(i as int)),
        decreases d.repos.len() - i,
    {
        let r = &d.repos[i];
        let mut row = String::from_str("| `");
        push_str(&mut row, r.name.as_str());
        push_str(&mut row, "` | ");
        push_str(&mut row, yes_no(r.present));
        push_str(&mut row, " | ");
        push_str(&mut row, yes_no(r.has_git));
        push_str(&mut row, " |\n");
        push_str(&mut s, row.as_str());
        proof {
            assert(d.repos@.take(i + 1).drop_last() =~= d.repos@.take(i as int));
            assert(s@ =~= head + (repo_rows(d.repos@.take(i as int)) + repo_row(*r)));
        }
        i = i + 1;
    }
    push_str(&mut s, "\n");
    assert(d.repos@.take(i as int) =~= d.repos@);
    push_str(markdown, s.as_str());
}

/// The counts of a facade's manifest report: manifests, issues, errors,
/// warnings and invalid categories, each capped as the report counts them.
pub open spec fn report_counts(r: FacadeManifestReport) -> (nat, nat, nat, nat, nat) {
    (
        r.manifests@.len(),
        capped(sum_over(r.manifests@, count_fn(ManifestCount::Issues))),
        capped(sum_over(r.manifests@, count_fn(ManifestCount::Errors))),
        capped(sum_over(r.manifests@, count_fn(ManifestCount::Warnings))),
        capped(sum_over(r.manifests@, count_fn(ManifestCount::InvalidCategories))),
    )
}

/// The status of a facade's manifest report.
pub open spec fn report_status(r: FacadeManifestReport) -> Seq<char> {
    count_status(report_counts(r).2, report_counts(r).3)
}

/// The row of one facade in the summary by facade.
pub open spec fn by_facade_row(r: FacadeManifestReport) -> Seq<char> {
    let c = report_counts(r);
    "| "@ + report_status(r) + " | `"@ + r.facade_name@ + "` | "@ + decimal(c.0) + " | "@ + decimal(c.2) + " | "@ + decimal(c.3)
        + " | "@ + decimal(c.4) + " |\n"@
}

/// The rows of the summary by facade, in order.
pub open spec fn by_facade_rows(s: Seq<FacadeManifestReport>) -> Seq<char>
    decreases s.len(),
{
    if s.len() == 0 {
        seq![]
    } else {
        by_facade_rows(s.drop_last()) + by_facade_row(s.last())
    }
}

/// The manifest summary by facade.
pub open spec fn by_facade_text(s: Seq<FacadeManifestReport>) -> Seq<char> {
    "### Manifest Summary by Facade\n\n"@ + "| Status | Facade | Manifests | Errors | Warnings | Invalid Categories |\n"@
        + "|---|---|---:|---:|---:|---:|\n"@ + by_facade_rows(s) + "\n"@
}

/// Appends the manifest summary by facade.
pub fn write_manifest_summary_by_facade(markdown: &mut String, reports: &Vec<FacadeManifestReport>)
    ensures
        final(markdown)@ == old(markdown)@ + by_facade_text(reports@),
{
    let mut s = String::from_str("### Manifest Summary by Facade\n\n");
    push_str(&mut s, "| Status | Facade | Manifests | Errors | Warnings | Invalid Categories |\n");
    push_str(&mut s, "|---|---|---:|---:|---:|---:|\n");
    let ghost head = s@;
    let mut i: usize = 0;
    while i < reports.len()
        invariant
            i <= reports.len(),
            s@ == head + by_facade_rows(reports@.take(i as int)),
        decreases reports.len() - i,
    {
        let r = &reports[i];
        let mut row = String::from_str("| ");
        push_str(&mut row, r.status());
        push_str(&mut row, " | `");
        push_str(&mut row, r.facade_name.as_str());
        push_str(&mut row, "` | ");
        push_decimal(&mut row, r.manifest_count());
        push_str(&mut row, " | ");
        push_decimal(&mut row, r.error_count());
        push_str(&mut row, " | ");
        push_decimal(&mut row, r.warning_count());
        push_str(&mut row, " | ");
        push_decimal(&mut row, r.invalid_category_count());
        push_str(&mut row, " |\n");
        assert(row@ == by_facade_row(*r));
        push_str(&mut s, row.as_str());
        proof {
            assert(reports@.take(i + 1).drop_last() =~= reports@.take(i as int));
            assert(s@ =~= head + (by_facade_rows(reports@.take(i as int)) + by_facade_row(*r)));
        }
        i = i + 1;
    }
    push_str(&mut s, "\n");
    assert(reports@.take(i as int) =~= reports@);
    push_str(markdown, s.as_str());
}

/// The row of one facade in the inventory.
pub open spec fn inventory_row(f: FleetFacadeEntry) -> Seq<char> {
    "| "@ + fleet_facade_status(f) + " | `"@ + f.name@ + "` | `"@ + version_text(f.version) + "` | "@ + yes_no_text(f.has_git)
        + " | "@ + yes_no_text(f.has_cargo_toml) + " | "@ + yes_no_text(f.has_crates_dir) + " | "@
        + decimal(f.child_crate_count as nat) + " |\n"@
}

/// The inventory rows, in order.
pub open spec fn inventory_rows(s: Seq<FleetFacadeEntry>) -> Seq<char>
    decreases s.len(),
{
    if s.len() == 0 {
        seq![]
    } else {
        inventory_rows(s.drop_last()) + inventory_row(s.last())
    }
}

/// The section on the fleet's facades.
pub open spec fn facade_inventory_text(d: FleetDiagnostics) -> Seq<char> {
    "## Facade Inventory\n\n"@ + "| Status | Facade | Version | Git | Cargo.toml | crates/ | Child crates |\n"@
        + "|---|---|---:|---:|---:|---:|---:|\n"@ + inventory_rows(d.facades@) + "\n"@
}

/// Appends the section on the fleet's facades.
pub fn write_facade_inventory(markdown: &mut String, d: &FleetDiagnostics)
    ensures
        final(markdown)@ == old(markdown)@ + facade_inventory_text(*d),
{
    let mut s = String::from_str("## Facade Inventory\n\n");
    push_str(&mut s, "| Status | Facade | Version | Git | Cargo.toml | crates/ | Child crates |\n");
    push_str(&mut s, "|---|---|---:|---:|---:|---:|---:|\n");
    let ghost head = s@;
    let mut i: usize = 0;
    while i < d.facades.len()
        invariant
            i <= d.facades.len(),
            s@ == head + inventory_rows(d.facades@.take(i as int)),
        decreases d.facades.len() - i,
    {
        let f = &d.facades[i];
        let mut row = String::from_str("| ");
        push_str(&mut row, f.status());
        push_str(&mut row, " | `");
        push_str(&mut row, f.name.as_str());
        push_str(&mut row, "` | `");
        push_str(&mut row, crate::fleet_model::display_version(&f.version));
        push_str(&mut row, "` | ");
        push_str(&mut row, yes_no(f.has_git));
        push_str(&mut row, " | ");
        push_str(&mut row, yes_no(f.has_cargo_toml));
        push_str(&mut row, " | ");
        push_str(&mut row, yes_no(f.has_crates_dir));
        push_str(&mut row, " | ");
        push_decimal(&mut row, f.child_crate_count);
        push_str(&mut row, " |\n");
        assert(row@ == inventory_row(*f));
        push_str(&mut s, row.as_str());
        proof {
            assert(d.facades@.take(i + 1).drop_last() =~= d.facades@.take(i as int));
            assert(s@ =~= head + (inventory_rows(d.facades@.take(i as int)) + inventory_row(*f)));
        }
        i = i + 1;
    }
    push_str(&mut s, "\n");
    assert(d.facades@.take(i as int) =~= d.facades@);
    push_str(markdown, s.as_str());
}

/// The closing notes of a fleet report.
pub open spec fn fleet_notes_text() -> Seq<char> {
    "## Notes\n\n"@
        + "- This report is generated from the local filesystem.\n"@
        + "- `use-*` directories are treated as facade candidates in the Fleet.\n"@
        + "- A facade repository is expected to contain its own `.git` directory.\n"@
        + "- `crates/` child counts only include direct child directories with `Cargo.toml`.\n"@
        + "- Manifest errors are treated as publish blockers because crates.io rejects invalid category slugs and other invalid Cargo metadata.\n"@
}

/// Appends the closing notes of the fleet report.
pub fn write_fleet_notes(markdown: &mut String)
    ensures
        final(markdown)@ == old(markdown)@ + fleet_notes_text(),
{
    let mut s = String::from_str("## Notes\n\n");
    push_str(&mut s, "- This report is generated from the local filesystem.\n");
    push_str(&mut s, "- `use-*` directories are treated as facade candidates in the Fleet.\n");
    push_str(&mut s, "- A facade repository is expected to contain its own `.git` directory.\n");
    push_str(&mut s, "- `crates/` child counts only include direct child directories with `Cargo.toml`.\n");
    push_str(
        &mut s,
        "- Manifest errors are treated as publish blockers because crates.io rejects invalid category slugs and other invalid Cargo metadata.\n",
    );
    push_str(markdown, s.as_str());
}

/// The lines that announce a written fleet report, in text.
pub open spec fn fleet_response_text(d: FleetDiagnostics, output: Seq<char>) -> Seq<Seq<char>> {
    seq![
        "RustUse fleet report - fleet: "@ + d.fleet@,
        "status: "@ + fleet_status(d),
        "facades: "@ + decimal(d.root_summary.use_dir_count as nat),
        "child crates: "@ + decimal(capped(fleet_child_total(d.facades@))),
        "manifests: "@ + decimal(capped(fleet_manifest_total(d.manifests@))),
        "errors: "@ + decimal(capped(fleet_sum(d.manifests@, ManifestCount::Errors))),
        "warnings: "@ + decimal(capped(fleet_sum(d.manifests@, ManifestCount::Warnings))),
        "wrote: "@ + output,
    ]
}

/// The lines that announce the report of a fleet written to `output`.
pub fn fleet_response_lines(d: &FleetDiagnostics, output: &str) -> (lines: Vec<String>)
    ensures
        views(lines@) == fleet_response_text(*d, output@),
{
    let mut lines: Vec<String> = Vec::new();
    lines.push(cat2("RustUse fleet report - fleet: ", d.fleet.as_str()));
    lines.push(cat2("status: ", d.status()));
    lines.push(cat2("facades: ", usize_text(d.facade_count()).as_str()));
    lines.push(cat2("child crates: ", usize_text(d.child_crate_count()).as_str()));
    lines.push(cat2("manifests: ", usize_text(d.manifest_count()).as_str()));
    lines.push(cat2("errors: ", usize_text(d.manifest_error_count()).as_str()));
    lines.push(cat2("warnings: ", usize_text(d.manifest_warning_count()).as_str()));
    lines.push(cat2("wrote: ", output));
    assert(views(lines@) =~= fleet_response_text(*d, output@));
    lines
}

} // verus!
