//! Static fingerprinting of Android application packages: framework
//! detection from archive entry paths, and extraction of a typed summary
//! from a decoded manifest element tree.
pub mod android_manifest;
pub mod engine;
pub mod pattern;
pub mod permission;
pub mod rules;
pub mod text;

pub use engine::{CheckResults, FingerprintRule};

use engine::{detections, reports, rule_views, scan};
use rules::{catalogue, catalogue_view};
use text::views;
use vstd::prelude::*;

verus! {

/// Runs every rule of the catalogue over an archive's entry paths. The
/// frameworks found come in catalogue order, each with its matching paths in
/// ascending order.
pub fn run_checks(files: Vec<String>) -> (r: Vec<CheckResults>)
    ensures
        r@.len() == detections(catalogue_view(), views(files@)).len(),
        forall|k: int|
            0 <= k < r@.len() ==> reports(
                #[trigger] r@[k],
                catalogue_view()[detections(catalogue_view(), views(files@))[k]],
                views(files@),
            ),
{
    let rules = catalogue();
    scan(&files, &rules)
}

} // verus!
