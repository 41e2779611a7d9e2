//! The catalogue of framework rules.
pub mod cordova;
pub mod flutter;
pub mod kony;
pub mod reactnative;
pub mod rootbeer;
pub mod vkey;
pub mod xamarin;

use crate::engine::{rule_views, FingerprintRule};
use vstd::prelude::*;

verus! {

/// The catalogue, in declaration order.
pub open spec fn catalogue_view() -> Seq<(Seq<char>, Seq<Seq<char>>)> {
    seq![
        (vkey::framework(), vkey::signatures()),
        (reactnative::framework(), reactnative::signatures()),
        (kony::framework(), kony::signatures()),
        (rootbeer::framework(), rootbeer::signatures()),
        (cordova::framework(), cordova::signatures()),
        (flutter::framework(), flutter::signatures()),
        (xamarin::framework(), xamarin::signatures()),
    ]
}

/// Builds the catalogue of rules, in declaration order.
pub fn catalogue() -> (r: Vec<FingerprintRule>)
    ensures
        rule_views(r@) == catalogue_view(),
{
    let mut r: Vec<FingerprintRule> = Vec::new();
    r.push(vkey::rule());
    r.push(reactnative::rule());
    r.push(kony::rule());
    r.push(rootbeer::rule());
    r.push(cordova::rule());
    r.push(flutter::rule());
    r.push(xamarin::rule());
    assert(rule_views(r@) =~= catalogue_view());
    r
}

} // verus!
