//! Detection of V-Key, a device-binding and anti-tamper SDK.
use crate::engine::{check_rule, detects, reports, CheckResults, FingerprintRule};
use crate::text::views;
use vstd::prelude::*;

verus! {

/// The framework's display name.
pub open spec fn framework() -> Seq<char> {
    "V-Key"@
}

/// The path expressions that betray the framework.
pub open spec fn signatures() -> Seq<Seq<char>> {
    seq![
        "lib/.*/libchecks.so"@,
        "lib/.*/libvtap.so"@,
        "lib/.*/libvosWrapperEx.so"@,
        "assets/vkeylicensepack"@,
        "assets/vkeylicensepack.json"@,
    ]
}

/// The framework's rule.
pub fn rule() -> (r: FingerprintRule)
    ensures
        r@ == (framework(), signatures()),
{
    let mut patterns: Vec<String> = Vec::new();
    patterns.push("lib/.*/libchecks.so".to_owned());
    patterns.push("lib/.*/libvtap.so".to_owned());
    patterns.push("lib/.*/libvosWrapperEx.so".to_owned());
    patterns.push("assets/vkeylicensepack".to_owned());
    patterns.push("assets/vkeylicensepack.json".to_owned());
    let r = FingerprintRule { name: "V-Key".to_owned(), patterns };
    assert(views(r.patterns@) =~= signatures());
    r
}

/// Looks for the framework among an archive's entry paths.
pub fn check(f: &Vec<String>) -> (r: Option<CheckResults>)
    ensures
        r is Some <==> detects(signatures(), views(f@)),
        r matches Some(c) ==> reports(c, (framework(), signatures()), views(f@)),
{
    check_rule(&rule(), f)
}

} // verus!
