//! Detection of React Native, a JavaScript-bridge mobile framework.
use crate::engine::{check_rule, detects, reports, CheckResults, FingerprintRule};
use crate::text::views;
use vstd::prelude::*;

verus! {

/// The framework's display name.
pub open spec fn framework() -> Seq<char> {
    "React Native"@
}

/// The path expressions that betray the framework.
pub open spec fn signatures() -> Seq<Seq<char>> {
    seq![
        "lib/.*/libreactnativejni.so"@,
        "assets/index.android.bundle"@,
        "assets/index.android.bundle.meta"@,
    ]
}

/// The framework's rule.
pub fn rule() -> (r: FingerprintRule)
    ensures
        r@ == (framework(), signatures()),
{
    let mut patterns: Vec<String> = Vec::new();
    patterns.push("lib/.*/libreactnativejni.so".to_owned());
    patterns.push("assets/index.android.bundle".to_owned());
    patterns.push("assets/index.android.bundle.meta".to_owned());
    let r = FingerprintRule { name: "React Native".to_owned(), patterns };
    assert(views(r.patterns@) =~= signatures());
    r
}

/// Looks for the framework among an archive's entry paths.
pub fn check(f: &Vec<String>) -> (r: Option<CheckResults>)
    ensures
        r is Some <==> detects(signatures(), views(f@)),
        r matches Some(c) ==> reports(c, (framework(), signatures()), views(f@)),
{
    check_rule(&rule(), f)
}

} // verus!
