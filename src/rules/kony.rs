//! Detection of Kony Visualizer, a low-code app-builder platform.
use crate::engine::{check_rule, detects, reports, CheckResults, FingerprintRule};
use crate::text::views;
use vstd::prelude::*;

verus! {

/// The framework's display name.
pub open spec fn framework() -> Seq<char> {
    "Kony Visualizer"@
}

/// The path expressions that betray the framework.
pub open spec fn signatures() -> Seq<Seq<char>> {
    seq![
        "lib/.*/libkonyjsvm.so"@,
        "assets/js/common-jslibs.kfm"@,
        "assets/js/startup.js"@,
        "assets/application.properties"@,
        "assets/pluginversions.properties"@,
        "assets/konyappluabytecode.o.mp3"@,
    ]
}

/// The framework's rule.
pub fn rule() -> (r: FingerprintRule)
    ensures
        r@ == (framework(), signatures()),
{
    let mut patterns: Vec<String> = Vec::new();
    patterns.push("lib/.*/libkonyjsvm.so".to_owned());
    patterns.push("assets/js/common-jslibs.kfm".to_owned());
    patterns.push("assets/js/startup.js".to_owned());
    patterns.push("assets/application.properties".to_owned());
    patterns.push("assets/pluginversions.properties".to_owned());
    patterns.push("assets/konyappluabytecode.o.mp3".to_owned());
    let r = FingerprintRule { name: "Kony Visualizer".to_owned(), patterns };
    assert(views(r.patterns@) =~= signatures());
    r
}

/// Looks for the framework among an archive's entry paths.
pub fn check(f: &Vec<String>) -> (r: Option<CheckResults>)
    ensures
        r is Some <==> detects(signatures(), views(f@)),
        r matches Some(c) ==> reports(c, (framework(), signatures()), views(f@)),
{
    check_rule(&rule(), f)
}

} // verus!
