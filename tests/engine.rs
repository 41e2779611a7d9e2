use apk_fingerprint::engine::{check_rule, scan, sorted_selection};
use apk_fingerprint::rules::{catalogue, cordova, flutter, kony, reactnative, rootbeer, vkey, xamarin};
use apk_fingerprint::text::{insert_sorted, str_eq, str_lt};
use apk_fingerprint::{run_checks, CheckResults, FingerprintRule};

fn paths(v: &[&str]) -> Vec<String> {
    v.iter().map(|s| s.to_string()).collect()
}

fn names(r: &[CheckResults]) -> Vec<String> {
    r.iter().map(|c| c.name.clone()).collect()
}

#[test]
fn cordova_archive_yields_one_result() {
    let files = paths(&[
        "assets/www/cordova_plugins.js",
        "classes.dex",
        "assets/www/cordova.js",
        "AndroidManifest.xml",
    ]);
    let r = run_checks(files);
    assert_eq!(r.len(), 1);
    assert_eq!(r[0].name, "Apache Cordova");
    assert_eq!(r[0].matches, paths(&["assets/www/cordova.js", "assets/www/cordova_plugins.js"]));
}

#[test]
fn archive_without_signatures_yields_nothing() {
    let files = paths(&["classes.dex", "AndroidManifest.xml", "res/layout/main.xml", "lib/arm64-v8a/libfoo.so"]);
    assert!(run_checks(files).is_empty());
}

#[test]
fn empty_archive_yields_nothing() {
    assert!(run_checks(Vec::new()).is_empty());
}

#[test]
fn matches_come_sorted_and_once() {
    let files = paths(&[
        "lib/x86/libflutter.so",
        "lib/arm64-v8a/libflutter.so",
        "lib/armeabi-v7a/libflutter.so",
        "lib/arm64-v8a/libflutter.so",
    ]);
    let r = flutter::check(&files).unwrap();
    assert_eq!(r.name, "Flutter");
    assert_eq!(
        r.matches,
        paths(&["lib/arm64-v8a/libflutter.so", "lib/armeabi-v7a/libflutter.so", "lib/x86/libflutter.so"])
    );
}

#[test]
fn path_matching_two_patterns_is_listed_once() {
    let files = paths(&["assets/index.android.bundle.meta", "assets/index.android.bundle"]);
    let r = reactnative::check(&files).unwrap();
    assert_eq!(r.matches, paths(&["assets/index.android.bundle", "assets/index.android.bundle.meta"]));
}

#[test]
fn output_follows_catalogue_order() {
    let files = paths(&[
        "lib/x86/libmono-native.so",
        "lib/x86/libflutter.so",
        "assets/www/cordova.js",
        "lib/x86/libtool-checker.so",
        "assets/js/startup.js",
        "assets/index.android.bundle",
        "assets/vkeylicensepack",
    ]);
    let r = run_checks(files);
    assert_eq!(
        names(&r),
        vec![
            "V-Key",
            "React Native",
            "Kony Visualizer",
            "RootBeer Root Detection",
            "Apache Cordova",
            "Flutter",
            "Xamarin"
        ]
    );
}

#[test]
fn order_kept_when_only_some_rules_match() {
    let files = paths(&["lib/x86/libxamarin-app.so", "assets/vkeylicensepack.json"]);
    let r = run_checks(files);
    assert_eq!(names(&r), vec!["V-Key", "Xamarin"]);
    assert_eq!(r[0].matches, paths(&["assets/vkeylicensepack.json"]));
    assert_eq!(r[1].matches, paths(&["lib/x86/libxamarin-app.so"]));
}

#[test]
fn search_is_unanchored() {
    let files = paths(&["prefix/assets/www/cordova.js.bak"]);
    let r = cordova::check(&files).unwrap();
    assert_eq!(r.matches, paths(&["prefix/assets/www/cordova.js.bak"]));
}

#[test]
fn escaped_dot_is_literal() {
    let files = paths(&["assets/www/cordovaXjs"]);
    assert!(cordova::check(&files).is_none());
}

#[test]
fn search_is_case_sensitive() {
    let files = paths(&["LIB/x86/LIBFLUTTER.SO"]);
    assert!(flutter::check(&files).is_none());
}

#[test]
fn vkey_rule() {
    let files = paths(&["lib/arm/libvtap.so", "lib/arm/libchecks.so", "lib/arm/libvosWrapperEx.so", "assets/vkeylicensepack"]);
    let r = vkey::check(&files).unwrap();
    assert_eq!(r.name, "V-Key");
    assert_eq!(
        r.matches,
        paths(&["assets/vkeylicensepack", "lib/arm/libchecks.so", "lib/arm/libvosWrapperEx.so", "lib/arm/libvtap.so"])
    );
}

#[test]
fn kony_rule() {
    let files = paths(&[
        "assets/konyappluabytecode.o.mp3",
        "assets/application.properties",
        "lib/arm/libkonyjsvm.so",
        "assets/js/common-jslibs.kfm",
        "assets/pluginversions.properties",
        "other.txt",
    ]);
    let r = kony::check(&files).unwrap();
    assert_eq!(r.name, "Kony Visualizer");
    assert_eq!(
        r.matches,
        paths(&[
            "assets/application.properties",
            "assets/js/common-jslibs.kfm",
            "assets/konyappluabytecode.o.mp3",
            "assets/pluginversions.properties",
            "lib/arm/libkonyjsvm.so",
        ])
    );
}

#[test]
fn rootbeer_rule() {
    let files = paths(&["lib/armeabi/libtool-checker.so"]);
    let r = rootbeer::check(&files).unwrap();
    assert_eq!(r.name, "RootBeer Root Detection");
    assert_eq!(r.matches, files);
}

#[test]
fn rootbeer_needs_a_directory_under_lib() {
    let files = paths(&["lib/libtool-checker.so"]);
    assert!(rootbeer::check(&files).is_none());
}

#[test]
fn xamarin_rule() {
    let files = paths(&["lib/x86/libmono-native.so", "lib/arm/libxamarin-app.so"]);
    let r = xamarin::check(&files).unwrap();
    assert_eq!(r.name, "Xamarin");
    assert_eq!(r.matches, paths(&["lib/arm/libxamarin-app.so", "lib/x86/libmono-native.so"]));
}

#[test]
fn catalogue_holds_seven_rules_in_order() {
    let c = catalogue();
    let n: Vec<String> = c.iter().map(|r| r.name.clone()).collect();
    assert_eq!(
        n,
        vec![
            "V-Key",
            "React Native",
            "Kony Visualizer",
            "RootBeer Root Detection",
            "Apache Cordova",
            "Flutter",
            "Xamarin"
        ]
    );
    assert_eq!(c[4].patterns, paths(&[r"assets/www/cordova\.js", r"assets/www/cordova_plugins\.js"]));
}

#[test]
fn scan_with_own_catalogue() {
    let rules = vec![
        FingerprintRule { name: "B".to_string(), patterns: paths(&["^b/"]) },
        FingerprintRule { name: "None".to_string(), patterns: paths(&["zzz"]) },
        FingerprintRule { name: "A".to_string(), patterns: paths(&["\\.txt$", "^a"]) },
    ];
    let files = paths(&["b/1", "a.bin", "c.txt", "b/0", "ab.txt"]);
    let r = scan(&files, &rules);
    assert_eq!(names(&r), vec!["B", "A"]);
    assert_eq!(r[0].matches, paths(&["b/0", "b/1"]));
    assert_eq!(r[1].matches, paths(&["a.bin", "ab.txt", "c.txt"]));
}

#[test]
fn rule_with_invalid_expression_yields_nothing() {
    let rule = FingerprintRule { name: "Broken".to_string(), patterns: paths(&["(unclosed", "a"]) };
    assert!(check_rule(&rule, &paths(&["a"])).is_none());
}

#[test]
fn rule_without_expressions_yields_nothing() {
    let rule = FingerprintRule { name: "Empty".to_string(), patterns: Vec::new() };
    assert!(check_rule(&rule, &paths(&["a"])).is_none());
}

#[test]
fn byte_order_of_paths() {
    assert!(str_lt("B", "a"));
    assert!(str_lt("a", "ab"));
    assert!(!str_lt("ab", "a"));
    assert!(!str_lt("a", "a"));
    assert!(str_lt("", "a"));
    assert!(str_lt("z", "é"));
}

#[test]
fn string_equality() {
    assert!(str_eq("abc", "abc"));
    assert!(!str_eq("abc", "abd"));
    assert!(!str_eq("abc", "ab"));
    assert!(str_eq("", ""));
}

#[test]
fn sorted_insertion() {
    let mut v: Vec<String> = Vec::new();
    for s in ["m", "c", "x", "c", "a", "m"] {
        insert_sorted(&mut v, s.to_string());
    }
    assert_eq!(v, paths(&["a", "c", "m", "x"]));
}

#[test]
fn selection_is_sorted_and_unique() {
    let files = paths(&["b", "a", "b", "c", "a"]);
    let picked = sorted_selection(&files, &vec![true, false, true, false, true]);
    assert_eq!(picked, paths(&["a", "b"]));
    assert!(sorted_selection(&files, &vec![false; 5]).is_empty());
}

#[test]
fn every_catalogue_rule_compiles() {
    for rule in catalogue() {
        assert!(apk_fingerprint::pattern::compile(&rule.patterns).is_some(), "{}", rule.name);
    }
}
