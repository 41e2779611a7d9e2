use apk_fingerprint::android_manifest::{AndroidManifest, DecodedElement, ManifestError};
use apk_fingerprint::permission::Permission;
use apk_fingerprint::text::parse_u8;

fn el(tag: &str, attrs: &[(&str, &str)], children: Vec<DecodedElement>) -> DecodedElement {
    DecodedElement {
        tag: tag.to_string(),
        attributes: attrs.iter().map(|(k, v)| (k.to_string(), v.to_string())).collect(),
        children,
    }
}

fn named(tag: &str, name: &str) -> DecodedElement {
    el(tag, &[("android:name", name)], Vec::new())
}

fn root(children: Vec<DecodedElement>) -> DecodedElement {
    el("manifest", &[("package", "com.example.app"), ("platformBuildVersionCode", "30")], children)
}

fn err(r: Result<AndroidManifest, ManifestError>) -> ManifestError {
    match r {
        Ok(_) => panic!("extraction should have failed"),
        Err(e) => e,
    }
}

#[test]
fn camera_and_custom_permission() {
    let r = root(vec![
        named("uses-permission", "android.permission.CAMERA"),
        named("uses-permission", "android.permission.com.custom.FOO"),
    ]);
    let m = AndroidManifest::extract(&r).unwrap();
    assert_eq!(m.package_name, "com.example.app");
    assert_eq!(m.api_level, 30);
    assert_eq!(m.permissions, vec![Permission::CAMERA]);
    assert!(m.activities.is_empty() && m.services.is_empty());
    assert!(m.receivers.is_empty() && m.providers.is_empty());
}

#[test]
fn package_name_kept_verbatim() {
    let r = el("manifest", &[("platformBuildVersionCode", "+7"), ("package", " Com.Example.APP ")], Vec::new());
    let m = AndroidManifest::extract(&r).unwrap();
    assert_eq!(m.package_name, " Com.Example.APP ");
    assert_eq!(m.api_level, 7);
}

#[test]
fn missing_manifest_tag() {
    let r = el("application", &[("package", "a"), ("platformBuildVersionCode", "1")], Vec::new());
    assert_eq!(err(AndroidManifest::extract(&r)), ManifestError::MissingManifestTag);
}

#[test]
fn missing_package() {
    let r = el("manifest", &[("platformBuildVersionCode", "1")], Vec::new());
    assert_eq!(err(AndroidManifest::extract(&r)), ManifestError::MalformedPackage);
}

#[test]
fn missing_api_level() {
    let r = el("manifest", &[("package", "a")], Vec::new());
    assert_eq!(err(AndroidManifest::extract(&r)), ManifestError::MalformedApiLevel);
}

#[test]
fn api_level_out_of_range() {
    let r = el("manifest", &[("package", "a"), ("platformBuildVersionCode", "256")], Vec::new());
    assert_eq!(err(AndroidManifest::extract(&r)), ManifestError::MalformedApiLevel);
    let r = el("manifest", &[("package", "a"), ("platformBuildVersionCode", "255")], Vec::new());
    assert_eq!(AndroidManifest::extract(&r).unwrap().api_level, 255);
}

#[test]
fn api_level_not_a_number() {
    for v in ["", "3.0", "thirty", "-1", "+"] {
        let r = el("manifest", &[("package", "a"), ("platformBuildVersionCode", v)], Vec::new());
        assert_eq!(err(AndroidManifest::extract(&r)), ManifestError::MalformedApiLevel);
    }
}

#[test]
fn permission_without_name() {
    let r = root(vec![el("uses-permission", &[("name", "android.permission.CAMERA")], Vec::new())]);
    assert_eq!(err(AndroidManifest::extract(&r)), ManifestError::MalformedUsesPermission);
}

#[test]
fn component_without_name() {
    let cases = [
        ("activity", ManifestError::MalformedActivity),
        ("service", ManifestError::MalformedService),
        ("receiver", ManifestError::MalformedReceiver),
        ("provider", ManifestError::MalformedProvider),
    ];
    for (tag, e) in cases {
        let r = root(vec![el("application", &[], vec![named("activity", "A"), el(tag, &[], Vec::new())])]);
        assert_eq!(err(AndroidManifest::extract(&r)), e);
    }
}

#[test]
fn first_malformed_element_decides() {
    let r = root(vec![
        el("application", &[], vec![el("service", &[], Vec::new())]),
        el("uses-permission", &[], Vec::new()),
    ]);
    assert_eq!(err(AndroidManifest::extract(&r)), ManifestError::MalformedService);
}

#[test]
fn components_in_document_order() {
    let r = root(vec![
        el(
            "application",
            &[],
            vec![
                named("activity", "com.example.Main"),
                named("service", "com.example.Sync"),
                el("meta-data", &[], Vec::new()),
                named("activity", "com.example.Main"),
                named("receiver", "com.example.Boot"),
                named("provider", "com.example.Files"),
            ],
        ),
        el("uses-feature", &[], Vec::new()),
        el("application", &[], vec![named("activity", "com.example.Other")]),
    ]);
    let m = AndroidManifest::extract(&r).unwrap();
    assert_eq!(m.activities, vec!["com.example.Main", "com.example.Main", "com.example.Other"]);
    assert_eq!(m.services, vec!["com.example.Sync"]);
    assert_eq!(m.receivers, vec!["com.example.Boot"]);
    assert_eq!(m.providers, vec!["com.example.Files"]);
}

#[test]
fn components_outside_application_are_ignored() {
    let r = root(vec![
        el("activity", &[], Vec::new()),
        el("application", &[], vec![el("intent-filter", &[], vec![el("activity", &[], Vec::new())])]),
    ]);
    let m = AndroidManifest::extract(&r).unwrap();
    assert!(m.activities.is_empty());
}

#[test]
fn repeated_permission_collapses() {
    let r = root(vec![
        named("uses-permission", "android.permission.INTERNET"),
        named("uses-permission", "android.permission.CAMERA"),
        named("uses-permission", "android.permission.INTERNET"),
    ]);
    let m = AndroidManifest::extract(&r).unwrap();
    assert_eq!(m.permissions, vec![Permission::INTERNET, Permission::CAMERA]);
}

#[test]
fn first_attribute_of_a_key_counts() {
    let r = el(
        "manifest",
        &[("package", "first"), ("package", "second"), ("platformBuildVersionCode", "1")],
        Vec::new(),
    );
    assert_eq!(AndroidManifest::extract(&r).unwrap().package_name, "first");
}

#[test]
fn normalisation_of_permission_strings() {
    assert_eq!(Permission::from_manifest_string("android.permission.CAMERA"), Some(Permission::CAMERA));
    assert_eq!(
        Permission::from_manifest_string("android.permission.WRITE_EXTERNAL_STORAGE"),
        Some(Permission::WRITE_EXTERNAL_STORAGE)
    );
    assert_eq!(Permission::from_manifest_string("android.permission.com.custom.FOO"), None);
    assert_eq!(Permission::from_manifest_string("android.permission.camera"), None);
    assert_eq!(Permission::from_manifest_string("android.permission.NOT_A_PERMISSION"), None);
    assert_eq!(Permission::from_manifest_string("android.permission.CAMERAX"), None);
    assert_eq!(Permission::from_manifest_string("xandroid.permission.CAMERA"), None);
    assert_eq!(Permission::from_manifest_string("com.example.permission.CAMERA"), None);
    assert_eq!(Permission::from_manifest_string("android.permission."), None);
    assert_eq!(Permission::from_manifest_string("CAMERA"), None);
    assert_eq!(Permission::from_manifest_string(""), None);
}

#[test]
fn permission_names_round_trip() {
    for i in 0..apk_fingerprint::permission::PERMISSION_COUNT {
        let p = Permission::nth(i).unwrap();
        assert_eq!(Permission::from_name(p.as_str()), Some(p));
        let full = format!("android.permission.{}", p.as_str());
        assert_eq!(Permission::from_manifest_string(&full), Some(p));
    }
    assert_eq!(Permission::nth(apk_fingerprint::permission::PERMISSION_COUNT), None);
    assert_eq!(Permission::CAMERA.as_str(), "CAMERA");
    assert_eq!(Permission::from_name("ACCEPT_HANDOVER"), Some(Permission::ACCEPT_HANDOVER));
    assert_eq!(Permission::from_name("accept_handover"), None);
}

#[test]
fn decimal_u8() {
    assert_eq!(parse_u8("0"), Some(0));
    assert_eq!(parse_u8("007"), Some(7));
    assert_eq!(parse_u8("+30"), Some(30));
    assert_eq!(parse_u8("255"), Some(255));
    assert_eq!(parse_u8("256"), None);
    assert_eq!(parse_u8("1000"), None);
    assert_eq!(parse_u8(""), None);
    assert_eq!(parse_u8("+"), None);
    assert_eq!(parse_u8("-0"), None);
    assert_eq!(parse_u8(" 1"), None);
    assert_eq!(parse_u8("1a"), None);
}

#[test]
fn error_messages() {
    assert_eq!(ManifestError::MissingManifestTag.message(), "AndroidManifest: missing `manifest` tag");
    assert_eq!(ManifestError::MalformedActivity.message(), "AndroidManifest: malformed `activity` element");
}
