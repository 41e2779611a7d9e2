//! The manifest extractor: a typed summary of a decoded manifest element tree.
use crate::permission::{lemma_names_distinct, platform_prefix, Permission};
use crate::text::{parse_u8, spec_parse_u8, str_eq, views};
use vstd::prelude::*;

verus! {

/// A decoded manifest element: its tag, its attributes in document order
/// (keys keep their namespace prefix, as in `android:name`), and its children
/// in document order.
pub struct DecodedElement {
    pub tag: String,
    pub attributes: Vec<(String, String)>,
    pub children: Vec<DecodedElement>,
}

/// The value of the first attribute with the given key.
pub open spec fn attr_lookup(attrs: Seq<(String, String)>, key: Seq<char>) -> Option<Seq<char>>
    decreases attrs.len(),
{
    if attrs.len() == 0 {
        None
    } else if attrs[0].0@ == key {
        Some(attrs[0].1@)
    } else {
        attr_lookup(attrs.drop_first(), key)
    }
}

impl DecodedElement {
    /// The element's value for an attribute key.
    pub open spec fn attr(self, key: Seq<char>) -> Option<Seq<char>> {
        attr_lookup(self.attributes@, key)
    }

    /// Looks an attribute up by its exact key.
    pub fn get_attribute(&self, key: &str) -> (r: Option<String>)
        ensures
            match r {
                Some(v) => self.attr(key@) == Some(v@),
                None => self.attr(key@) is None,
            },
    {
        let n = self.attributes.len();
        let mut i: usize = 0;
        assert(self.attributes@.subrange(0, n as int) =~= self.attributes@);
        while i < n
            invariant
                n == self.attributes@.len(),
                i <= n,
                self.attr(key@) == attr_lookup(self.attributes@.subrange(i as int, n as int), key@),
            decreases n - i,
        {
            let ghost rest = self.attributes@.subrange(i as int, n as int);
            assert(rest.drop_first() =~= self.attributes@.subrange(i + 1, n as int));
            if str_eq(self.attributes[i].0.as_str(), key) {
                return Some(self.attributes[i].1.clone());
            }
            i = i + 1;
        }
        None
    }
}

/// Why a manifest could not be summarised.
#[derive(Clone, Copy, Debug, PartialEq, Eq, Structural)]
pub enum ManifestError {
    /// The root element is not tagged `manifest`.
    MissingManifestTag,
    /// The root has no `package` attribute.
    MalformedPackage,
    /// The root's `platformBuildVersionCode` is missing or not a `u8`.
    MalformedApiLevel,
    /// A `uses-permission` element has no `android:name`.
    MalformedUsesPermission,
    /// An `activity` element has no `android:name`.
    MalformedActivity,
    /// A `service` element has no `android:name`.
    MalformedService,
    /// A `receiver` element has no `android:name`.
    MalformedReceiver,
    /// A `provider` element has no `android:name`.
    MalformedProvider,
    /// The binary manifest or its resource table could not be decoded.
    Decode,
}

impl ManifestError {
    /// A human-readable account of the error.
    pub fn message(&self) -> &'static str {
        match self {
            ManifestError::MissingManifestTag => "AndroidManifest: missing `manifest` tag",
            ManifestError::MalformedPackage => "AndroidManifest: missing `package` attribute",
            ManifestError::MalformedApiLevel => "AndroidManifest: missing or invalid `platformBuildVersionCode` attribute",
            ManifestError::MalformedUsesPermission => "AndroidManifest: malformed `uses-permission` element",
            ManifestError::MalformedActivity => "AndroidManifest: malformed `activity` element",
            ManifestError::MalformedService => "AndroidManifest: malformed `service` element",
            ManifestError::MalformedReceiver => "AndroidManifest: malformed `receiver` element",
            ManifestError::MalformedProvider => "AndroidManifest: malformed `provider` element",
            ManifestError::Decode => "AndroidManifest: the binary manifest could not be decoded",
        }
    }
}

/// What the extractor reads of a manifest.
pub struct AndroidManifest {
    pub package_name: String,
    pub permissions: Vec<Permission>,
    pub api_level: u8,
    pub activities: Vec<String>,
    pub services: Vec<String>,
    pub receivers: Vec<String>,
    pub providers: Vec<String>,
}

/// The attribute that names a requested permission or a component.
pub open spec fn name_key() -> Seq<char> {
    "android:name"@
}

/// The error that a grandchild of the root under `application` raises: a
/// component without a name.
pub open spec fn component_error(g: DecodedElement) -> Option<ManifestError> {
    if g.attr(name_key()) is Some {
        None
    } else if g.tag@ == "activity"@ {
        Some(ManifestError::MalformedActivity)
    } else if g.tag@ == "service"@ {
        Some(ManifestError::MalformedService)
    } else if g.tag@ == "receiver"@ {
        Some(ManifestError::MalformedReceiver)
    } else if g.tag@ == "provider"@ {
        Some(ManifestError::MalformedProvider)
    } else {
        None
    }
}

/// The error of the first grandchild, in document order, that raises one.
pub open spec fn first_component_error(gs: Seq<DecodedElement>) -> Option<ManifestError>
    decreases gs.len(),
{
    if gs.len() == 0 {
        None
    } else {
        match first_component_error(gs.drop_last()) {
            Some(e) => Some(e),
            None => component_error(gs.last()),
        }
    }
}

/// The error that a direct child of the root raises.
pub open spec fn child_error(c: DecodedElement) -> Option<ManifestError> {
    if c.tag@ == "uses-permission"@ {
        if c.attr(name_key()) is Some {
            None
        } else {
            Some(ManifestError::MalformedUsesPermission)
        }
    } else if c.tag@ == "application"@ {
        first_component_error(c.children@)
    } else {
        None
    }
}

/// The error of the first child, in document order, that raises one.
pub open spec fn first_child_error(cs: Seq<DecodedElement>) -> Option<ManifestError>
    decreases cs.len(),
{
    if cs.len() == 0 {
        None
    } else {
        match first_child_error(cs.drop_last()) {
            Some(e) => Some(e),
            None => child_error(cs.last()),
        }
    }
}

/// The error that extraction of a manifest rooted at `root` fails with, if any.
pub open spec fn extraction_error(root: DecodedElement) -> Option<ManifestError> {
    if root.tag@ != "manifest"@ {
        Some(ManifestError::MissingManifestTag)
    } else if root.attr("package"@) is None {
        Some(ManifestError::MalformedPackage)
    } else if root.attr("platformBuildVersionCode"@) is None || spec_parse_u8(
        root.attr("platformBuildVersionCode"@).unwrap(),
    ) is None {
        Some(ManifestError::MalformedApiLevel)
    } else {
        first_child_error(root.children@)
    }
}

/// The names of the elements with the given tag, in document order.
pub open spec fn names_tagged(gs: Seq<DecodedElement>, tag: Seq<char>) -> Seq<Seq<char>>
    decreases gs.len(),
{
    if gs.len() == 0 {
        seq![]
    } else if gs.last().tag@ == tag {
        names_tagged(gs.drop_last(), tag).push(gs.last().attr(name_key()).unwrap())
    } else {
        names_tagged(gs.drop_last(), tag)
    }
}

/// The names of the components with the given tag declared under the
/// `application` children, in document order.
pub open spec fn components(cs: Seq<DecodedElement>, tag: Seq<char>) -> Seq<Seq<char>>
    decreases cs.len(),
{
    if cs.len() == 0 {
        seq![]
    } else if cs.last().tag@ == "application"@ {
        components(cs.drop_last(), tag) + names_tagged(cs.last().children@, tag)
    } else {
        components(cs.drop_last(), tag)
    }
}

/// Whether one of the elements is a `uses-permission` that requests `s`.
pub open spec fn requests(cs: Seq<DecodedElement>, s: Seq<char>) -> bool {
    exists|i: int| 0 <= i < cs.len() && (#[trigger] cs[i]).tag@ == "uses-permission"@ && cs[i].attr(name_key()) == Some(s)
}

/// `perms` holds, once each, exactly the platform permissions whose strings
/// are requested.
pub open spec fn covers(perms: Seq<Permission>, cs: Seq<DecodedElement>) -> bool {
    &&& perms.no_duplicates()
    &&& forall|p: Permission| #[trigger] perms.contains(p) <==> requests(cs, platform_prefix() + p.spec_name())
}

/// `m` is the summary of the manifest rooted at `root`.
pub open spec fn summarises(m: AndroidManifest, root: DecodedElement) -> bool {
    &&& Some(m.package_name@) == root.attr("package"@)
    &&& Some(m.api_level) == spec_parse_u8(root.attr("platformBuildVersionCode"@).unwrap())
    &&& covers(m.permissions@, root.children@)
    &&& views(m.activities@) == components(root.children@, "activity"@)
    &&& views(m.services@) == components(root.children@, "service"@)
    &&& views(m.receivers@) == components(root.children@, "receiver"@)
    &&& views(m.providers@) == components(root.children@, "provider"@)
}

/// A well-formed manifest with a `package` and a `u8`
/// `platformBuildVersionCode` is summarised, and its package name is the
/// attribute's value exactly.
pub proof fn lemma_package_name_kept(root: DecodedElement, package: Seq<char>, level: Seq<char>)
    requires
        root.tag@ == "manifest"@,
        root.attr("package"@) == Some(package),
        root.attr("platformBuildVersionCode"@) == Some(level),
        spec_parse_u8(level) is Some,
        first_child_error(root.children@) is None,
    ensures
        extraction_error(root) is None,
        forall|m: AndroidManifest| summarises(m, root) ==> m.package_name@ == package,
{
}

/// A manifest whose root is not tagged `manifest`, or lacks `package` or
/// `platformBuildVersionCode`, is malformed: extraction fails, with the
/// error of the first of these checks that fails.
pub proof fn lemma_required_root_parts(root: DecodedElement)
    requires
        root.tag@ != "manifest"@ || root.attr("package"@) is None || root.attr(
            "platformBuildVersionCode"@,
        ) is None,
    ensures
        extraction_error(root) == Some(
            if root.tag@ != "manifest"@ {
                ManifestError::MissingManifestTag
            } else if root.attr("package"@) is None {
                ManifestError::MalformedPackage
            } else {
                ManifestError::MalformedApiLevel
            },
        ),
{
}

proof fn lemma_first_child_error_prefix(cs: Seq<DecodedElement>, k: int)
    requires
        0 <= k <= cs.len(),
        first_child_error(cs.subrange(0, k)) is Some,
    ensures
        first_child_error(cs) == first_child_error(cs.subrange(0, k)),
    decreases cs.len(),
{
    if k < cs.len() {
        assert(cs.drop_last().subrange(0, k) =~= cs.subrange(0, k));
        lemma_first_child_error_prefix(cs.drop_last(), k);
    } else {
        assert(cs.subrange(0, k) =~= cs);
    }
}

proof fn lemma_first_component_error_prefix(gs: Seq<DecodedElement>, k: int)
    requires
        0 <= k <= gs.len(),
        first_component_error(gs.subrange(0, k)) is Some,
    ensures
        first_component_error(gs) == first_component_error(gs.subrange(0, k)),
    decreases gs.len(),
{
    if k < gs.len() {
        assert(gs.drop_last().subrange(0, k) =~= gs.subrange(0, k));
        lemma_first_component_error_prefix(gs.drop_last(), k);
    } else {
        assert(gs.subrange(0, k) =~= gs);
    }
}

proof fn lemma_requests_push(pre: Seq<DecodedElement>, c: DecodedElement, s: Seq<char>)
    ensures
        requests(pre.push(c), s) <==> (requests(pre, s) || (c.tag@ == "uses-permission"@ && c.attr(
            name_key(),
        ) == Some(s))),
{
    let next = pre.push(c);
    if requests(pre, s) {
        let i = choose|i: int| 0 <= i < pre.len() && (#[trigger] pre[i]).tag@ == "uses-permission"@ && pre[i].attr(name_key()) == Some(s);
        assert(next[i] == pre[i]);
    }
    if c.tag@ == "uses-permission"@ && c.attr(name_key()) == Some(s) {
        assert(next[pre.len() as int] == c);
    }
    if requests(next, s) {
        let i = choose|i: int| 0 <= i < next.len() && (#[trigger] next[i]).tag@ == "uses-permission"@ && next[i].attr(name_key()) == Some(s);
        if i < pre.len() {
            assert(pre[i] == next[i]);
        }
    }
}

proof fn lemma_prefix_cancel(a: Seq<char>, x: Seq<char>, y: Seq<char>)
    requires
        a + x == a + y,
    ensures
        x == y,
{
    assert(x =~= (a + x).subrange(a.len() as int, (a + x).len() as int));
    assert(y =~= (a + y).subrange(a.len() as int, (a + y).len() as int));
}

proof fn lemma_tags_distinct()
    ensures
        "uses-permission"@ != "application"@,
        "activity"@ != "service"@,
        "activity"@ != "receiver"@,
        "activity"@ != "provider"@,
        "service"@ != "receiver"@,
        "service"@ != "provider"@,
        "receiver"@ != "provider"@,
{
    reveal_strlit("activity");
    reveal_strlit("service");
    reveal_strlit("receiver");
    reveal_strlit("provider");
    reveal_strlit("application");
    reveal_strlit("uses-permission");
    assert("uses-permission"@.len() != "application"@.len());
    assert("activity"@[0] != "receiver"@[0]);
    assert("activity"@[0] != "provider"@[0]);
    assert("receiver"@[0] != "provider"@[0]);
}

/// Reads a `uses-permission` element: its requested permission, or nothing
/// when the string names no platform permission.
fn parse_permissions(element: &DecodedElement) -> (r: Result<Option<Permission>, ManifestError>)
    ensures
        match r {
            Err(e) => e == ManifestError::MalformedUsesPermission && element.attr(name_key()) is None,
            Ok(None) => element.attr(name_key()) matches Some(s) && forall|p: Permission|
                s != platform_prefix() + p.spec_name(),
            Ok(Some(p)) => element.attr(name_key()) == Some(platform_prefix() + p.spec_name()),
        },
{
    match element.get_attribute("android:name") {
        Some(s) => Ok(Permission::from_manifest_string(s.as_str())),
        None => Err(ManifestError::MalformedUsesPermission),
    }
}

/// Reads the name of a component element, failing with `error` when it has none.
fn parse_component(element: &DecodedElement, error: ManifestError) -> (r: Result<String, ManifestError>)
    ensures
        match r {
            Ok(v) => element.attr(name_key()) == Some(v@),
            Err(e) => e == error && element.attr(name_key()) is None,
        },
{
    match element.get_attribute("android:name") {
        Some(s) => Ok(s),
        None => Err(error),
    }
}

/// Adds a permission to a list unless it is already there.
fn add_permission(perms: &mut Vec<Permission>, p: Permission)
    requires
        old(perms)@.no_duplicates(),
    ensures
        final(perms)@.no_duplicates(),
        forall|q: Permission| #[trigger] final(perms)@.contains(q) <==> (old(perms)@.contains(q) || q == p),
{
    let n = perms.len();
    let mut i: usize = 0;
    while i < n
        invariant
            n == perms@.len(),
            perms@ == old(perms)@,
            perms@.no_duplicates(),
            i <= n,
            forall|k: int| 0 <= k < i ==> perms@[k] != p,
        decreases n - i,
    {
        if perms[i] == p {
            assert(perms@.contains(p));
            return;
        }
        i = i + 1;
    }
    let ghost before = perms@;
    perms.push(p);
    proof {
        assert forall|q: Permission| #[trigger] perms@.contains(q) <==> (before.contains(q) || q == p) by {
            if perms@.contains(q) {
                let k = choose|k: int| 0 <= k < perms@.len() && perms@[k] == q;
                if k < before.len() {
                    assert(before[k] == q);
                }
            }
            if before.contains(q) {
                let k = choose|k: int| 0 <= k < before.len() && before[k] == q;
                assert(perms@[k] == q);
            }
            if q == p {
                assert(perms@[before.len() as int] == q);
            }
        }
    }
}

/// Appends `name` to `list` when `g` carries `tag`.
pub open spec fn grown(list: Seq<Seq<char>>, g: DecodedElement, tag: Seq<char>) -> Seq<Seq<char>> {
    if g.tag@ == tag {
        list.push(g.attr(name_key()).unwrap())
    } else {
        list
    }
}

/// Adds the name of a component element to the list for its tag; other
/// elements are passed over.
fn collect_component(
    g: &DecodedElement,
    activities: &mut Vec<String>,
    services: &mut Vec<String>,
    receivers: &mut Vec<String>,
    providers: &mut Vec<String>,
) -> (r: Result<(), ManifestError>)
    ensures
        match r {
            Err(e) => component_error(*g) == Some(e),
            Ok(()) => {
                &&& component_error(*g) is None
                &&& views(final(activities)@) == grown(views(old(activities)@), *g, "activity"@)
                &&& views(final(services)@) == grown(views(old(services)@), *g, "service"@)
                &&& views(final(receivers)@) == grown(views(old(receivers)@), *g, "receiver"@)
                &&& views(final(providers)@) == grown(views(old(providers)@), *g, "provider"@)
            },
        },
{
    proof {
        lemma_tags_distinct();
    }
    if str_eq(g.tag.as_str(), "activity") {
        let v = parse_component(g, ManifestError::MalformedActivity)?;
        activities.push(v);
        assert(views(activities@) =~= views(old(activities)@).push(v@));
    } else if str_eq(g.tag.as_str(), "service") {
        let v = parse_component(g, ManifestError::MalformedService)?;
        services.push(v);
        assert(views(services@) =~= views(old(services)@).push(v@));
    } else if str_eq(g.tag.as_str(), "receiver") {
        let v = parse_component(g, ManifestError::MalformedReceiver)?;
        receivers.push(v);
        assert(views(receivers@) =~= views(old(receivers)@).push(v@));
    } else if str_eq(g.tag.as_str(), "provider") {
        let v = parse_component(g, ManifestError::MalformedProvider)?;
        providers.push(v);
        assert(views(providers@) =~= views(old(providers)@).push(v@));
    }
    Ok(())
}

/// Collects the components that an `application` element declares.
fn collect_application(
    c: &DecodedElement,
    activities: &mut Vec<String>,
    services: &mut Vec<String>,
    receivers: &mut Vec<String>,
    providers: &mut Vec<String>,
) -> (r: Result<(), ManifestError>)
    ensures
        match r {
            Err(e) => first_component_error(c.children@) == Some(e),
            Ok(()) => {
                &&& first_component_error(c.children@) is None
                &&& views(final(activities)@) == views(old(activities)@) + names_tagged(c.children@, "activity"@)
                &&& views(final(services)@) == views(old(services)@) + names_tagged(c.children@, "service"@)
                &&& views(final(receivers)@) == views(old(receivers)@) + names_tagged(c.children@, "receiver"@)
                &&& views(final(providers)@) == views(old(providers)@) + names_tagged(c.children@, "provider"@)
            },
        },
{
    let ghost gs = c.children@;
    let m = c.children.len();
    let mut j: usize = 0;
    while j < m
        invariant
            m == gs.len(),
            gs == c.children@,
            j <= m,
            first_component_error(gs.subrange(0, j as int)) is None,
            views(activities@) == views(old(activities)@) + names_tagged(gs.subrange(0, j as int), "activity"@),
            views(services@) == views(old(services)@) + names_tagged(gs.subrange(0, j as int), "service"@),
            views(receivers@) == views(old(receivers)@) + names_tagged(gs.subrange(0, j as int), "receiver"@),
            views(providers@) == views(old(providers)@) + names_tagged(gs.subrange(0, j as int), "provider"@),
        decreases m - j,
    {
        let ghost gpre = gs.subrange(0, j as int);
        let ghost gnext = gs.subrange(0, j + 1);
        assert(gnext.drop_last() =~= gpre);
        let step = collect_component(&c.children[j], activities, services, receivers, providers);
        if let Err(e) = step {
            proof {
                assert(first_component_error(gnext) == Some(e));
                lemma_first_component_error_prefix(gs, j + 1);
            }
            return Err(e);
        }
        assert(views(activities@) =~= views(old(activities)@) + names_tagged(gnext, "activity"@));
        assert(views(services@) =~= views(old(services)@) + names_tagged(gnext, "service"@));
        assert(views(receivers@) =~= views(old(receivers)@) + names_tagged(gnext, "receiver"@));
        assert(views(providers@) =~= views(old(providers)@) + names_tagged(gnext, "provider"@));
        j = j + 1;
    }
    assert(gs.subrange(0, m as int) =~= gs);
    Ok(())
}

/// A child that requests nothing keeps a covering list covering.
proof fn lemma_covers_push(perms: Seq<Permission>, pre: Seq<DecodedElement>, c: DecodedElement)
    requires
        covers(perms, pre),
        c.tag@ != "uses-permission"@,
    ensures
        covers(perms, pre.push(c)),
{
    assert forall|s: Seq<char>| requests(pre.push(c), s) <==> requests(pre, s) by {
        lemma_requests_push(pre, c, s);
    }
}

/// Adds the permission that a `uses-permission` element requests, if it is a
/// platform permission not listed yet.
fn collect_permission(
    c: &DecodedElement,
    permissions: &mut Vec<Permission>,
    Ghost(pre): Ghost<Seq<DecodedElement>>,
) -> (r: Result<(), ManifestError>)
    requires
        c.tag@ == "uses-permission"@,
        covers(old(permissions)@, pre),
    ensures
        match r {
            Err(e) => child_error(*c) == Some(e),
            Ok(()) => child_error(*c) is None && covers(final(permissions)@, pre.push(*c)),
        },
{
    let ghost next = pre.push(*c);
    let parsed = parse_permissions(c);
    let found = match parsed {
        Err(e) => {
            return Err(e);
        },
        Ok(found) => found,
    };
    if let Some(p) = found {
        add_permission(permissions, p);
    }
    proof {
        assert forall|s: Seq<char>| requests(next, s) <==> (requests(pre, s) || c.attr(name_key()) == Some(s)) by {
            lemma_requests_push(pre, *c, s);
        }
        assert forall|p: Permission| #[trigger] permissions@.contains(p) <==> requests(next, platform_prefix() + p.spec_name()) by {
            if let Some(q) = found {
                if c.attr(name_key()) == Some(platform_prefix() + p.spec_name()) {
                    lemma_prefix_cancel(platform_prefix(), q.spec_name(), p.spec_name());
                    lemma_names_distinct(q, p);
                }
            }
        }
    }
    Ok(())
}

impl AndroidManifest {
    /// Summarises a decoded manifest. The root must be tagged `manifest` and
    /// carry `package` and a `u8` `platformBuildVersionCode`; the permissions
    /// that its `uses-permission` children request and the components that
    /// its `application` children declare are collected, and every other
    /// element is passed over. A requested string that names no platform
    /// permission is dropped; a missing `android:name` fails the whole
    /// extraction, with the error of the first such element.
    pub fn extract(root: &DecodedElement) -> (r: Result<AndroidManifest, ManifestError>)
        ensures
            match r {
                Ok(m) => extraction_error(*root) is None && summarises(m, *root),
                Err(e) => extraction_error(*root) == Some(e),
            },
    {
        if !str_eq(root.tag.as_str(), "manifest") {
            return Err(ManifestError::MissingManifestTag);
        }
        let package_name = match root.get_attribute("package") {
            Some(v) => v,
            None => {
                return Err(ManifestError::MalformedPackage);
            },
        };
        let api_level = match root.get_attribute("platformBuildVersionCode") {
            Some(v) => match parse_u8(v.as_str()) {
                Some(x) => x,
                None => {
                    return Err(ManifestError::MalformedApiLevel);
                },
            },
            None => {
                return Err(ManifestError::MalformedApiLevel);
            },
        };
        let ghost cs = root.children@;
        let mut permissions: Vec<Permission> = Vec::new();
        let mut activities: Vec<String> = Vec::new();
        let mut services: Vec<String> = Vec::new();
        let mut receivers: Vec<String> = Vec::new();
        let mut providers: Vec<String> = Vec::new();
        let n = root.children.len();
        let mut i: usize = 0;
        while i < n
            invariant
                n == cs.len(),
                cs == root.children@,
                i <= n,
                extraction_error(*root) == first_child_error(cs),
                first_child_error(cs.subrange(0, i as int)) is None,
                covers(permissions@, cs.subrange(0, i as int)),
                views(activities@) == components(cs.subrange(0, i as int), "activity"@),
                views(services@) == components(cs.subrange(0, i as int), "service"@),
                views(receivers@) == components(cs.subrange(0, i as int), "receiver"@),
                views(providers@) == components(cs.subrange(0, i as int), "provider"@),
            decreases n - i,
        {
            let c = &root.children[i];
            proof {
                lemma_tags_distinct();
            }
            let ghost pre = cs.subrange(0, i as int);
            let ghost next = cs.subrange(0, i + 1);
            assert(next =~= pre.push(*c));
            assert(next.drop_last() =~= pre);
            if str_eq(c.tag.as_str(), "uses-permission") {
                let collected = collect_permission(c, &mut permissions, Ghost(pre));
                if let Err(e) = collected {
                    proof {
                        lemma_first_child_error_prefix(cs, i + 1);
                    }
                    return Err(e);
                }
            } else {
                proof {
                    lemma_covers_push(permissions@, pre, *c);
                }
                if str_eq(c.tag.as_str(), "application") {
                    let collected = collect_application(
                        c,
                        &mut activities,
                        &mut services,
                        &mut receivers,
                        &mut providers,
                    );
                    if let Err(e) = collected {
                        proof {
                            assert(child_error(*c) == Some(e));
                            assert(first_child_error(next) == Some(e));
                            lemma_first_child_error_prefix(cs, i + 1);
                        }
                        return Err(e);
                    }
                }
            }
            i = i + 1;
        }
        assert(cs.subrange(0, n as int) =~= cs);
        Ok(AndroidManifest { package_name, permissions, api_level, activities, services, receivers, providers })
    }
}

} // verus!
