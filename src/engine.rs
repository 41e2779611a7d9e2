//! The fingerprint engine: which rules of a catalogue detect a framework in
//! an archive, and through which entry paths.
use crate::pattern::{any_pattern_finds, compile, set_compiles, set_patterns};
use crate::text::{insert_sorted, lemma_sorted_strictly_no_duplicates, sorted_strictly, views};
use vstd::prelude::*;

verus! {

/// A named framework and the path expressions that betray it. A path belongs
/// to the framework when any one of the expressions matches it.
pub struct FingerprintRule {
    pub name: String,
    pub patterns: Vec<String>,
}

/// A framework found in an archive, with the entry paths that matched.
pub struct CheckResults {
    pub name: String,
    pub matches: Vec<String>,
}

/// The paths among `files` that one of `patterns` matches.
pub open spec fn matched_paths(patterns: Seq<Seq<char>>, files: Seq<Seq<char>>) -> Set<Seq<char>> {
    files.to_set().filter(|p: Seq<char>| any_pattern_finds(patterns, p))
}

/// `list` holds exactly the members of `set`, in strictly ascending order.
pub open spec fn lists(list: Seq<Seq<char>>, set: Set<Seq<char>>) -> bool {
    &&& sorted_strictly(list)
    &&& list.to_set() == set
}

impl View for FingerprintRule {
    type V = (Seq<char>, Seq<Seq<char>>);

    open spec fn view(&self) -> (Seq<char>, Seq<Seq<char>>) {
        (self.name@, views(self.patterns@))
    }
}

/// The views of a catalogue's rules: each a name and its expressions.
pub open spec fn rule_views(catalogue: Seq<FingerprintRule>) -> Seq<(Seq<char>, Seq<Seq<char>>)> {
    catalogue.map_values(|r: FingerprintRule| r@)
}

/// Expressions detect their framework when they compile and one of them
/// matches at least one path.
pub open spec fn detects(patterns: Seq<Seq<char>>, files: Seq<Seq<char>>) -> bool {
    &&& set_compiles(patterns)
    &&& exists|i: int| 0 <= i < files.len() && any_pattern_finds(patterns, #[trigger] files[i])
}

/// The positions in the catalogue of the rules that detect their framework,
/// in catalogue order.
pub open spec fn detections(catalogue: Seq<(Seq<char>, Seq<Seq<char>>)>, files: Seq<Seq<char>>) -> Seq<int>
    decreases catalogue.len(),
{
    if catalogue.len() == 0 {
        seq![]
    } else {
        let earlier = detections(catalogue.drop_last(), files);
        if detects(catalogue.last().1, files) {
            earlier.push(catalogue.len() - 1)
        } else {
            earlier
        }
    }
}

/// What a detecting rule contributes: its name and, at least one, the paths
/// that matched it.
pub open spec fn reports(c: CheckResults, rule: (Seq<char>, Seq<Seq<char>>), files: Seq<Seq<char>>) -> bool {
    &&& c.name@ == rule.0
    &&& c.matches@.len() > 0
    &&& lists(views(c.matches@), matched_paths(rule.1, files))
}

/// The engine's output follows the catalogue: the detecting rules appear in
/// the order in which the catalogue declares them, each once, and no other
/// rule appears, whichever rules matched.
pub proof fn lemma_detections_follow_catalogue(
    catalogue: Seq<(Seq<char>, Seq<Seq<char>>)>,
    files: Seq<Seq<char>>,
)
    ensures
        forall|a: int, b: int|
            0 <= a < b < detections(catalogue, files).len() ==> detections(catalogue, files)[a]
                < detections(catalogue, files)[b],
        forall|k: int|
            0 <= k < detections(catalogue, files).len() ==> 0 <= #[trigger] detections(
                catalogue,
                files,
            )[k] < catalogue.len(),
        forall|j: int|
            0 <= j < catalogue.len() ==> (detects((#[trigger] catalogue[j]).1, files)
                <==> detections(catalogue, files).contains(j)),
    decreases catalogue.len(),
{
    if catalogue.len() > 0 {
        let prev = catalogue.drop_last();
        lemma_detections_follow_catalogue(prev, files);
        let d = detections(catalogue, files);
        let e = detections(prev, files);
        assert forall|j: int| 0 <= j < catalogue.len() implies (detects(
            (#[trigger] catalogue[j]).1,
            files,
        ) <==> d.contains(j)) by {
            if j < catalogue.len() - 1 {
                assert(prev[j] == catalogue[j]);
                if e.contains(j) {
                    let k = choose|k: int| 0 <= k < e.len() && e[k] == j;
                    assert(d[k] == j);
                }
                if d.contains(j) {
                    let k = choose|k: int| 0 <= k < d.len() && d[k] == j;
                    if k < e.len() {
                        assert(e[k] == j);
                    }
                }
            } else {
                if detects(catalogue.last().1, files) {
                    assert(d[d.len() - 1] == j);
                } else {
                    if d.contains(j) {
                        let k = choose|k: int| 0 <= k < d.len() && d[k] == j;
                        assert(e[k] < prev.len());
                    }
                }
            }
        }
    }
}

/// The paths whose flag is set.
pub open spec fn selected_paths(files: Seq<Seq<char>>, selected: Seq<bool>) -> Set<Seq<char>> {
    Set::new(|p: Seq<char>| exists|i: int| 0 <= i < files.len() && selected[i] && files[i] == p)
}

/// The paths whose flag is set, each once, in ascending order.
pub fn sorted_selection(files: &Vec<String>, selected: &Vec<bool>) -> (r: Vec<String>)
    requires
        files@.len() == selected@.len(),
    ensures
        lists(views(r@), selected_paths(views(files@), selected@)),
{
    let ghost fv = views(files@);
    let mut out: Vec<String> = Vec::new();
    let n = files.len();
    let mut i: usize = 0;
    while i < n
        invariant
            n == files@.len(),
            n == selected@.len(),
            fv == views(files@),
            i <= n,
            sorted_strictly(views(out@)),
            views(out@).to_set() == selected_paths(fv.subrange(0, i as int), selected@),
        decreases n - i,
    {
        if selected[i] {
            insert_sorted(&mut out, files[i].clone());
        }
        proof {
            let s0 = fv.subrange(0, i as int);
            let s1 = fv.subrange(0, i + 1);
            assert forall|x: Seq<char>| #[trigger] selected_paths(s1, selected@).contains(x) <==> (
            selected_paths(s0, selected@).contains(x) || (selected@[i as int] && x == fv[i as int])) by {
                if selected_paths(s1, selected@).contains(x) {
                    let k = choose|k: int| 0 <= k < s1.len() && selected@[k] && s1[k] == x;
                    if k < i {
                        assert(s0[k] == x);
                    }
                }
                if selected_paths(s0, selected@).contains(x) {
                    let k = choose|k: int| 0 <= k < s0.len() && selected@[k] && s0[k] == x;
                    assert(s1[k] == x);
                }
                if selected@[i as int] && x == fv[i as int] {
                    assert(s1[i as int] == x);
                }
            }
            assert(views(out@).to_set() =~= selected_paths(s1, selected@));
        }
        i = i + 1;
    }
    assert(fv.subrange(0, n as int) =~= fv);
    out
}

/// Evaluates one rule against the archive's entry paths. A rule that detects
/// its framework yields its name with every matching path once, in ascending
/// order; any other rule yields nothing.
pub fn check_rule(rule: &FingerprintRule, files: &Vec<String>) -> (r: Option<CheckResults>)
    ensures
        r is Some <==> detects(rule@.1, views(files@)),
        r matches Some(c) ==> reports(c, rule@, views(files@)),
{
    let ghost pats = views(rule.patterns@);
    let ghost fv = views(files@);
    let set = match compile(&rule.patterns) {
        Some(s) => s,
        None => {
            return None;
        },
    };
    let mut hits: Vec<bool> = Vec::new();
    let n = files.len();
    let mut i: usize = 0;
    while i < n
        invariant
            n == files@.len(),
            fv == views(files@),
            set_patterns(set) == pats,
            i <= n,
            hits@.len() == i,
            forall|k: int| 0 <= k < i ==> hits@[k] == any_pattern_finds(pats, #[trigger] fv[k]),
        decreases n - i,
    {
        let hit = set.is_match(files[i].as_str());
        assert(hit == any_pattern_finds(pats, fv[i as int]));
        hits.push(hit);
        i = i + 1;
    }
    let matches = sorted_selection(files, &hits);
    assert(selected_paths(fv, hits@) =~= matched_paths(pats, fv)) by {
        assert forall|x: Seq<char>| selected_paths(fv, hits@).contains(x) <==> matched_paths(pats, fv).contains(x) by {
            if matched_paths(pats, fv).contains(x) {
                let k = choose|k: int| 0 <= k < fv.len() && fv[k] == x;
                assert(hits@[k]);
            }
        }
    }
    if matches.len() == 0 {
        proof {
            assert forall|k: int| 0 <= k < fv.len() implies !any_pattern_finds(pats, #[trigger] fv[k]) by {
                if any_pattern_finds(pats, fv[k]) {
                    assert(matched_paths(pats, fv).contains(fv[k]));
                    assert(views(matches@).to_set().contains(fv[k]));
                }
            }
        }
        None
    } else {
        proof {
            let p = views(matches@)[0];
            assert(views(matches@).to_set().contains(p));
            assert(matched_paths(pats, fv).contains(p));
            let k = choose|k: int| 0 <= k < fv.len() && fv[k] == p;
            assert(any_pattern_finds(pats, fv[k]));
        }
        Some(CheckResults { name: rule.name.clone(), matches })
    }
}

/// Evaluates every rule of a catalogue against the archive's entry paths and
/// returns the results of the rules that detect their framework, in catalogue
/// order.
pub fn scan(files: &Vec<String>, catalogue: &Vec<FingerprintRule>) -> (r: Vec<CheckResults>)
    ensures
        r@.len() == detections(rule_views(catalogue@), views(files@)).len(),
        forall|k: int|
            0 <= k < r@.len() ==> reports(
                #[trigger] r@[k],
                rule_views(catalogue@)[detections(rule_views(catalogue@), views(files@))[k]],
                views(files@),
            ),
{
    let ghost fv = views(files@);
    let ghost rv = rule_views(catalogue@);
    let mut results: Vec<CheckResults> = Vec::new();
    let n = catalogue.len();
    let mut i: usize = 0;
    while i < n
        invariant
            n == catalogue@.len(),
            fv == views(files@),
            i <= n,
            rv == rule_views(catalogue@),
            results@.len() == detections(rv.subrange(0, i as int), fv).len(),
            forall|k: int|
                0 <= k < results@.len() ==> reports(
                    #[trigger] results@[k],
                    rv[detections(rv.subrange(0, i as int), fv)[k]],
                    fv,
                ),
        decreases n - i,
    {
        let ghost pre = rv.subrange(0, i as int);
        let ghost next = rv.subrange(0, i + 1);
        proof {
            assert(next.drop_last() =~= pre);
            lemma_detections_follow_catalogue(pre, fv);
        }
        if let Some(c) = check_rule(&catalogue[i], files) {
            results.push(c);
        }
        proof {
            let d = detections(next, fv);
            assert forall|k: int| 0 <= k < results@.len() implies reports(
                #[trigger] results@[k],
                rv[d[k]],
                fv,
            ) by {
                if k < detections(pre, fv).len() {
                    assert(d[k] == detections(pre, fv)[k]);
                }
            }
        }
        i = i + 1;
    }
    assert(rv.subrange(0, n as int) =~= rv);
    results
}

/// A rule whose expressions compile is present in the engine's output
/// exactly when one of its expressions matches some path.
pub proof fn lemma_rule_present_iff_matched(
    catalogue: Seq<(Seq<char>, Seq<Seq<char>>)>,
    files: Seq<Seq<char>>,
    j: int,
)
    requires
        0 <= j < catalogue.len(),
        set_compiles(catalogue[j].1),
    ensures
        detections(catalogue, files).contains(j) <==> exists|i: int|
            0 <= i < files.len() && any_pattern_finds(catalogue[j].1, #[trigger] files[i]),
{
    lemma_detections_follow_catalogue(catalogue, files);
}

/// A rule none of whose expressions matches any path is absent from the
/// engine's output, whether or not its expressions compile.
pub proof fn lemma_unmatched_rule_absent(
    catalogue: Seq<(Seq<char>, Seq<Seq<char>>)>,
    files: Seq<Seq<char>>,
    j: int,
)
    requires
        0 <= j < catalogue.len(),
        forall|i: int| 0 <= i < files.len() ==> !any_pattern_finds(catalogue[j].1, #[trigger] files[i]),
    ensures
        !detections(catalogue, files).contains(j),
{
    lemma_detections_follow_catalogue(catalogue, files);
    assert(!detects(catalogue[j].1, files));
}

/// A reported path list is free of repeats.
pub proof fn lemma_reported_paths_distinct(
    c: CheckResults,
    rule: (Seq<char>, Seq<Seq<char>>),
    files: Seq<Seq<char>>,
)
    requires
        reports(c, rule, files),
    ensures
        views(c.matches@).no_duplicates(),
{
    lemma_sorted_strictly_no_duplicates(views(c.matches@));
}

} // verus!
