//! The package model, and how the data of `brew info --json=v2 --installed`
//! and `brew outdated --json=v2` becomes that model.
use vstd::prelude::*;

use crate::text::{chars_lt, chars_of, lex_lt};

verus! {

/// The kind of a package: a formula (command-line tool) or a cask (desktop app).
#[derive(Debug, Clone, Copy, PartialEq, Eq, Structural)]
pub enum Kind {
    Formula,
    Cask,
}

impl Kind {
    /// The word that names the kind.
    pub open spec fn label_spec(self) -> Seq<char> {
        match self {
            Kind::Formula => "formula"@,
            Kind::Cask => "cask"@,
        }
    }

    pub fn label(&self) -> (s: &'static str)
        ensures
            s@ == self.label_spec(),
    {
        match self {
            Kind::Formula => "formula",
            Kind::Cask => "cask",
        }
    }
}

/// One installed package, formula or cask.
#[derive(Debug, Clone)]
pub struct Package {
    pub kind: Kind,
    /// The name that `brew` commands take (formula name / cask token).
    pub name: String,
    /// The name to show (a cask's app name; for a formula its full name).
    pub display_name: String,
    /// The installed version.
    pub current_version: Option<String>,
    /// The latest stable version.
    pub latest_version: Option<String>,
    /// A candidate version (a formula's HEAD version).
    pub head_version: Option<String>,
    /// Every installed version.
    pub installed_versions: Vec<String>,
    pub outdated: bool,
    pub pinned: bool,
    pub installed_as_dependency: bool,
    pub installed_on_request: bool,
    pub auto_updates: bool,
    pub dependencies: Vec<String>,
    pub desc: Option<String>,
    pub homepage: Option<String>,
    pub caveats: Option<String>,
}

// ---------- the data of `brew info --json=v2 --installed` ----------

/// The `versions` object of a formula.
pub struct VersionsJson {
    pub stable: Option<String>,
    pub head: Option<String>,
}

/// One entry of a formula's `installed` list.
pub struct InstalledJson {
    pub version: String,
    pub installed_as_dependency: Option<bool>,
    pub installed_on_request: Option<bool>,
}

/// One formula of `brew info`.
pub struct FormulaJson {
    pub name: String,
    pub full_name: String,
    pub versions: VersionsJson,
    pub installed: Vec<InstalledJson>,
    pub pinned: Option<bool>,
    pub outdated: Option<bool>,
    pub desc: Option<String>,
    pub homepage: Option<String>,
    pub dependencies: Vec<String>,
    pub caveats: Option<String>,
}

/// One cask of `brew info`.
pub struct CaskJson {
    pub token: String,
    pub name: Vec<String>,
    pub desc: Option<String>,
    pub homepage: Option<String>,
    pub version: Option<String>,
    pub installed: Option<String>,
    pub outdated: Option<bool>,
    pub auto_updates: Option<bool>,
}

/// The whole answer of `brew info --json=v2 --installed`.
pub struct InfoV2 {
    pub formulae: Vec<FormulaJson>,
    pub casks: Vec<CaskJson>,
}

// ---------- the data of `brew outdated --json=v2` ----------

pub struct OutdatedFormula {
    pub name: String,
    pub current_version: String,
}

pub struct OutdatedCask {
    pub name: String,
    pub current_version: String,
}

/// The whole answer of `brew outdated --json=v2`.
pub struct OutdatedV2 {
    pub formulae: Vec<OutdatedFormula>,
    pub casks: Vec<OutdatedCask>,
}

// ---------- conversion ----------

/// An optional string, with the empty string taken as absent.
pub open spec fn non_empty_spec(s: Option<String>) -> Option<String> {
    match s {
        Some(v) => if v@.len() == 0 {
            None
        } else {
            Some(v)
        },
        None => None,
    }
}

/// An optional flag, absent taken as `false`.
pub open spec fn flag(b: Option<bool>) -> bool {
    match b {
        Some(v) => v,
        None => false,
    }
}

pub fn non_empty(s: Option<String>) -> (r: Option<String>)
    ensures
        r == non_empty_spec(s),
{
    match s {
        Some(v) => if v.as_str().is_empty() {
            None
        } else {
            Some(v)
        },
        None => None,
    }
}

fn flag_of(b: Option<bool>) -> (r: bool)
    ensures
        r == flag(b),
{
    match b {
        Some(v) => v,
        None => false,
    }
}

/// The version of the first installed entry of a formula, if any.
pub open spec fn first_installed_version(installed: Seq<InstalledJson>) -> Option<String> {
    if installed.len() > 0 {
        Some(installed[0].version)
    } else {
        None
    }
}

/// `p` is the package that the formula `f` describes.
pub open spec fn is_formula_package(f: FormulaJson, p: Package) -> bool {
    &&& p.kind == Kind::Formula
    &&& p.name == f.name
    &&& p.display_name == (if f.full_name@.len() == 0 {
        f.name
    } else {
        f.full_name
    })
    &&& p.current_version == non_empty_spec(first_installed_version(f.installed@))
    &&& p.latest_version == non_empty_spec(f.versions.stable)
    &&& p.head_version == non_empty_spec(f.versions.head)
    &&& p.installed_versions@ == f.installed@.map_values(|i: InstalledJson| i.version)
    &&& p.outdated == flag(f.outdated)
    &&& p.pinned == flag(f.pinned)
    &&& p.installed_as_dependency == (f.installed@.len() > 0 && flag(
        f.installed@[0].installed_as_dependency,
    ))
    &&& p.installed_on_request == (f.installed@.len() > 0 && flag(
        f.installed@[0].installed_on_request,
    ))
    &&& !p.auto_updates
    &&& p.dependencies == f.dependencies
    &&& p.desc == f.desc
    &&& p.homepage == f.homepage
    &&& p.caveats == f.caveats
}

/// `p` is the package that the cask `c` describes.
pub open spec fn is_cask_package(c: CaskJson, p: Package) -> bool {
    &&& p.kind == Kind::Cask
    &&& p.name == c.token
    &&& p.display_name == (if c.name@.len() > 0 {
        c.name@[0]
    } else {
        c.token
    })
    &&& p.current_version == non_empty_spec(c.installed)
    &&& p.latest_version == non_empty_spec(c.version)
    &&& p.head_version.is_none()
    &&& p.installed_versions@ == (match non_empty_spec(c.installed) {
        Some(v) => seq![v],
        None => Seq::<String>::empty(),
    })
    &&& p.outdated == flag(c.outdated)
    &&& !p.pinned
    &&& !p.installed_as_dependency
    &&& !p.installed_on_request
    &&& p.auto_updates == flag(c.auto_updates)
    &&& p.dependencies@.len() == 0
    &&& p.desc == c.desc
    &&& p.homepage == c.homepage
    &&& p.caveats.is_none()
}

/// The package that a formula describes.
pub fn formula_package(f: FormulaJson) -> (p: Package)
    ensures
        is_formula_package(f, p),
        p.kind == Kind::Formula,
        p.name == f.name,
        p.dependencies == f.dependencies,
        p.desc == f.desc,
        p.homepage == f.homepage,
        p.caveats == f.caveats,
{
    let FormulaJson {
        name,
        full_name,
        versions,
        installed,
        pinned,
        outdated,
        desc,
        homepage,
        dependencies,
        caveats,
    } = f;
    let n = installed.len();
    let mut installed_versions: Vec<String> = Vec::new();
    for i in 0..n
        invariant
            n == installed.len(),
            installed_versions@ == installed@.take(i as int).map_values(
                |e: InstalledJson| e.version,
            ),
    {
        installed_versions.push(installed[i].version.clone());
        assert(installed@.take(i + 1).map_values(|e: InstalledJson| e.version)
            == installed@.take(i as int).map_values(|e: InstalledJson| e.version).push(
            installed@[i as int].version,
        ));
    }
    assert(installed@.take(n as int) == installed@);
    let (current, dep, on_request) = if n > 0 {
        (
            Some(installed[0].version.clone()),
            flag_of(installed[0].installed_as_dependency),
            flag_of(installed[0].installed_on_request),
        )
    } else {
        (None, false, false)
    };
    let display_name = if full_name.as_str().is_empty() {
        name.clone()
    } else {
        full_name
    };
    Package {
        kind: Kind::Formula,
        name,
        display_name,
        current_version: non_empty(current),
        latest_version: non_empty(versions.stable),
        head_version: non_empty(versions.head),
        installed_versions,
        outdated: flag_of(outdated),
        pinned: flag_of(pinned),
        installed_as_dependency: dep,
        installed_on_request: on_request,
        auto_updates: false,
        dependencies,
        desc,
        homepage,
        caveats,
    }
}

/// The package that a cask describes.
pub fn cask_package(c: CaskJson) -> (p: Package)
    ensures
        is_cask_package(c, p),
        p.kind == Kind::Cask,
        p.name == c.token,
        p.dependencies@.len() == 0,
{
    let CaskJson { token, name, desc, homepage, version, installed, outdated, auto_updates } = c;
    let installed_ver = non_empty(installed);
    let display_name = if name.len() > 0 {
        name[0].clone()
    } else {
        token.clone()
    };
    let mut installed_versions: Vec<String> = Vec::new();
    let current_version = match installed_ver {
        Some(v) => {
            installed_versions.push(v.clone());
            Some(v)
        },
        None => None,
    };
    Package {
        kind: Kind::Cask,
        name: token,
        display_name,
        current_version,
        latest_version: non_empty(version),
        head_version: None,
        installed_versions,
        outdated: flag_of(outdated),
        pinned: false,
        installed_as_dependency: false,
        installed_on_request: false,
        auto_updates: flag_of(auto_updates),
        dependencies: Vec::new(),
        desc,
        homepage,
        caveats: None,
    }
}

// ---------- the order of the package list ----------

/// `a` comes strictly before `b` in the list: outdated packages first, then by name.
pub open spec fn comes_before(a: Package, b: Package) -> bool {
    ||| (a.outdated && !b.outdated)
    ||| (a.outdated == b.outdated && lex_lt(a.name@, b.name@))
}

/// `a` and `b` have the same place in the order: same outdated flag and same name.
pub open spec fn same_key(a: Package, b: Package) -> bool {
    a.outdated == b.outdated && a.name@ == b.name@
}

/// No package of `s` comes before one that stands ahead of it.
pub open spec fn sorted_packages(s: Seq<Package>) -> bool {
    forall|i: int, j: int| 0 <= i < j < s.len() ==> !comes_before(#[trigger] s[j], #[trigger] s[i])
}

/// The packages of `s` that have the same place in the order as `k`, in the order of `s`.
pub open spec fn with_key(s: Seq<Package>, k: Package) -> Seq<Package> {
    s.filter(|p: Package| same_key(p, k))
}

/// `r` is `s` sorted stably: in order, and for each place in the order the
/// packages that share it keep the order they had in `s`.
pub open spec fn stable_sort_of(r: Seq<Package>, s: Seq<Package>) -> bool {
    &&& r.len() == s.len()
    &&& sorted_packages(r)
    &&& forall|k: Package| #[trigger] with_key(r, k) == with_key(s, k)
}

pub proof fn lemma_order_facts(a: Package, b: Package, c: Package)
    ensures
        !comes_before(a, a),
        comes_before(a, b) ==> !comes_before(b, a),
        comes_before(a, b) && comes_before(b, c) ==> comes_before(a, c),
        !comes_before(a, b) && !comes_before(b, a) <==> same_key(a, b),
        !comes_before(a, b) && !comes_before(b, c) ==> !comes_before(a, c),
        same_key(a, b) && same_key(b, c) ==> same_key(a, c),
        same_key(a, b) ==> same_key(b, a),
{
    crate::text::lemma_lex_irreflexive(a.name@);
    crate::text::lemma_lex_asymmetric(a.name@, b.name@);
    crate::text::lemma_lex_transitive(a.name@, b.name@, c.name@);
    crate::text::lemma_lex_total(a.name@, b.name@);
    crate::text::lemma_lex_total(b.name@, c.name@);
    crate::text::lemma_lex_total(a.name@, c.name@);
    crate::text::lemma_lex_transitive(c.name@, a.name@, b.name@);
    crate::text::lemma_lex_transitive(b.name@, c.name@, a.name@);
    crate::text::lemma_lex_irreflexive(b.name@);
    crate::text::lemma_lex_transitive(c.name@, b.name@, a.name@);
    crate::text::lemma_lex_asymmetric(a.name@, c.name@);
    if same_key(a, b) {
        crate::text::lemma_lex_irreflexive(a.name@);
    }
}

fn key_before(a_outdated: bool, a_name: &Vec<char>, b_outdated: bool, b_name: &Vec<char>) -> (r:
    bool)
    ensures
        r == ((a_outdated && !b_outdated) || (a_outdated == b_outdated && lex_lt(a_name@, b_name@))),
{
    if a_outdated != b_outdated {
        a_outdated
    } else {
        chars_lt(a_name, b_name)
    }
}

proof fn lemma_filter_single(x: Package, k: Package)
    ensures
        with_key(seq![x], k) == (if same_key(x, k) {
            seq![x]
        } else {
            Seq::<Package>::empty()
        }),
{
    reveal_with_fuel(Seq::filter, 2);
    assert(seq![x].drop_last() =~= Seq::<Package>::empty());
}

proof fn lemma_insert_keeps_classes(out: Seq<Package>, tail: Seq<Package>, p: int, x: Package)
    requires
        0 <= p <= out.len(),
        forall|q: int| 0 <= q < p ==> comes_before(#[trigger] out[q], x),
        forall|k: Package| #[trigger] with_key(out, k) == with_key(tail, k),
    ensures
        forall|k: Package| #[trigger]
            with_key(out.insert(p, x), k) == with_key(seq![x] + tail, k),
{
    broadcast use Seq::filter_distributes_over_add;

    assert forall|k: Package| #[trigger]
        with_key(out.insert(p, x), k) == with_key(seq![x] + tail, k) by {
        let pred = |q: Package| same_key(q, k);
        let front = out.take(p);
        let back = out.skip(p);
        assert(out.insert(p, x) == front + seq![x] + back);
        assert(out == front + back);
        lemma_filter_single(x, k);
        assert(with_key(out.insert(p, x), k) == with_key(front, k) + with_key(seq![x], k)
            + with_key(back, k));
        assert(with_key(out, k) == with_key(front, k) + with_key(back, k));
        assert(with_key(seq![x] + tail, k) == with_key(seq![x], k) + with_key(tail, k));
        if same_key(x, k) {
            assert forall|i: int| 0 <= i < front.len() implies !pred(#[trigger] front[i]) by {
                lemma_order_facts(front[i], x, k);
                lemma_order_facts(x, k, front[i]);
                lemma_order_facts(front[i], k, x);
            }
            front.lemma_all_neg_filter_empty(pred);
            assert(with_key(front, k) =~= Seq::<Package>::empty());
            assert(with_key(out.insert(p, x), k) =~= seq![x] + with_key(back, k));
            assert(with_key(out, k) =~= with_key(back, k));
        } else {
            assert(with_key(out.insert(p, x), k) =~= with_key(front, k) + with_key(back, k));
        }
    }
}

/// Sorts packages stably: outdated ones first, then by name.
pub fn sort_packages(v: Vec<Package>) -> (r: Vec<Package>)
    ensures
        stable_sort_of(r@, v@),
{
    let ghost s = v@;
    let mut rest = v;
    let mut out: Vec<Package> = Vec::new();
    let mut keys: Vec<Vec<char>> = Vec::new();
    assert(s.skip(s.len() as int) =~= Seq::<Package>::empty());
    assert(s.take(s.len() as int) == s);
    while rest.len() > 0
        invariant
            rest.len() <= s.len(),
            rest@ == s.take(rest.len() as int),
            out.len() == s.len() - rest.len(),
            keys.len() == out.len(),
            forall|q: int| 0 <= q < out.len() ==> (#[trigger] keys@[q])@ == out@[q].name@,
            sorted_packages(out@),
            forall|k: Package| #[trigger] with_key(out@, k) == with_key(s.skip(rest.len() as int), k),
        decreases rest.len(),
    {
        let ghost i = rest.len() as int;
        let x = rest.pop().unwrap();
        assert(x == s[i - 1]);
        let kx = chars_of(x.name.as_str());
        let mut p: usize = 0;
        while p < out.len() && key_before(out[p].outdated, &keys[p], x.outdated, &kx)
            invariant
                p <= out.len(),
                keys.len() == out.len(),
                forall|q: int| 0 <= q < out.len() ==> (#[trigger] keys@[q])@ == out@[q].name@,
                kx@ == x.name@,
                forall|q: int| 0 <= q < p ==> comes_before(#[trigger] out@[q], x),
            decreases out.len() - p,
        {
            p = p + 1;
        }
        assert forall|q: int| p <= q < out.len() implies !comes_before(#[trigger] out@[q], x) by {
            lemma_order_facts(out@[p as int], out@[q], x);
            lemma_order_facts(x, out@[p as int], out@[q]);
            lemma_order_facts(out@[q], out@[p as int], x);
        }
        let ghost old_out = out@;
        proof {
            lemma_insert_keeps_classes(old_out, s.skip(i), p as int, x);
            assert(s.skip(i - 1) == seq![x] + s.skip(i));
        }
        out.insert(p, x);
        keys.insert(p, kx);
        assert forall|a: int, b: int| 0 <= a < b < out.len() implies !comes_before(
            #[trigger] out@[b],
            #[trigger] out@[a],
        ) by {
            if b == p {
                lemma_order_facts(out@[a], x, x);
            } else if a == p {
            } else {
            }
        }
        assert(rest@ == s.take(rest.len() as int));
    }
    assert(s.skip(0) == s);
    out
}


// ---------- the package list of `brew info` ----------

/// `u` lists the packages that `info` describes: its formulae, then its casks,
/// each in the order of `info`.
pub open spec fn describes(info: InfoV2, u: Seq<Package>) -> bool {
    &&& u.len() == info.formulae@.len() + info.casks@.len()
    &&& forall|k: int|
        0 <= k < info.formulae@.len() ==> is_formula_package(info.formulae@[k], #[trigger] u[k])
    &&& forall|k: int|
        0 <= k < info.casks@.len() ==> is_cask_package(
            info.casks@[k],
            #[trigger] u[info.formulae@.len() + k],
        )
}

/// The package list of `brew info --json=v2 --installed`: one package for each
/// formula and each cask, outdated ones first and then by name.
pub fn packages_from_info(info: InfoV2) -> (r: Vec<Package>)
    ensures
        exists|u: Seq<Package>| describes(info, u) && stable_sort_of(r@, u),
{
    let ghost info0 = info;
    let InfoV2 { formulae, casks } = info;
    let ghost nf = formulae.len() as int;
    let mut packages: Vec<Package> = Vec::new();
    let mut formulae = formulae;
    let mut casks = casks;
    assert(info0.formulae@.skip(0) == info0.formulae@);
    while formulae.len() > 0
        invariant
            nf == info0.formulae@.len(),
            packages.len() <= nf,
            formulae@ == info0.formulae@.skip(packages.len() as int),
            forall|k: int|
                0 <= k < packages.len() ==> is_formula_package(
                    info0.formulae@[k],
                    #[trigger] packages@[k],
                ),
        decreases formulae.len(),
    {
        let ghost j = packages.len() as int;
        let f = formulae.remove(0);
        assert(f == info0.formulae@[j]);
        packages.push(formula_package(f));
        assert(formulae@ == info0.formulae@.skip(packages.len() as int));
    }
    let ghost nc = info0.casks@.len() as int;
    assert(info0.casks@.skip(0) == info0.casks@);
    while casks.len() > 0
        invariant
            nf == info0.formulae@.len(),
            nc == info0.casks@.len(),
            nf <= packages.len() <= nf + nc,
            casks@ == info0.casks@.skip(packages.len() - nf),
            forall|k: int|
                0 <= k < nf ==> is_formula_package(info0.formulae@[k], #[trigger] packages@[k]),
            forall|k: int|
                0 <= k < packages.len() - nf ==> is_cask_package(
                    info0.casks@[k],
                    #[trigger] packages@[nf + k],
                ),
        decreases casks.len(),
    {
        let ghost j = packages.len() - nf;
        let c = casks.remove(0);
        assert(c == info0.casks@[j]);
        packages.push(cask_package(c));
        assert(casks@ == info0.casks@.skip(packages.len() - nf));
    }
    let ghost u = packages@;
    assert(describes(info0, u));
    sort_packages(packages)
}

// ---------- the entries of `brew outdated` ----------

/// The entries of `brew outdated --json=v2`: (name, latest version) of each
/// outdated formula, then of each outdated cask, in the order of `out`.
pub open spec fn outdated_spec(out: OutdatedV2) -> Seq<(String, String)> {
    out.formulae@.map_values(|f: OutdatedFormula| (f.name, f.current_version))
        + out.casks@.map_values(|c: OutdatedCask| (c.name, c.current_version))
}

pub fn outdated_entries(out: OutdatedV2) -> (r: Vec<(String, String)>)
    ensures
        r@ == outdated_spec(out),
{
    let ghost out0 = out;
    let OutdatedV2 { formulae, casks } = out;
    let mut entries: Vec<(String, String)> = Vec::new();
    let nf = formulae.len();
    for i in 0..nf
        invariant
            nf == formulae.len(),
            formulae == out0.formulae,
            entries@ == formulae@.take(i as int).map_values(
                |f: OutdatedFormula| (f.name, f.current_version),
            ),
    {
        entries.push((formulae[i].name.clone(), formulae[i].current_version.clone()));
        assert(formulae@.take(i + 1).map_values(|f: OutdatedFormula| (f.name, f.current_version))
            == formulae@.take(i as int).map_values(
            |f: OutdatedFormula| (f.name, f.current_version),
        ).push((formulae@[i as int].name, formulae@[i as int].current_version)));
    }
    assert(formulae@.take(nf as int) == formulae@);
    let ghost ef = entries@;
    let nc = casks.len();
    for i in 0..nc
        invariant
            nc == casks.len(),
            casks == out0.casks,
            entries@ == ef + casks@.take(i as int).map_values(
                |c: OutdatedCask| (c.name, c.current_version),
            ),
    {
        entries.push((casks[i].name.clone(), casks[i].current_version.clone()));
        assert(casks@.take(i + 1).map_values(|c: OutdatedCask| (c.name, c.current_version))
            == casks@.take(i as int).map_values(|c: OutdatedCask| (c.name, c.current_version)).push(
            (casks@[i as int].name, casks@[i as int].current_version),
        ));
    }
    assert(casks@.take(nc as int) == casks@);
    entries
}

} // verus!
