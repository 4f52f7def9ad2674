//! Which maintainers a change concerns, and by which packages.

use vstd::prelude::*;
use vstd::string::StringExecFns;

use crate::text::{chars_of, join, joined, str_eq, string_from_chars};

verus! {

/// A maintainer handle, kept in ASCII lowercase.
#[derive(Debug, PartialEq, Eq)]
pub struct Maintainer(pub String);

/// A package attribute path.
#[derive(Debug, PartialEq, Eq)]
pub struct Package(pub String);

impl Clone for Maintainer {
    fn clone(&self) -> (r: Self)
        ensures
            r == *self,
    {
        Maintainer(self.0.clone())
    }
}

impl Clone for Package {
    fn clone(&self) -> (r: Self)
        ensures
            r == *self,
    {
        Package(self.0.clone())
    }
}

/// `c` in ASCII lowercase.
pub open spec fn ascii_lower(c: char) -> char {
    if 'A' <= c <= 'Z' {
        ((c as u32) + 32) as char
    } else {
        c
    }
}

/// `s` with its ASCII letters lowercased, as `str::to_ascii_lowercase`
/// writes it.
pub open spec fn ascii_lowercase(s: Seq<char>) -> Seq<char> {
    s.map_values(|c: char| ascii_lower(c))
}

fn to_ascii_lower(c: char) -> (r: char)
    ensures
        r == ascii_lower(c),
{
    if 'A' <= c && c <= 'Z' {
        ((c as u8) + 32) as char
    } else {
        c
    }
}

impl Maintainer {
    /// The maintainer with handle `name`, lowercased.
    pub fn from(name: &str) -> (m: Maintainer)
        ensures
            m.0@ == ascii_lowercase(name@),
    {
        let chars = chars_of(name);
        let mut lower: Vec<char> = Vec::new();
        let mut k: usize = 0;
        while k < chars.len()
            invariant
                k <= chars.len(),
                chars@ == name@,
                lower@ == ascii_lowercase(name@.take(k as int)),
            decreases chars.len() - k,
        {
            lower.push(to_ascii_lower(chars[k]));
            assert(ascii_lowercase(name@.take(k + 1)) =~= ascii_lowercase(name@.take(k as int)).push(
                ascii_lower(name@[k as int]),
            ));
            k = k + 1;
        }
        assert(name@.take(k as int) =~= name@);
        Maintainer(string_from_chars(lower.as_slice()))
    }
}

impl Package {
    /// The package with attribute path `name`.
    pub fn from(name: &str) -> (p: Package)
        ensures
            p.0@ == name@,
    {
        Package(name.to_owned())
    }
}

/// The maintainers a change concerns, each with the changed packages they
/// maintain. No maintainer appears twice.
#[derive(Debug, PartialEq, Eq)]
pub struct ImpactedMaintainers(Vec<(Maintainer, Vec<Package>)>);

/// For each changed package, the maintainers concerned. No package appears
/// twice, and no maintainer twice for one package.
#[derive(Debug, PartialEq, Eq)]
pub struct MaintainersByPackage(pub Vec<(Package, Vec<Maintainer>)>);

/// The handles of the maintainers in `v`.
pub open spec fn maintainer_names(v: Seq<(Maintainer, Vec<Package>)>) -> Seq<Seq<char>> {
    v.map_values(|e: (Maintainer, Vec<Package>)| e.0.0@)
}

/// Whether `m` maintains the package named `p` according to `v`.
pub open spec fn maintains(v: Seq<(Maintainer, Vec<Package>)>, m: Seq<char>, p: Seq<char>) -> bool {
    exists|i: int, j: int|
        0 <= i < v.len() && 0 <= j < v[i].1@.len() && #[trigger] v[i].0.0@ == m
            && #[trigger] v[i].1@[j].0@ == p
}

/// Whether `p` is a package of some maintainer in `v`.
pub open spec fn is_impacted_package(v: Seq<(Maintainer, Vec<Package>)>, p: Seq<char>) -> bool {
    exists|i: int, j: int| 0 <= i < v.len() && 0 <= j < v[i].1@.len() && #[trigger] v[i].1@[j].0@ == p
}

/// Where the maintainer `name` stands in `r`, if it is there.
pub open spec fn name_position(r: Seq<(Maintainer, Vec<Package>)>, name: Seq<char>) -> Option<int> {
    if exists|k: int| 0 <= k < r.len() && #[trigger] r[k].0.0@ == name {
        Some(choose|k: int| 0 <= k < r.len() && #[trigger] r[k].0.0@ == name)
    } else {
        None
    }
}

/// The entries of `v` gathered as a map keyed by maintainer gathers them:
/// a maintainer listed again takes the packages of its later listing, in
/// the place of its first.
pub open spec fn gathered(v: Seq<(Maintainer, Vec<Package>)>) -> Seq<(Maintainer, Vec<Package>)>
    decreases v.len(),
{
    if v.len() == 0 {
        seq![]
    } else {
        let r = gathered(v.drop_last());
        match name_position(r, v.last().0.0@) {
            Some(k) => r.update(k, v.last()),
            None => r.push(v.last()),
        }
    }
}

fn find_maintainer(r: &Vec<(Maintainer, Vec<Package>)>, name: &str) -> (k: Option<usize>)
    ensures
        match k {
            Some(k) => k < r.len() && r@[k as int].0.0@ == name@,
            None => forall|x: int| 0 <= x < r.len() ==> #[trigger] r@[x].0.0@ != name@,
        },
{
    let mut k: usize = 0;
    while k < r.len()
        invariant
            k <= r.len(),
            forall|x: int| 0 <= x < k ==> #[trigger] r@[x].0.0@ != name@,
        decreases r.len() - k,
    {
        if str_eq(r[k].0.0.as_str(), name) {
            return Some(k);
        }
        k = k + 1;
    }
    None
}

impl ImpactedMaintainers {
    /// The maintainers with their packages, in order.
    pub closed spec fn entries(&self) -> Seq<(Maintainer, Vec<Package>)> {
        self.0@
    }

    /// No maintainer appears twice.
    #[verifier::type_invariant]
    spec fn distinct_maintainers(self) -> bool {
        maintainer_names(self.0@).no_duplicates()
    }

    /// Every maintainer appears once.
    pub open spec fn wf(&self) -> bool {
        maintainer_names(self.entries()).no_duplicates()
    }

    /// The maintainers of `entries`, gathered by maintainer as a map keyed
    /// by maintainer gathers them (see [`gathered`]).
    pub fn from_entries(entries: Vec<(Maintainer, Vec<Package>)>) -> (m: ImpactedMaintainers)
        ensures
            m.entries() == gathered(entries@),
            m.wf(),
    {
        let ghost all = entries@;
        let mut rest = entries;
        let mut r: Vec<(Maintainer, Vec<Package>)> = Vec::new();
        assert(all.take(0) =~= seq![]);
        while rest.len() > 0
            invariant
                rest.len() <= all.len(),
                rest@ == all.skip(all.len() - rest.len()),
                r@ == gathered(all.take(all.len() - rest.len())),
                maintainer_names(r@).no_duplicates(),
            decreases rest.len(),
        {
            let ghost n: int = all.len() - rest.len();
            let ghost before = r@;
            let e = rest.remove(0);
            assert(e == all[n]);
            assert(rest@ =~= all.skip(n + 1));
            assert(all.take(n + 1).drop_last() =~= all.take(n));
            assert(all.take(n + 1).last() == all[n]);
            match find_maintainer(&r, e.0.0.as_str()) {
                Some(k) => {
                    assert(name_position(before, e.0.0@) == Some(k as int)) by {
                        let c = choose|c: int| 0 <= c < before.len() && #[trigger] before[c].0.0@
                            == e.0.0@;
                        assert(maintainer_names(before)[c] == maintainer_names(before)[k as int]);
                    }
                    r.set(k, e);
                    assert(maintainer_names(r@) =~= maintainer_names(before));
                },
                None => {
                    assert(name_position(before, e.0.0@) is None);
                    r.push(e);
                    assert(maintainer_names(r@) =~= maintainer_names(before).push(e.0.0@));
                    assert forall|a: int, b: int|
                        0 <= a < b < maintainer_names(r@).len() implies maintainer_names(r@)[a]
                            != maintainer_names(r@)[b] by {
                        if b == maintainer_names(r@).len() - 1 {
                            assert(before[a].0.0@ != e.0.0@);
                        }
                    }
                },
            }
        }
        assert(all.take(all.len() as int) =~= all);
        ImpactedMaintainers(r)
    }

    /// The handles of the maintainers concerned.
    pub fn maintainers(&self) -> (r: Vec<String>)
        ensures
            r@.map_values(|s: String| s@) == maintainer_names(self.entries()),
            r@.map_values(|s: String| s@).no_duplicates(),
            r.len() == self.entries().len(),
    {
        proof {
            use_type_invariant(self);
        }
        let mut r: Vec<String> = Vec::new();
        let mut k: usize = 0;
        while k < self.0.len()
            invariant
                k <= self.0.len(),
                r@.map_values(|s: String| s@) == maintainer_names(self.0@.take(k as int)),
            decreases self.0.len() - k,
        {
            r.push(self.0[k].0.0.clone());
            assert(maintainer_names(self.0@.take(k + 1)) =~= maintainer_names(self.0@.take(k as int)).push(
                self.0@[k as int].0.0@,
            ));
            assert(r@.map_values(|s: String| s@) =~= maintainer_names(self.0@.take(k as int)).push(
                self.0@[k as int].0.0@,
            ));
            k = k + 1;
        }
        assert(self.0@.take(k as int) =~= self.0@);
        r
    }
}

/// Whether the pair `(i2, j2)` comes before `(i, j)`: an earlier
/// maintainer, or an earlier package of the same one.
pub open spec fn before(i2: int, j2: int, i: int, j: int) -> bool {
    i2 < i || (i2 == i && j2 < j)
}

/// Whether, among the first pairs of `v` up to `(i, j)`, `m` maintains `p`.
pub open spec fn seen(v: Seq<(Maintainer, Vec<Package>)>, i: int, j: int, m: Seq<char>, p: Seq<char>) -> bool {
    exists|i2: int, j2: int|
        0 <= i2 < v.len() && 0 <= j2 < v[i2].1@.len() && before(i2, j2, i, j)
            && #[trigger] v[i2].0.0@ == m && #[trigger] v[i2].1@[j2].0@ == p
}

/// The package names of a grouping by package.
pub open spec fn package_names(r: Seq<(Package, Vec<Maintainer>)>) -> Seq<Seq<char>> {
    r.map_values(|e: (Package, Vec<Maintainer>)| e.0.0@)
}

/// The handles of a list of maintainers.
pub open spec fn handles(v: Seq<Maintainer>) -> Seq<Seq<char>> {
    v.map_values(|m: Maintainer| m.0@)
}

/// Whether the grouping `r` lists `m` under package `p`.
pub open spec fn lists(r: Seq<(Package, Vec<Maintainer>)>, p: Seq<char>, m: Seq<char>) -> bool {
    exists|k: int, l: int|
        0 <= k < r.len() && 0 <= l < r[k].1@.len() && #[trigger] r[k].0.0@ == p
            && #[trigger] r[k].1@[l].0@ == m
}

/// `r` groups exactly the pairs `seen(v, i, j, ..)` by package, each
/// package once, each maintainer once per package.
pub open spec fn groups_upto(
    r: Seq<(Package, Vec<Maintainer>)>,
    v: Seq<(Maintainer, Vec<Package>)>,
    i: int,
    j: int,
) -> bool {
    &&& package_names(r).no_duplicates()
    &&& forall|k: int| 0 <= k < r.len() ==> handles(#[trigger] r[k].1@).no_duplicates()
    &&& forall|k: int| 0 <= k < r.len() ==> (#[trigger] r[k].1@).len() > 0
    &&& forall|p: Seq<char>, m: Seq<char>| lists(r, p, m) <==> seen(v, i, j, m, p)
}

fn find_package(r: &Vec<(Package, Vec<Maintainer>)>, p: &Package) -> (k: Option<usize>)
    ensures
        match k {
            Some(k) => k < r.len() && r@[k as int].0.0@ == p.0@,
            None => !package_names(r@).contains(p.0@),
        },
{
    let mut k: usize = 0;
    while k < r.len()
        invariant
            k <= r.len(),
            forall|x: int| 0 <= x < k ==> r@[x].0.0@ != p.0@,
        decreases r.len() - k,
    {
        if str_eq(r[k].0.0.as_str(), p.0.as_str()) {
            return Some(k);
        }
        k = k + 1;
    }
    assert(!package_names(r@).contains(p.0@)) by {
        if package_names(r@).contains(p.0@) {
            let x = choose|x: int| 0 <= x < r.len() && package_names(r@)[x] == p.0@;
            assert(r@[x].0.0@ == p.0@);
        }
    }
    None
}

fn has_maintainer(v: &Vec<Maintainer>, m: &Maintainer) -> (b: bool)
    ensures
        b == handles(v@).contains(m.0@),
{
    let mut k: usize = 0;
    while k < v.len()
        invariant
            k <= v.len(),
            forall|x: int| 0 <= x < k ==> v@[x].0@ != m.0@,
        decreases v.len() - k,
    {
        if str_eq(v[k].0.as_str(), m.0.as_str()) {
            assert(handles(v@)[k as int] == m.0@);
            return true;
        }
        k = k + 1;
    }
    assert(!handles(v@).contains(m.0@)) by {
        if handles(v@).contains(m.0@) {
            let x = choose|x: int| 0 <= x < v.len() && handles(v@)[x] == m.0@;
            assert(v@[x].0@ == m.0@);
        }
    }
    false
}

proof fn lemma_seen_step(v: Seq<(Maintainer, Vec<Package>)>, i: int, j: int, m: Seq<char>, p: Seq<char>)
    requires
        0 <= i < v.len(),
        0 <= j < v[i].1@.len(),
    ensures
        seen(v, i, j + 1, m, p) <==> (seen(v, i, j, m, p) || (m == v[i].0.0@ && p
            == v[i].1@[j].0@)),
{
    if seen(v, i, j + 1, m, p) && !(m == v[i].0.0@ && p == v[i].1@[j].0@) {
        let (i2, j2) = choose|i2: int, j2: int|
            0 <= i2 < v.len() && 0 <= j2 < v[i2].1@.len() && before(i2, j2, i, j + 1)
                && #[trigger] v[i2].0.0@ == m && #[trigger] v[i2].1@[j2].0@ == p;
        assert(before(i2, j2, i, j));
    }
    if m == v[i].0.0@ && p == v[i].1@[j].0@ {
        assert(before(i, j, i, j + 1));
        assert(v[i].0.0@ == m && v[i].1@[j].0@ == p);
    }
    if seen(v, i, j, m, p) {
        let (i2, j2) = choose|i2: int, j2: int|
            0 <= i2 < v.len() && 0 <= j2 < v[i2].1@.len() && before(i2, j2, i, j)
                && #[trigger] v[i2].0.0@ == m && #[trigger] v[i2].1@[j2].0@ == p;
        assert(before(i2, j2, i, j + 1));
    }
}

proof fn lemma_seen_next_row(v: Seq<(Maintainer, Vec<Package>)>, i: int, m: Seq<char>, p: Seq<char>)
    requires
        0 <= i < v.len(),
    ensures
        seen(v, i, v[i].1@.len() as int, m, p) <==> seen(v, i + 1, 0, m, p),
{
    if seen(v, i, v[i].1@.len() as int, m, p) {
        let (i2, j2) = choose|i2: int, j2: int|
            0 <= i2 < v.len() && 0 <= j2 < v[i2].1@.len() && before(i2, j2, i, v[i].1@.len() as int)
                && #[trigger] v[i2].0.0@ == m && #[trigger] v[i2].1@[j2].0@ == p;
        assert(before(i2, j2, i + 1, 0));
    }
    if seen(v, i + 1, 0, m, p) {
        let (i2, j2) = choose|i2: int, j2: int|
            0 <= i2 < v.len() && 0 <= j2 < v[i2].1@.len() && before(i2, j2, i + 1, 0)
                && #[trigger] v[i2].0.0@ == m && #[trigger] v[i2].1@[j2].0@ == p;
        assert(before(i2, j2, i, v[i].1@.len() as int));
    }
}

proof fn lemma_seen_all(v: Seq<(Maintainer, Vec<Package>)>, m: Seq<char>, p: Seq<char>)
    ensures
        seen(v, v.len() as int, 0, m, p) <==> maintains(v, m, p),
{
    if maintains(v, m, p) {
        let (i2, j2) = choose|i2: int, j2: int|
            0 <= i2 < v.len() && 0 <= j2 < v[i2].1@.len() && #[trigger] v[i2].0.0@ == m
                && #[trigger] v[i2].1@[j2].0@ == p;
        assert(before(i2, j2, v.len() as int, 0));
    }
}

proof fn lemma_extend_entry(
    r: Seq<(Package, Vec<Maintainer>)>,
    r2: Seq<(Package, Vec<Maintainer>)>,
    k: int,
    m: Maintainer,
)
    requires
        0 <= k < r.len(),
        r2 == r.update(k, (r[k].0, r2[k].1)),
        r2[k].1@ == r[k].1@.push(m),
        !handles(r[k].1@).contains(m.0@),
        package_names(r).no_duplicates(),
        forall|x: int| 0 <= x < r.len() ==> handles(#[trigger] r[x].1@).no_duplicates(),
        forall|x: int| 0 <= x < r.len() ==> (#[trigger] r[x].1@).len() > 0,
    ensures
        package_names(r2).no_duplicates(),
        forall|x: int| 0 <= x < r2.len() ==> handles(#[trigger] r2[x].1@).no_duplicates(),
        forall|x: int| 0 <= x < r2.len() ==> (#[trigger] r2[x].1@).len() > 0,
        forall|p2: Seq<char>, m2: Seq<char>|
            lists(r2, p2, m2) <==> (lists(r, p2, m2) || (p2 == r[k].0.0@ && m2 == m.0@)),
{
    assert(package_names(r2) =~= package_names(r));
    assert(handles(r2[k].1@) =~= handles(r[k].1@).push(m.0@));
    assert forall|p2: Seq<char>, m2: Seq<char>|
        lists(r2, p2, m2) <==> (lists(r, p2, m2) || (p2 == r[k].0.0@ && m2 == m.0@)) by {
        if lists(r2, p2, m2) {
            let (k2, l2) = choose|k2: int, l2: int|
                0 <= k2 < r2.len() && 0 <= l2 < r2[k2].1@.len() && #[trigger] r2[k2].0.0@ == p2
                    && #[trigger] r2[k2].1@[l2].0@ == m2;
            if k2 != k {
                assert(r[k2].0.0@ == p2 && r[k2].1@[l2].0@ == m2);
            } else if l2 < r[k].1@.len() {
                assert(r[k2].0.0@ == p2 && r[k2].1@[l2].0@ == m2);
            }
        }
        if lists(r, p2, m2) {
            let (k2, l2) = choose|k2: int, l2: int|
                0 <= k2 < r.len() && 0 <= l2 < r[k2].1@.len() && #[trigger] r[k2].0.0@ == p2
                    && #[trigger] r[k2].1@[l2].0@ == m2;
            assert(r2[k2].0.0@ == p2 && r2[k2].1@[l2].0@ == m2);
        }
        if p2 == r[k].0.0@ && m2 == m.0@ {
            let l = r[k].1@.len() as int;
            assert(r2[k].0.0@ == p2 && r2[k].1@[l].0@ == m2);
        }
    }
}

proof fn lemma_new_entry(
    r: Seq<(Package, Vec<Maintainer>)>,
    r2: Seq<(Package, Vec<Maintainer>)>,
    p: Package,
    m: Maintainer,
)
    requires
        r2.len() == r.len() + 1,
        r2.take(r.len() as int) == r,
        r2[r.len() as int].0 == p,
        r2[r.len() as int].1@ == seq![m],
        !package_names(r).contains(p.0@),
        package_names(r).no_duplicates(),
        forall|x: int| 0 <= x < r.len() ==> handles(#[trigger] r[x].1@).no_duplicates(),
        forall|x: int| 0 <= x < r.len() ==> (#[trigger] r[x].1@).len() > 0,
    ensures
        package_names(r2).no_duplicates(),
        forall|x: int| 0 <= x < r2.len() ==> handles(#[trigger] r2[x].1@).no_duplicates(),
        forall|x: int| 0 <= x < r2.len() ==> (#[trigger] r2[x].1@).len() > 0,
        forall|p2: Seq<char>, m2: Seq<char>|
            lists(r2, p2, m2) <==> (lists(r, p2, m2) || (p2 == p.0@ && m2 == m.0@)),
{
    let n = r.len() as int;
    assert forall|x: int| 0 <= x < n implies r2[x] == r[x] by {
        assert(r2.take(n)[x] == r2[x]);
    }
    assert(package_names(r2) =~= package_names(r).push(p.0@));
    assert(handles(r2[n].1@) =~= seq![m.0@]);
    assert forall|p2: Seq<char>, m2: Seq<char>|
        lists(r2, p2, m2) <==> (lists(r, p2, m2) || (p2 == p.0@ && m2 == m.0@)) by {
        if lists(r2, p2, m2) {
            let (k2, l2) = choose|k2: int, l2: int|
                0 <= k2 < r2.len() && 0 <= l2 < r2[k2].1@.len() && #[trigger] r2[k2].0.0@ == p2
                    && #[trigger] r2[k2].1@[l2].0@ == m2;
            if k2 < n {
                assert(r[k2].0.0@ == p2 && r[k2].1@[l2].0@ == m2);
            }
        }
        if lists(r, p2, m2) {
            let (k2, l2) = choose|k2: int, l2: int|
                0 <= k2 < r.len() && 0 <= l2 < r[k2].1@.len() && #[trigger] r[k2].0.0@ == p2
                    && #[trigger] r[k2].1@[l2].0@ == m2;
            assert(r2[k2].0.0@ == p2 && r2[k2].1@[l2].0@ == m2);
        }
        if p2 == p.0@ && m2 == m.0@ {
            assert(r2[n].0.0@ == p2 && r2[n].1@[0].0@ == m2);
        }
    }
}

impl ImpactedMaintainers {
    /// Groups the maintainers by package: each package maintained by some
    /// maintainer appears once, listing once each maintainer of it.
    pub fn maintainers_by_package(&self) -> (r: MaintainersByPackage)
        ensures
            package_names(r.0@).no_duplicates(),
            forall|k: int| 0 <= k < r.0.len() ==> handles(#[trigger] r.0@[k].1@).no_duplicates(),
            forall|k: int| 0 <= k < r.0.len() ==> (#[trigger] r.0@[k].1@).len() > 0,
            forall|p: Seq<char>, m: Seq<char>| lists(r.0@, p, m) <==> maintains(self.entries(), m, p),
    {
        let v = &self.0;
        let mut r: Vec<(Package, Vec<Maintainer>)> = Vec::new();
        let mut i: usize = 0;
        while i < v.len()
            invariant
                i <= v.len(),
                groups_upto(r@, v@, i as int, 0),
            decreases v.len() - i,
        {
            let maintainer = &v[i].0;
            let packages = &v[i].1;
            let mut j: usize = 0;
            while j < packages.len()
                invariant
                    i < v.len(),
                    maintainer == v@[i as int].0,
                    packages == v@[i as int].1,
                    j <= packages.len(),
                    groups_upto(r@, v@, i as int, j as int),
                decreases packages.len() - j,
            {
                let package = &packages[j];
                let ghost old_r = r@;
                proof {
                    assert forall|p2: Seq<char>, m2: Seq<char>|
                        seen(v@, i as int, j + 1, m2, p2) <==> (seen(v@, i as int, j as int, m2, p2)
                            || (m2 == maintainer.0@ && p2 == package.0@)) by {
                        lemma_seen_step(v@, i as int, j as int, m2, p2);
                    }
                }
                match find_package(&r, package) {
                    Some(k) => {
                        if !has_maintainer(&r[k].1, maintainer) {
                            let mut list = r[k].1.clone();
                            assert(list@ =~= r@[k as int].1@);
                            list.push(maintainer.clone());
                            let name = r[k].0.clone();
                            r.set(k, (name, list));
                            proof {
                                lemma_extend_entry(old_r, r@, k as int, *maintainer);
                            }
                        } else {
                            proof {
                                let l = choose|l: int|
                                    0 <= l < r@[k as int].1@.len() && handles(r@[k as int].1@)[l]
                                        == maintainer.0@;
                                assert(r@[k as int].0.0@ == package.0@ && r@[k as int].1@[l].0@
                                    == maintainer.0@);
                            }
                        }
                    },
                    None => {
                        let mut list: Vec<Maintainer> = Vec::new();
                        list.push(maintainer.clone());
                        r.push((package.clone(), list));
                        proof {
                            assert(r@.take(old_r.len() as int) =~= old_r);
                            lemma_new_entry(old_r, r@, *package, *maintainer);
                        }
                    },
                }
                j = j + 1;
            }
            proof {
                assert forall|p2: Seq<char>, m2: Seq<char>|
                    seen(v@, i as int, j as int, m2, p2) <==> seen(v@, i + 1, 0, m2, p2) by {
                    lemma_seen_next_row(v@, i as int, m2, p2);
                }
            }
            i = i + 1;
        }
        proof {
            assert forall|p2: Seq<char>, m2: Seq<char>|
                seen(v@, i as int, 0, m2, p2) <==> maintains(v@, m2, p2) by {
                lemma_seen_all(v@, m2, p2);
            }
        }
        MaintainersByPackage(r)
    }
}

/// The line of a maintainer: the handle, a colon, and the packages joined
/// with commas.
pub open spec fn maintainer_line(e: (Maintainer, Vec<Package>)) -> Seq<char> {
    e.0.0@ + ": "@ + joined(e.1@.map_values(|p: Package| p.0@), ", "@)
}

impl ImpactedMaintainers {
    /// One line per maintainer, as [`maintainer_line`] writes it, joined
    /// with line feeds.
    pub fn render(&self) -> (r: String)
        ensures
            r@ == joined(
                self.entries().map_values(|e: (Maintainer, Vec<Package>)| maintainer_line(e)),
                "\n"@,
            ),
    {
        let mut lines: Vec<String> = Vec::new();
        let mut k: usize = 0;
        while k < self.0.len()
            invariant
                k <= self.0.len(),
                lines@.map_values(|s: String| s@) == self.0@.take(k as int).map_values(
                    |e: (Maintainer, Vec<Package>)| maintainer_line(e),
                ),
            decreases self.0.len() - k,
        {
            let entry = &self.0[k];
            let mut names: Vec<String> = Vec::new();
            let mut l: usize = 0;
            while l < entry.1.len()
                invariant
                    l <= entry.1.len(),
                    names@.map_values(|s: String| s@) == entry.1@.take(l as int).map_values(
                        |p: Package| p.0@,
                    ),
                decreases entry.1.len() - l,
            {
                let ghost before = names@.map_values(|s: String| s@);
                names.push(entry.1[l].0.clone());
                assert(names@.map_values(|s: String| s@) =~= before.push(entry.1@[l as int].0@));
                assert(entry.1@.take(l + 1) =~= entry.1@.take(l as int).push(entry.1@[l as int]));
                assert(names@.map_values(|s: String| s@) =~= entry.1@.take(l + 1).map_values(
                    |p: Package| p.0@,
                ));
                l = l + 1;
            }
            assert(entry.1@.take(l as int) =~= entry.1@);
            let mut line = entry.0.0.clone();
            line.append(": ");
            let packages = join(&names, ", ");
            line.append(packages.as_str());
            let ghost before = lines@.map_values(|s: String| s@);
            lines.push(line);
            assert(lines@.map_values(|s: String| s@) =~= before.push(maintainer_line(self.0@[k as int])));
            assert(self.0@.take(k + 1) =~= self.0@.take(k as int).push(self.0@[k as int]));
            assert(lines@.map_values(|s: String| s@) =~= self.0@.take(k + 1).map_values(
                |e: (Maintainer, Vec<Package>)| maintainer_line(e),
            ));
            k = k + 1;
        }
        assert(self.0@.take(k as int) =~= self.0@);
        join(&lines, "\n")
    }
}

} // verus!
