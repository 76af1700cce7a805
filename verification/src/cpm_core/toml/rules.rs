//! The contents of a `cpm.toml` project file.

use vstd::prelude::*;

verus! {

/// A dependency table as its pairs: (name, source), each by its characters.
pub type Pairs = Seq<(Seq<char>, Seq<char>)>;

/// No name stands twice among the pairs.
pub open spec fn unique_keys(s: Pairs) -> bool {
    forall|i: int, j: int|
        0 <= i < s.len() && 0 <= j < s.len() && i != j ==> #[trigger] s[i].0 != #[trigger] s[j].0
}

/// Some pair has the name `k`.
pub open spec fn has_key(s: Pairs, k: Seq<char>) -> bool {
    exists|i: int| 0 <= i < s.len() && #[trigger] s[i].0 == k
}

/// Some pair has the source `v`.
pub open spec fn has_value(s: Pairs, v: Seq<char>) -> bool {
    exists|i: int| 0 <= i < s.len() && #[trigger] s[i].1 == v
}

/// The table as a map from name to source.
pub open spec fn pairs_map(s: Pairs) -> Map<Seq<char>, Seq<char>> {
    Map::new(
        |k: Seq<char>| has_key(s, k),
        |k: Seq<char>| s[choose|i: int| 0 <= i < s.len() && #[trigger] s[i].0 == k].1,
    )
}

/// The map of the pairs read in order, a later pair of a name replacing an earlier one.
pub open spec fn fold_insert(s: Pairs) -> Map<Seq<char>, Seq<char>>
    decreases s.len(),
{
    if s.len() == 0 {
        Map::empty()
    } else {
        fold_insert(s.drop_last()).insert(s.last().0, s.last().1)
    }
}

/// `m` without the names whose source is `v`.
pub open spec fn without_value(m: Map<Seq<char>, Seq<char>>, v: Seq<char>) -> Map<
    Seq<char>,
    Seq<char>,
> {
    Map::new(|k: Seq<char>| m.dom().contains(k) && m[k] != v, |k: Seq<char>| m[k])
}

/// Pairs of strings, each by its characters.
pub open spec fn pairs_view(v: Seq<(String, String)>) -> Pairs {
    v.map_values(|p: (String, String)| (p.0@, p.1@))
}

/// The whole project file.
#[derive(Debug, Clone)]
pub struct TOMLRule {
    pub project: Project,
    pub build: Build,
    pub dependencies: Dependencies,
    pub dev_dependencies: Dependencies,
}

/// The `[project]` table.
#[derive(Debug, Clone)]
pub struct Project {
    pub name: String,
    pub version: String,
    pub description: String,
    pub authors: Vec<String>,
    pub license: String,
}

/// The `[build]` table.
#[derive(Debug, Clone)]
pub struct Build {
    pub output: String,
    pub compiler: String,
    pub flags: Vec<String>,
    pub system_libraries: Vec<String>,
}

/// A dependency table: pairs of package name and source URL.
#[derive(Debug, Clone)]
pub struct Dependencies {
    pub dependencies: Vec<(String, String)>,
}

impl Dependencies {
    /// The pairs, each by its characters.
    pub open spec fn entries(&self) -> Pairs {
        pairs_view(self.dependencies@)
    }

    /// Every name stands once, as in a map.
    pub open spec fn wf(&self) -> bool {
        unique_keys(self.entries())
    }
}

impl Dependencies {
    /// An empty table.
    pub fn new() -> (d: Self)
        ensures
            d.wf(),
            d.entries() == Seq::<(Seq<char>, Seq<char>)>::empty(),
            d@ == Map::<Seq<char>, Seq<char>>::empty(),
    {
        let d = Dependencies { dependencies: Vec::new() };
        assert(d.entries() =~= Seq::<(Seq<char>, Seq<char>)>::empty());
        assert(d@ =~= Map::<Seq<char>, Seq<char>>::empty());
        d
    }

    /// The index of the pair named `key`, if any.
    fn position(&self, key: &String) -> (r: Option<usize>)
        ensures
            r matches Some(i) ==> i < self.entries().len() && self.entries()[i as int].0 == key@,
            r is None ==> !has_key(self.entries(), key@),
    {
        let mut i: usize = 0;
        while i < self.dependencies.len()
            invariant
                i <= self.dependencies@.len(),
                forall|j: int| 0 <= j < i ==> #[trigger] self.entries()[j].0 != key@,
            decreases self.dependencies@.len() - i,
        {
            if self.dependencies[i].0 == *key {
                return Some(i);
            }
            i = i + 1;
        }
        None
    }

    /// Set the source of `key` to `value`: a name already present keeps its place,
    /// a new name goes last.
    pub fn insert(&mut self, key: &str, value: &str)
        requires
            old(self).wf(),
        ensures
            final(self).wf(),
            final(self)@ == old(self)@.insert(key@, value@),
            has_key(old(self).entries(), key@) ==> exists|i: int|
                0 <= i < old(self).entries().len() && old(self).entries()[i].0 == key@
                    && final(self).entries() == old(self).entries().update(i, (key@, value@)),
            !has_key(old(self).entries(), key@) ==> final(self).entries() == old(self).entries().push(
                (key@, value@),
            ),
    {
        let k = key.to_string();
        let v = value.to_string();
        let ghost s = self.entries();
        match self.position(&k) {
            Some(i) => {
                self.dependencies.set(i, (k, v));
                assert(self.entries() =~= s.update(i as int, (key@, value@)));
                proof {
                    lemma_pairs_update(s, i as int, value@);
                }
            },
            None => {
                self.dependencies.push((k, v));
                assert(self.entries() =~= s.push((key@, value@)));
                proof {
                    lemma_pairs_push(s, key@, value@);
                }
            },
        }
    }

    /// Remove the pair named `key`; tells whether there was one.
    pub fn remove_key(&mut self, key: &str) -> (removed: bool)
        requires
            old(self).wf(),
        ensures
            final(self).wf(),
            removed == old(self)@.dom().contains(key@),
            final(self)@ == old(self)@.remove(key@),
            !removed ==> *final(self) == *old(self),
    {
        let k = key.to_string();
        let ghost s = self.entries();
        match self.position(&k) {
            Some(i) => {
                self.dependencies.remove(i);
                assert(self.entries() =~= s.remove(i as int));
                proof {
                    lemma_pairs_remove(s, i as int);
                }
                true
            },
            None => {
                assert(old(self)@ =~= old(self)@.remove(key@));
                false
            },
        }
    }

    /// Remove every pair whose source is `value`; tells whether there was one.
    pub fn remove_value(&mut self, value: &str) -> (removed: bool)
        requires
            old(self).wf(),
        ensures
            final(self).wf(),
            removed == has_value(old(self).entries(), value@),
            final(self)@ == without_value(old(self)@, value@),
            !removed ==> *final(self) == *old(self),
    {
        let v = value.to_string();
        let ghost s0 = self.entries();
        let ghost m0 = self@;
        let ghost orig = *self;
        let mut removed = false;
        let mut i: usize = 0;
        while i < self.dependencies.len()
            invariant
                self.wf(),
                i <= self.entries().len(),
                v@ == value@,
                m0 == pairs_map(s0),
                unique_keys(s0),
                forall|k: Seq<char>| #[trigger]
                    self@.dom().contains(k) ==> m0.dom().contains(k) && self@[k] == m0[k],
                forall|k: Seq<char>| #[trigger]
                    m0.dom().contains(k) && m0[k] != value@ ==> self@.dom().contains(k),
                forall|j: int| 0 <= j < i ==> #[trigger] self.entries()[j].1 != value@,
                !removed ==> self.entries() == s0 && *self == orig,
                removed ==> has_value(s0, value@),
            decreases self.entries().len() - i,
        {
            let ghost s = self.entries();
            let ghost before = self@;
            assert(before == pairs_map(s));
            if self.dependencies[i].1 == v {
                proof {
                    lemma_pairs_remove(s, i as int);
                    lemma_pairs_map_at(s, i as int);
                    if !removed {
                        assert(s0[i as int].1 == value@);
                    }
                }
                self.dependencies.remove(i);
                assert(self.entries() =~= s.remove(i as int));
                assert(self@ == pairs_map(s).remove(s[i as int].0));
                assert forall|k: Seq<char>| #[trigger] self@.dom().contains(k) implies m0.dom().contains(
                    k,
                ) && self@[k] == m0[k] by {
                    assert(before.dom().contains(k));
                    assert(self@[k] == before[k]);
                }
                removed = true;
            } else {
                i = i + 1;
            }
        }
        proof {
            let s = self.entries();
            assert forall|k: Seq<char>| #[trigger] self@.dom().contains(k) implies self@[k] != value@ by {
                let a = choose|a: int| 0 <= a < s.len() && #[trigger] s[a].0 == k;
                lemma_pairs_map_at(s, a);
            }
            assert(self@ =~= without_value(m0, value@));
            if !removed {
                assert(!has_value(s0, value@)) by {
                    if has_value(s0, value@) {
                        let a = choose|a: int| 0 <= a < s0.len() && #[trigger] s0[a].1 == value@;
                        assert(s[a].1 != value@);
                    }
                }
            }
        }
        removed
    }

    /// A copy of the pairs, in table order.
    pub fn pairs(&self) -> (r: Vec<(String, String)>)
        ensures
            pairs_view(r@) == self.entries(),
    {
        let mut r: Vec<(String, String)> = Vec::new();
        let mut i: usize = 0;
        while i < self.dependencies.len()
            invariant
                i <= self.dependencies@.len(),
                pairs_view(r@) == self.entries().take(i as int),
            decreases self.dependencies@.len() - i,
        {
            let k = self.dependencies[i].0.clone();
            let v = self.dependencies[i].1.clone();
            let ghost before = r@;
            r.push((k, v));
            assert(r@ == before.push((k, v)));
            assert(k@ == self.entries()[i as int].0 && v@ == self.entries()[i as int].1);
            assert(pairs_view(r@) =~= pairs_view(before).push((k@, v@)));
            assert(self.entries().take(i + 1) =~= self.entries().take(i as int).push(
                self.entries()[i as int],
            ));
            i = i + 1;
            assert(pairs_view(r@) =~= self.entries().take(
                i as int,
            ));
        }
        assert(self.entries().take(i as int) =~= self.entries());
        r
    }

    /// A table built from `pairs` read in order, a later pair of a name replacing
    /// an earlier one.
    pub fn from_pairs(pairs: &Vec<(String, String)>) -> (d: Self)
        ensures
            d.wf(),
            d@ == fold_insert(pairs_view(pairs@)),
    {
        let ghost all = pairs_view(pairs@);
        let mut d = Dependencies::new();
        let mut i: usize = 0;
        while i < pairs.len()
            invariant
                i <= pairs@.len(),
                all == pairs_view(pairs@),
                d.wf(),
                d@ == fold_insert(all.take(i as int)),
            decreases pairs@.len() - i,
        {
            d.insert(pairs[i].0.as_str(), pairs[i].1.as_str());
            assert(all.take(i + 1).drop_last() =~= all.take(i as int));
            i = i + 1;
        }
        assert(all.take(i as int) =~= all);
        d
    }
}

impl View for Dependencies {
    type V = Map<Seq<char>, Seq<char>>;

    open spec fn view(&self) -> Map<Seq<char>, Seq<char>> {
        pairs_map(self.entries())
    }
}

/// In a table without repeated names, each pair gives the map's value of its name.
pub proof fn lemma_pairs_map_at(s: Pairs, i: int)
    requires
        unique_keys(s),
        0 <= i < s.len(),
    ensures
        pairs_map(s).dom().contains(s[i].0),
        pairs_map(s)[s[i].0] == s[i].1,
{
    let k = s[i].0;
    assert(has_key(s, k));
    let j = choose|j: int| 0 <= j < s.len() && #[trigger] s[j].0 == k;
    assert(j == i);
}

/// A table's map has finitely many names, and it has some name exactly when the
/// table has some pair.
pub proof fn lemma_pairs_map_finite(s: Pairs)
    ensures
        pairs_map(s).dom().finite(),
        pairs_map(s).len() == 0 <==> s.len() == 0,
    decreases s.len(),
{
    if s.len() == 0 {
        assert(pairs_map(s).dom() =~= Set::<Seq<char>>::empty());
    } else {
        let p = s.drop_last();
        lemma_pairs_map_finite(p);
        assert forall|k: Seq<char>| has_key(s, k) <==> (has_key(p, k) || k == s.last().0) by {
            if has_key(p, k) {
                let a = choose|a: int| 0 <= a < p.len() && #[trigger] p[a].0 == k;
                assert(s[a].0 == k);
            }
            if k == s.last().0 {
                assert(s[s.len() - 1].0 == k);
            }
            if has_key(s, k) && k != s.last().0 {
                let a = choose|a: int| 0 <= a < s.len() && #[trigger] s[a].0 == k;
                assert(p[a].0 == k);
            }
        }
        assert(pairs_map(s).dom() =~= pairs_map(p).dom().insert(s.last().0));
        assert(pairs_map(s).dom().contains(s.last().0));
        vstd::set_lib::lemma_set_empty_equivalency_len(pairs_map(s).dom());
    }
}

/// Replacing the source of an existing name updates the map at that name.
pub proof fn lemma_pairs_update(s: Pairs, i: int, v: Seq<char>)
    requires
        unique_keys(s),
        0 <= i < s.len(),
    ensures
        unique_keys(s.update(i, (s[i].0, v))),
        pairs_map(s.update(i, (s[i].0, v))) == pairs_map(s).insert(s[i].0, v),
{
    let k = s[i].0;
    let t = s.update(i, (k, v));
    assert(unique_keys(t)) by {
        assert forall|a: int, b: int|
            0 <= a < t.len() && 0 <= b < t.len() && a != b implies #[trigger] t[a].0
            != #[trigger] t[b].0 by {
            assert(t[a].0 == s[a].0 && t[b].0 == s[b].0);
        }
    }
    assert forall|key: Seq<char>| has_key(t, key) <==> has_key(s, key) by {
        if has_key(s, key) {
            let a = choose|a: int| 0 <= a < s.len() && #[trigger] s[a].0 == key;
            assert(t[a].0 == key);
        }
        if has_key(t, key) {
            let a = choose|a: int| 0 <= a < t.len() && #[trigger] t[a].0 == key;
            assert(s[a].0 == key);
        }
    }
    assert forall|key: Seq<char>| #[trigger] pairs_map(t).dom().contains(key) implies pairs_map(t)[key]
        == pairs_map(s).insert(k, v)[key] by {
        let a = choose|a: int| 0 <= a < t.len() && #[trigger] t[a].0 == key;
        lemma_pairs_map_at(t, a);
        lemma_pairs_map_at(s, a);
    }
    assert(pairs_map(t) =~= pairs_map(s).insert(k, v));
}

/// Appending a pair with a new name adds that name to the map.
pub proof fn lemma_pairs_push(s: Pairs, k: Seq<char>, v: Seq<char>)
    requires
        unique_keys(s),
        !has_key(s, k),
    ensures
        unique_keys(s.push((k, v))),
        pairs_map(s.push((k, v))) == pairs_map(s).insert(k, v),
{
    let t = s.push((k, v));
    assert(unique_keys(t)) by {
        assert forall|a: int, b: int|
            0 <= a < t.len() && 0 <= b < t.len() && a != b implies #[trigger] t[a].0
            != #[trigger] t[b].0 by {
            if a < s.len() && b < s.len() {
                assert(t[a].0 == s[a].0 && t[b].0 == s[b].0);
            } else if a < s.len() {
                assert(t[a].0 == s[a].0);
            } else {
                assert(t[b].0 == s[b].0);
            }
        }
    }
    assert forall|key: Seq<char>| has_key(t, key) <==> (has_key(s, key) || key == k) by {
        if has_key(s, key) {
            let a = choose|a: int| 0 <= a < s.len() && #[trigger] s[a].0 == key;
            assert(t[a].0 == key);
        }
        if key == k {
            assert(t[s.len() as int].0 == key);
        }
        if has_key(t, key) {
            let a = choose|a: int| 0 <= a < t.len() && #[trigger] t[a].0 == key;
            if a < s.len() {
                assert(s[a].0 == key);
            }
        }
    }
    assert forall|key: Seq<char>| #[trigger] pairs_map(t).dom().contains(key) implies pairs_map(t)[key]
        == pairs_map(s).insert(k, v)[key] by {
        let a = choose|a: int| 0 <= a < t.len() && #[trigger] t[a].0 == key;
        lemma_pairs_map_at(t, a);
        if a < s.len() {
            lemma_pairs_map_at(s, a);
        }
    }
    assert(pairs_map(t) =~= pairs_map(s).insert(k, v));
}

/// Removing the pair at `i` removes its name from the map.
pub proof fn lemma_pairs_remove(s: Pairs, i: int)
    requires
        unique_keys(s),
        0 <= i < s.len(),
    ensures
        unique_keys(s.remove(i)),
        pairs_map(s.remove(i)) == pairs_map(s).remove(s[i].0),
{
    let k = s[i].0;
    let t = s.remove(i);
    assert(unique_keys(t)) by {
        assert forall|a: int, b: int|
            0 <= a < t.len() && 0 <= b < t.len() && a != b implies #[trigger] t[a].0
            != #[trigger] t[b].0 by {
            let a2 = if a < i { a } else { a + 1 };
            let b2 = if b < i { b } else { b + 1 };
            assert(t[a].0 == s[a2].0 && t[b].0 == s[b2].0);
        }
    }
    assert forall|key: Seq<char>| has_key(t, key) <==> (has_key(s, key) && key != k) by {
        if has_key(s, key) && key != k {
            let a = choose|a: int| 0 <= a < s.len() && #[trigger] s[a].0 == key;
            if a < i {
                assert(t[a].0 == key);
            } else {
                assert(a != i);
                assert(t[a - 1].0 == key);
            }
        }
        if has_key(t, key) {
            let a = choose|a: int| 0 <= a < t.len() && #[trigger] t[a].0 == key;
            let a2 = if a < i { a } else { a + 1 };
            assert(s[a2].0 == key);
            assert(a2 != i);
        }
    }
    assert forall|key: Seq<char>| #[trigger] pairs_map(t).dom().contains(key) implies pairs_map(t)[key]
        == pairs_map(s).remove(k)[key] by {
        let a = choose|a: int| 0 <= a < t.len() && #[trigger] t[a].0 == key;
        let a2 = if a < i { a } else { a + 1 };
        assert(s[a2] == t[a]);
        lemma_pairs_map_at(t, a);
        lemma_pairs_map_at(s, a2);
    }
    assert(pairs_map(t) =~= pairs_map(s).remove(k));
}

/// In a table without repeated names, reading the pairs in order gives the table's map.
pub proof fn lemma_fold_insert_unique(s: Pairs)
    requires
        unique_keys(s),
    ensures
        fold_insert(s) == pairs_map(s),
    decreases s.len(),
{
    if s.len() == 0 {
        assert(pairs_map(s) =~= Map::empty());
    } else {
        let p = s.drop_last();
        assert(unique_keys(p)) by {
            assert forall|a: int, b: int|
                0 <= a < p.len() && 0 <= b < p.len() && a != b implies #[trigger] p[a].0
                != #[trigger] p[b].0 by {
                assert(p[a] == s[a] && p[b] == s[b]);
            }
        }
        lemma_fold_insert_unique(p);
        assert(!has_key(p, s.last().0)) by {
            if has_key(p, s.last().0) {
                let a = choose|a: int| 0 <= a < p.len() && #[trigger] p[a].0 == s.last().0;
                assert(s[a].0 == s[s.len() - 1].0);
            }
        }
        lemma_pairs_push(p, s.last().0, s.last().1);
        assert(p.push((s.last().0, s.last().1)) =~= s);
    }
}

/// The empty table's value of each field.
pub open spec fn is_empty_project(p: Project) -> bool {
    &&& p.name@ == Seq::<char>::empty()
    &&& p.version@ == Seq::<char>::empty()
    &&& p.description@ == Seq::<char>::empty()
    &&& p.authors@ == Seq::<String>::empty()
    &&& p.license@ == Seq::<char>::empty()
}

/// The empty table's value of each field.
pub open spec fn is_empty_build(b: Build) -> bool {
    &&& b.output@ == Seq::<char>::empty()
    &&& b.compiler@ == Seq::<char>::empty()
    &&& b.flags@ == Seq::<String>::empty()
    &&& b.system_libraries@ == Seq::<String>::empty()
}

/// A project file with every table empty.
pub open spec fn is_empty_rule(r: TOMLRule) -> bool {
    &&& is_empty_project(r.project)
    &&& is_empty_build(r.build)
    &&& r.dependencies.dependencies@ == Seq::<(String, String)>::empty()
    &&& r.dev_dependencies.dependencies@ == Seq::<(String, String)>::empty()
}

impl Default for Project {
    fn default() -> (p: Self)
        ensures
            is_empty_project(p),
    {
        Project {
            name: String::new(),
            version: String::new(),
            description: String::new(),
            authors: Vec::new(),
            license: String::new(),
        }
    }
}

impl Default for Build {
    fn default() -> (b: Self)
        ensures
            is_empty_build(b),
    {
        Build {
            output: String::new(),
            compiler: String::new(),
            flags: Vec::new(),
            system_libraries: Vec::new(),
        }
    }
}

impl Default for Dependencies {
    fn default() -> (d: Self)
        ensures
            d.dependencies@ == Seq::<(String, String)>::empty(),
    {
        Dependencies { dependencies: Vec::new() }
    }
}

impl Default for TOMLRule {
    fn default() -> (r: Self)
        ensures
            is_empty_rule(r),
    {
        TOMLRule {
            project: Project::default(),
            build: Build::default(),
            dependencies: Dependencies::default(),
            dev_dependencies: Dependencies::default(),
        }
    }
}

} // verus!
