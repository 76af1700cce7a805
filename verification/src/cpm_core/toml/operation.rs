//! The project file held in memory: reading its values and editing its dependency tables.

use vstd::prelude::*;
use crate::cpm_core::toml::rules::{
    fold_insert, has_value, is_empty_rule, lemma_pairs_map_at, pairs_view, unique_keys,
    without_value, Dependencies, TOMLRule, Pairs,
};
use crate::utils::path::operation::{expand_home, is_home_expansion};
use crate::utils::text::{join, join_strings, push_str, strings_view, copy_strings};

verus! {

/// The dotted name that `get` looks up: `key`, a dot, then `value`.
pub open spec fn query_key(key: Seq<char>, value: Seq<char>) -> Seq<char> {
    key + seq!['.'] + value
}

/// The dotted names that `get` knows.
pub open spec fn is_known_key(q: Seq<char>) -> bool {
    ||| q == "project.name"@
    ||| q == "project.version"@
    ||| q == "project.description"@
    ||| q == "project.authors"@
    ||| q == "project.license"@
    ||| q == "build.output"@
    ||| q == "build.compiler"@
    ||| q == "build.flags"@
}

/// The value of a known dotted name in the project file: the field's text, the
/// authors joined with `", "`, or the flags joined with `","`.
pub open spec fn lookup(r: TOMLRule, q: Seq<char>) -> Seq<char> {
    if q == "project.name"@ {
        r.project.name@
    } else if q == "project.version"@ {
        r.project.version@
    } else if q == "project.description"@ {
        r.project.description@
    } else if q == "project.authors"@ {
        join(strings_view(r.project.authors@), ", "@)
    } else if q == "project.license"@ {
        r.project.license@
    } else if q == "build.output"@ {
        r.build.output@
    } else if q == "build.compiler"@ {
        r.build.compiler@
    } else {
        join(strings_view(r.build.flags@), ","@)
    }
}

/// A dependency can be removed by `id`: as a name, or as the source of some name.
pub open spec fn removable(m: Map<Seq<char>, Seq<char>>, id: Seq<char>) -> bool {
    m.dom().contains(id) || m.contains_value(id)
}

/// The table after removing `id`: the name `id` where there is one, else every name
/// whose source is `id`.
pub open spec fn after_removal(m: Map<Seq<char>, Seq<char>>, id: Seq<char>) -> Map<
    Seq<char>,
    Seq<char>,
> {
    if m.dom().contains(id) {
        m.remove(id)
    } else {
        without_value(m, id)
    }
}

/// In a table without repeated names, a source stands among the pairs exactly when
/// the map holds it.
pub proof fn lemma_has_value_map(s: Pairs, v: Seq<char>)
    requires
        unique_keys(s),
    ensures
        has_value(s, v) <==> crate::cpm_core::toml::rules::pairs_map(s).contains_value(v),
{
    let m = crate::cpm_core::toml::rules::pairs_map(s);
    if has_value(s, v) {
        let a = choose|a: int| 0 <= a < s.len() && #[trigger] s[a].1 == v;
        lemma_pairs_map_at(s, a);
        assert(m.dom().contains(s[a].0) && m[s[a].0] == v);
    }
    if m.contains_value(v) {
        let k = choose|k: Seq<char>| #[trigger] m.dom().contains(k) && m[k] == v;
        let a = choose|a: int| 0 <= a < s.len() && #[trigger] s[a].0 == k;
        lemma_pairs_map_at(s, a);
        assert(s[a].1 == v);
    }
}

/// Adding a dependency whose name is new and then removing it by that name gives
/// back the table as it was.
pub proof fn lemma_remove_undoes_add(
    m: Map<Seq<char>, Seq<char>>,
    name: Seq<char>,
    source: Seq<char>,
)
    requires
        !m.dom().contains(name),
    ensures
        removable(m.insert(name, source), name),
        after_removal(m.insert(name, source), name) == m,
{
    assert(m.insert(name, source).remove(name) =~= m);
}

/// Adding a dependency under a name already present replaces its source: the name
/// stands once, with the new source, and every other name keeps its source.
pub proof fn lemma_readd_replaces(
    m: Map<Seq<char>, Seq<char>>,
    name: Seq<char>,
    first: Seq<char>,
    second: Seq<char>,
)
    ensures
        m.insert(name, first).insert(name, second) == m.insert(name, second),
{
    assert(m.insert(name, first).insert(name, second) =~= m.insert(name, second));
}

/// Removing by a source that no name has but some names have as source removes
/// exactly those names.
pub proof fn lemma_remove_by_source(m: Map<Seq<char>, Seq<char>>, source: Seq<char>)
    requires
        !m.dom().contains(source),
        m.contains_value(source),
    ensures
        removable(m, source),
        forall|k: Seq<char>|
            #[trigger] after_removal(m, source).dom().contains(k) <==> (m.dom().contains(k)
                && m[k] != source),
        forall|k: Seq<char>|
            #[trigger] after_removal(m, source).dom().contains(k) ==> after_removal(m, source)[k]
                == m[k],
{
}

/// `save` writes exactly when a table changed since the file was opened or last
/// saved. A run of steps starts from a state with no pending change (what `new`,
/// `load` on it, and `save` leave); each step either leaves the pending flag as it
/// was or sets it, and sets it exactly where it changed a table (`changed[i]`), as
/// the `ensures` of `add_*`, `remove_*`, `try_remove_*`, `record_dependency`,
/// `remove_from_config` and `clear_config` say. Then the flag that the next `save`
/// returns is set exactly when some step changed a table; and since `save` clears
/// it, a save right after a save writes nothing.
pub proof fn lemma_save_writes_exactly_after_change(
    states: Seq<OperationToml>,
    changed: Seq<bool>,
)
    requires
        states.len() == changed.len() + 1,
        !states[0].pending(),
        forall|i: int|
            0 <= i < changed.len() ==> #[trigger] states[i + 1].pending() == (states[i].pending()
                || changed[i]),
    ensures
        states.last().pending() <==> changed.contains(true),
    decreases changed.len(),
{
    if changed.len() > 0 {
        let n = changed.len() - 1;
        lemma_save_writes_exactly_after_change(states.drop_last(), changed.drop_last());
        assert(states.drop_last().last() == states[n]);
        assert(states[n + 1].pending() == (states[n].pending() || changed[n]));
        if changed.drop_last().contains(true) {
            let j = choose|j: int| 0 <= j < changed.drop_last().len() && changed.drop_last()[j] == true;
            assert(changed[j] == true);
        }
        if changed.contains(true) && !changed[n] {
            let j = choose|j: int| 0 <= j < changed.len() && changed[j] == true;
            assert(changed.drop_last()[j] == true);
        }
        if changed[n] {
            assert(changed[n] == true);
        }
    }
}

/// The list of a table holds every dependency once, and as a map it is the table;
/// loading that list back gives the same table.
pub proof fn lemma_list_is_table(pairs: Seq<(String, String)>, table: Dependencies)
    requires
        table.wf(),
        pairs_view(pairs) == table.entries(),
    ensures
        unique_keys(pairs_view(pairs)),
        crate::cpm_core::toml::rules::pairs_map(pairs_view(pairs)) == table@,
        fold_insert(pairs_view(pairs)) == table@,
{
    crate::cpm_core::toml::rules::lemma_fold_insert_unique(pairs_view(pairs));
}

/// The project file of `path`, with the changes not yet written back.
pub struct OperationToml {
    rules: TOMLRule,
    path: String,
    needs_save: bool,
}

impl OperationToml {
    /// The project file's contents.
    pub closed spec fn config(&self) -> TOMLRule {
        self.rules
    }

    /// Where the project file lives (home directory expanded).
    pub closed spec fn location(&self) -> Seq<char> {
        self.path@
    }

    /// Whether there are changes not yet written back.
    pub closed spec fn pending(&self) -> bool {
        self.needs_save
    }

    /// Both dependency tables hold each name once.
    pub open spec fn wf(&self) -> bool {
        &&& self.config().dependencies.wf()
        &&& self.config().dev_dependencies.wf()
    }

    /// The `[dependencies]` table.
    pub open spec fn deps(&self) -> Map<Seq<char>, Seq<char>> {
        self.config().dependencies@
    }

    /// The `[dev_dependencies]` table.
    pub open spec fn dev_deps(&self) -> Map<Seq<char>, Seq<char>> {
        self.config().dev_dependencies@
    }

    /// Create the project file of `path` (a leading `~` expanded to the home
    /// directory) with every table empty. Where the file exists, its contents are
    /// given to `load`.
    pub fn new(path: &str) -> (r: Self)
        ensures
            r.wf(),
            is_empty_rule(r.config()),
            is_home_expansion(path@, r.location()),
            !r.pending(),
    {
        let rules = TOMLRule::default();
        let r = OperationToml { rules, path: expand_home(path), needs_save: false };
        assert(r.config().dependencies.entries() =~= Seq::<(Seq<char>, Seq<char>)>::empty());
        assert(r.config().dev_dependencies.entries() =~= Seq::<(Seq<char>, Seq<char>)>::empty());
        r
    }

    /// Take the contents read from the project file. Where a name stands twice in a
    /// table, its last source is kept.
    pub fn load(&mut self, rules: TOMLRule)
        ensures
            final(self).wf(),
            final(self).config().project == rules.project,
            final(self).config().build == rules.build,
            final(self).deps() == fold_insert(rules.dependencies.entries()),
            final(self).dev_deps() == fold_insert(rules.dev_dependencies.entries()),
            final(self).location() == old(self).location(),
            final(self).pending() == old(self).pending(),
    {
        let deps = Dependencies::from_pairs(&rules.dependencies.dependencies);
        let dev = Dependencies::from_pairs(&rules.dev_dependencies.dependencies);
        self.rules = TOMLRule {
            project: rules.project,
            build: rules.build,
            dependencies: deps,
            dev_dependencies: dev,
        };
    }

    /// Where the project file lives.
    pub fn path(&self) -> (p: &str)
        ensures
            p@ == self.location(),
    {
        self.path.as_str()
    }

    /// The project file's contents.
    pub fn get_rules(&self) -> (r: &TOMLRule)
        ensures
            *r == self.config(),
    {
        &self.rules
    }

    /// Get the value of the dotted name `key.value` from the project file.
    pub fn get(&self, key: &str, value: &str) -> (r: String)
        requires
            is_known_key(query_key(key@, value@)),
        ensures
            r@ == lookup(self.config(), query_key(key@, value@)),
    {
        let mut q = String::new();
        push_str(&mut q, key);
        q.push('.');
        push_str(&mut q, value);
        assert(q@ == query_key(key@, value@));
        if q == "project.name".to_string() {
            self.rules.project.name.clone()
        } else if q == "project.version".to_string() {
            self.rules.project.version.clone()
        } else if q == "project.description".to_string() {
            self.rules.project.description.clone()
        } else if q == "project.authors".to_string() {
            join_strings(&self.rules.project.authors, ", ")
        } else if q == "project.license".to_string() {
            self.rules.project.license.clone()
        } else if q == "build.output".to_string() {
            self.rules.build.output.clone()
        } else if q == "build.compiler".to_string() {
            self.rules.build.compiler.clone()
        } else {
            join_strings(&self.rules.build.flags, ",")
        }
    }

    /// Get the compiler flags from the project file.
    pub fn get_flags(&self) -> (flags: Vec<String>)
        ensures
            flags@ == self.config().build.flags@,
    {
        copy_strings(&self.rules.build.flags)
    }

    /// Get the system libraries from the project file.
    pub fn get_system_libraries(&self) -> (libs: Vec<String>)
        ensures
            libs@ == self.config().build.system_libraries@,
    {
        copy_strings(&self.rules.build.system_libraries)
    }

    /// Mark the changes as written back; tells whether there were any, that is,
    /// whether the contents must now be written to the project file.
    pub fn save(&mut self) -> (write: bool)
        ensures
            write == old(self).pending(),
            !final(self).pending(),
            final(self).config() == old(self).config(),
            final(self).location() == old(self).location(),
    {
        let write = self.needs_save;
        self.needs_save = false;
        write
    }

    /// Add a dependency to the project file (replacing the source of a name already there).
    pub fn add_dependency(&mut self, name: &str, version: &str)
        requires
            old(self).wf(),
        ensures
            final(self).wf(),
            final(self).deps() == old(self).deps().insert(name@, version@),
            final(self).config().dev_dependencies == old(self).config().dev_dependencies,
            final(self).config().project == old(self).config().project,
            final(self).config().build == old(self).config().build,
            final(self).location() == old(self).location(),
            final(self).pending(),
    {
        self.rules.dependencies.insert(name, version);
        self.needs_save = true;
    }

    /// Add a development dependency to the project file (replacing the source of a
    /// name already there).
    pub fn add_dev_dependency(&mut self, name: &str, version: &str)
        requires
            old(self).wf(),
        ensures
            final(self).wf(),
            final(self).dev_deps() == old(self).dev_deps().insert(name@, version@),
            final(self).config().dependencies == old(self).config().dependencies,
            final(self).config().project == old(self).config().project,
            final(self).config().build == old(self).config().build,
            final(self).location() == old(self).location(),
            final(self).pending(),
    {
        self.rules.dev_dependencies.insert(name, version);
        self.needs_save = true;
    }

    /// Remove a dependency by name or, where no name matches, every dependency whose
    /// source is `identifier`; tells whether anything matched. Where nothing matched,
    /// nothing changes.
    pub fn try_remove_dependency(&mut self, identifier: &str) -> (removed: bool)
        requires
            old(self).wf(),
        ensures
            final(self).wf(),
            removed == removable(old(self).deps(), identifier@),
            removed ==> final(self).deps() == after_removal(old(self).deps(), identifier@)
                && final(self).pending(),
            !removed ==> *final(self) == *old(self),
            final(self).config().dev_dependencies == old(self).config().dev_dependencies,
            final(self).config().project == old(self).config().project,
            final(self).config().build == old(self).config().build,
            final(self).location() == old(self).location(),
    {
        proof {
            lemma_has_value_map(self.rules.dependencies.entries(), identifier@);
        }
        if self.rules.dependencies.remove_key(identifier) {
            self.needs_save = true;
            return true;
        }
        if self.rules.dependencies.remove_value(identifier) {
            self.needs_save = true;
            return true;
        }
        false
    }

    /// Remove a development dependency by name or, where no name matches, every
    /// development dependency whose source is `identifier`; tells whether anything
    /// matched. Where nothing matched, nothing changes.
    pub fn try_remove_dev_dependency(&mut self, identifier: &str) -> (removed: bool)
        requires
            old(self).wf(),
        ensures
            final(self).wf(),
            removed == removable(old(self).dev_deps(), identifier@),
            removed ==> final(self).dev_deps() == after_removal(old(self).dev_deps(), identifier@)
                && final(self).pending(),
            !removed ==> *final(self) == *old(self),
            final(self).config().dependencies == old(self).config().dependencies,
            final(self).config().project == old(self).config().project,
            final(self).config().build == old(self).config().build,
            final(self).location() == old(self).location(),
    {
        proof {
            lemma_has_value_map(self.rules.dev_dependencies.entries(), identifier@);
        }
        if self.rules.dev_dependencies.remove_key(identifier) {
            self.needs_save = true;
            return true;
        }
        if self.rules.dev_dependencies.remove_value(identifier) {
            self.needs_save = true;
            return true;
        }
        false
    }

    /// Remove a dependency by name or, where no name matches, every dependency whose
    /// source is `identifier`.
    pub fn remove_dependency(&mut self, identifier: &str)
        requires
            old(self).wf(),
            removable(old(self).deps(), identifier@),
        ensures
            final(self).wf(),
            final(self).deps() == after_removal(old(self).deps(), identifier@),
            final(self).config().dev_dependencies == old(self).config().dev_dependencies,
            final(self).config().project == old(self).config().project,
            final(self).config().build == old(self).config().build,
            final(self).location() == old(self).location(),
            final(self).pending(),
    {
        self.try_remove_dependency(identifier);
    }

    /// Remove a development dependency by name or, where no name matches, every
    /// development dependency whose source is `identifier`.
    pub fn remove_dev_dependency(&mut self, identifier: &str)
        requires
            old(self).wf(),
            removable(old(self).dev_deps(), identifier@),
        ensures
            final(self).wf(),
            final(self).dev_deps() == after_removal(old(self).dev_deps(), identifier@),
            final(self).config().dependencies == old(self).config().dependencies,
            final(self).config().project == old(self).config().project,
            final(self).config().build == old(self).config().build,
            final(self).location() == old(self).location(),
            final(self).pending(),
    {
        self.try_remove_dev_dependency(identifier);
    }

    /// List the dependencies (development ones where `is_dev`) as (name, source) pairs.
    pub fn list(&self, is_dev: bool) -> (pairs: Vec<(String, String)>)
        ensures
            is_dev ==> pairs_view(pairs@) == self.config().dev_dependencies.entries(),
            !is_dev ==> pairs_view(pairs@) == self.config().dependencies.entries(),
    {
        if is_dev {
            self.rules.dev_dependencies.pairs()
        } else {
            self.rules.dependencies.pairs()
        }
    }
}

} // verus!
