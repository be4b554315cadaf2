use vstd::prelude::*;

use crate::status::PluginStatus;

verus! {

/// What the panel knows of a plugin offered by the registry or installed locally.
pub struct PluginDescription {
    pub name: String,
    pub display_name: String,
    pub description: String,
    pub author: String,
    pub version: String,
    /// The plugin's wasm module, where it has one; only such plugins can be
    /// enabled or disabled.
    pub wasm: Option<String>,
}

/// One plugin name with its version.
struct VersionEntry {
    name: String,
    version: String,
}

/// A table from plugin names to versions, each name at most once.
pub struct PluginVersions {
    entries: Vec<VersionEntry>,
}

spec fn distinct_names(entries: Seq<VersionEntry>) -> bool {
    forall|i: int, j: int|
        0 <= i < j < entries.len() ==> #[trigger] entries[i].name@ != #[trigger] entries[j].name@
}

impl View for PluginVersions {
    type V = Map<Seq<char>, Seq<char>>;

    /// The table as a map from plugin names to versions.
    closed spec fn view(&self) -> Map<Seq<char>, Seq<char>> {
        Map::new(
            |name: Seq<char>| exists|i: int| self.holds_at(name, i),
            |name: Seq<char>| self.entries@[choose|i: int| self.holds_at(name, i)].version@,
        )
    }
}

impl PluginVersions {
    #[verifier::type_invariant]
    spec fn names_distinct(self) -> bool {
        distinct_names(self.entries@)
    }

    spec fn holds_at(self, name: Seq<char>, i: int) -> bool {
        0 <= i < self.entries@.len() && self.entries@[i].name@ == name
    }

    proof fn lemma_entry(self, i: int)
        requires
            self.names_distinct(),
            0 <= i < self.entries@.len(),
        ensures
            self.view().dom().contains(self.entries@[i].name@),
            self.view()[self.entries@[i].name@] == self.entries@[i].version@,
    {
        let name = self.entries@[i].name@;
        assert(self.holds_at(name, i));
        let j = choose|j: int| self.holds_at(name, j);
        if j < i {
            assert(self.entries@[j].name@ != self.entries@[i].name@);
        } else if i < j {
            assert(self.entries@[i].name@ != self.entries@[j].name@);
        }
    }

    /// An empty table.
    pub fn new() -> (table: Self)
        ensures
            table@ == Map::<Seq<char>, Seq<char>>::empty(),
    {
        let table = PluginVersions { entries: Vec::new() };
        assert(table@ =~= Map::<Seq<char>, Seq<char>>::empty());
        table
    }

    /// The number of plugins in the table.
    pub fn len(&self) -> (n: usize)
        ensures
            n == self@.len(),
    {
        proof {
            use_type_invariant(self);
            self.lemma_len();
        }
        self.entries.len()
    }

    proof fn lemma_len(self)
        requires
            self.names_distinct(),
        ensures
            self.view().dom().finite(),
            self.view().len() == self.entries@.len(),
        decreases self.entries@.len(),
    {
        let names = self.entries@.map_values(|e: VersionEntry| e.name@);
        assert forall|k: Seq<char>| self.view().dom().contains(k) <==> names.contains(k) by {
            if self.view().dom().contains(k) {
                let i = choose|i: int| self.holds_at(k, i);
                assert(names[i] == k);
            }
            if names.contains(k) {
                let i = choose|i: int| 0 <= i < names.len() && names[i] == k;
                assert(self.holds_at(k, i));
            }
        }
        assert(self.view().dom() =~= names.to_set());
        assert(names.no_duplicates()) by {
            assert forall|i: int, j: int| 0 <= i < names.len() && 0 <= j < names.len() && i != j
                implies names[i] != names[j] by {
                if i < j {
                    assert(self.entries@[i].name@ != self.entries@[j].name@);
                } else {
                    assert(self.entries@[j].name@ != self.entries@[i].name@);
                }
            }
        }
        names.unique_seq_to_set();
    }

    /// Where the table holds `name`, its position among the entries.
    fn position(&self, name: &String) -> (pos: Option<usize>)
        ensures
            match pos {
                Some(i) => self.holds_at(name@, i as int),
                None => !self@.dom().contains(name@),
            },
    {
        let n = self.entries.len();
        let mut i: usize = 0;
        while i < n
            invariant
                n == self.entries@.len(),
                i <= n,
                forall|j: int| 0 <= j < i ==> self.entries@[j].name@ != name@,
            decreases n - i,
        {
            if self.entries[i].name == *name {
                return Some(i);
            }
            i = i + 1;
        }
        None
    }

    /// The version recorded for `name`, if the table holds it.
    pub fn get(&self, name: &String) -> (version: Option<&String>)
        ensures
            match version {
                Some(v) => self@.dom().contains(name@) && v@ == self@[name@],
                None => !self@.dom().contains(name@),
            },
    {
        proof {
            use_type_invariant(self);
        }
        match self.position(name) {
            Some(i) => {
                proof {
                    self.lemma_entry(i as int);
                }
                Some(&self.entries[i].version)
            },
            None => None,
        }
    }

    /// Whether the table holds `name`.
    pub fn contains_key(&self, name: &String) -> (found: bool)
        ensures
            found == self@.dom().contains(name@),
    {
        match self.position(name) {
            Some(_) => true,
            None => false,
        }
    }

    /// Records `version` for `name`, replacing what the table held for it.
    pub fn insert(&mut self, name: String, version: String)
        ensures
            final(self)@ == old(self)@.insert(name@, version@),
    {
        proof {
            use_type_invariant(&*self);
        }
        let ghost before = *self;
        match self.position(&name) {
            Some(i) => {
                let ghost key = name@;
                let ghost value = version@;
                let mut entries = Vec::new();
                std::mem::swap(&mut entries, &mut self.entries);
                entries.set(i, VersionEntry { name, version });
                proof {
                    assert forall|a: int, b: int|
                        0 <= a < b < entries@.len() implies #[trigger] entries@[a].name@
                            != #[trigger] entries@[b].name@ by {
                        assert(before.entries@[a].name@ != before.entries@[b].name@);
                    }
                }
                self.entries = entries;
                proof {
                    self.lemma_insert_at(before, i as int, key, value);
                }
            },
            None => {
                let ghost key = name@;
                let ghost value = version@;
                let mut entries = Vec::new();
                std::mem::swap(&mut entries, &mut self.entries);
                entries.push(VersionEntry { name, version });
                proof {
                    assert forall|a: int, b: int|
                        0 <= a < b < entries@.len() implies #[trigger] entries@[a].name@
                            != #[trigger] entries@[b].name@ by {
                        if b < before.entries@.len() {
                            assert(before.entries@[a].name@ != before.entries@[b].name@);
                        } else {
                            assert(before.holds_at(entries@[a].name@, a));
                        }
                    }
                }
                self.entries = entries;
                proof {
                    self.lemma_insert_at(before, before.entries@.len() as int, key, value);
                }
            },
        }
    }

    proof fn lemma_insert_at(self, before: Self, i: int, key: Seq<char>, value: Seq<char>)
        requires
            before.names_distinct(),
            self.names_distinct(),
            0 <= i <= before.entries@.len(),
            i < before.entries@.len() ==> before.holds_at(key, i),
            i == before.entries@.len() ==> !before.view().dom().contains(key),
            self.entries@.len() == if i < before.entries@.len() {
                before.entries@.len()
            } else {
                before.entries@.len() + 1
            },
            self.entries@[i].name@ == key,
            self.entries@[i].version@ == value,
            forall|j: int|
                0 <= j < before.entries@.len() && j != i ==> #[trigger] self.entries@[j]
                    == before.entries@[j],
        ensures
            self.view() == before.view().insert(key, value),
    {
        assert forall|k: Seq<char>| #[trigger]
            self.view().dom().contains(k) == before.view().insert(key, value).dom().contains(k) by {
            if self.view().dom().contains(k) {
                let j = choose|j: int| self.holds_at(k, j);
                if j != i {
                    assert(before.holds_at(k, j));
                }
            }
            if before.view().dom().contains(k) && k != key {
                let j = choose|j: int| before.holds_at(k, j);
                assert(self.holds_at(k, j));
            }
            if k == key {
                assert(self.holds_at(k, i));
            }
        }
        assert forall|k: Seq<char>| #[trigger]
            self.view().dom().contains(k) implies self.view()[k] == before.view().insert(
                key,
                value,
            )[k] by {
            let j = choose|j: int| self.holds_at(k, j);
            self.lemma_entry(j);
            if j != i {
                before.lemma_entry(j);
            }
        }
        assert(self.view() =~= before.view().insert(key, value));
    }
}

/// Where a list of plugin descriptions stands: still coming, failed, or here.
pub enum PluginLoadingStatus {
    Loading,
    Failed,
    Loaded(Vec<PluginDescription>),
}

/// The rule by which a plugin of a listing is given its status: a disabled
/// plugin is `Disabled` whatever else holds; otherwise it is `Installed` where
/// the same version is installed, `Upgrade` where another version is, and
/// `Install` where none is.
pub open spec fn status_rule(
    installed: Map<Seq<char>, Seq<char>>,
    disabled: Map<Seq<char>, Seq<char>>,
    name: Seq<char>,
    version: Seq<char>,
) -> PluginStatus {
    if disabled.dom().contains(name) {
        PluginStatus::Disabled
    } else if installed.dom().contains(name) {
        if installed[name] == version {
            PluginStatus::Installed
        } else {
            PluginStatus::Upgrade
        }
    } else {
        PluginStatus::Install
    }
}

/// The part of the editor's state that the plugin panel reads: the two
/// listings it shows, and which plugins are installed and which disabled.
pub struct PluginCatalog {
    pub installed_plugins_desc: PluginLoadingStatus,
    pub uninstalled_plugins_desc: PluginLoadingStatus,
    pub installed_plugins: PluginVersions,
    pub disabled_plugins: PluginVersions,
}

impl PluginCatalog {
    /// The listing that a panel shows: that of the installed plugins, or that
    /// of the plugins not installed.
    pub open spec fn spec_listing(&self, installed: bool) -> &PluginLoadingStatus {
        if installed {
            &self.installed_plugins_desc
        } else {
            &self.uninstalled_plugins_desc
        }
    }

    /// The listing that a panel shows: that of the installed plugins, or that
    /// of the plugins not installed.
    #[verifier::when_used_as_spec(spec_listing)]
    pub fn listing(&self, installed: bool) -> (listing: &PluginLoadingStatus)
        ensures
            listing == self.spec_listing(installed),
            installed ==> listing == &self.installed_plugins_desc,
            !installed ==> listing == &self.uninstalled_plugins_desc,
    {
        if installed {
            &self.installed_plugins_desc
        } else {
            &self.uninstalled_plugins_desc
        }
    }

    /// The status of `plugin` against what is installed and disabled.
    pub open spec fn spec_status_of(&self, plugin: &PluginDescription) -> PluginStatus {
        status_rule(
            self.installed_plugins@,
            self.disabled_plugins@,
            plugin.name@,
            plugin.version@,
        )
    }

    /// The status of `plugin` against what is installed and disabled.
    pub fn status_of(&self, plugin: &PluginDescription) -> (status: PluginStatus)
        ensures
            status == self.spec_status_of(plugin),
            self.disabled_plugins@.dom().contains(plugin.name@) ==> status
                == PluginStatus::Disabled,
            !self.disabled_plugins@.dom().contains(plugin.name@)
                && !self.installed_plugins@.dom().contains(plugin.name@) ==> status
                == PluginStatus::Install,
            !self.disabled_plugins@.dom().contains(plugin.name@)
                && self.installed_plugins@.dom().contains(plugin.name@) ==> (status
                == PluginStatus::Installed) == (self.installed_plugins@[plugin.name@]
                == plugin.version@),
            !self.disabled_plugins@.dom().contains(plugin.name@)
                && self.installed_plugins@.dom().contains(plugin.name@)
                && self.installed_plugins@[plugin.name@] != plugin.version@ ==> status
                == PluginStatus::Upgrade,
    {
        let mut status = match self.installed_plugins.get(&plugin.name) {
            Some(installed) => if *installed == plugin.version {
                PluginStatus::Installed
            } else {
                PluginStatus::Upgrade
            },
            None => PluginStatus::Install,
        };
        if self.disabled_plugins.contains_key(&plugin.name) {
            status = PluginStatus::Disabled;
        }
        status
    }

    /// The plugin shown in row `row` of a panel, where the listing has loaded
    /// and has that many rows.
    pub fn plugin_at(&self, installed: bool, row: usize) -> (plugin: Option<&PluginDescription>)
        ensures
            match self.spec_listing(installed) {
                PluginLoadingStatus::Loaded(plugins) => if row < plugins@.len() {
                    plugin == Some(&plugins@[row as int])
                } else {
                    plugin is None
                },
                _ => plugin is None,
            },
            !installed && !(self.uninstalled_plugins_desc is Loaded) ==> plugin is None,
            installed && !(self.installed_plugins_desc is Loaded) ==> plugin is None,
            plugin matches Some(p) ==> (if installed {
                self.installed_plugins_desc
            } else {
                self.uninstalled_plugins_desc
            }) matches PluginLoadingStatus::Loaded(ps) && row < ps@.len() && *p == ps@[row as int],
    {
        match self.listing(installed) {
            PluginLoadingStatus::Loaded(plugins) => if row < plugins.len() {
                Some(&plugins[row])
            } else {
                None
            },
            _ => None,
        }
    }

    /// The plugin shown in row `row` of a panel, with its status, where there
    /// is one.
    pub fn row_status(&self, installed: bool, row: usize) -> (hit: Option<
        (&PluginDescription, PluginStatus),
    >)
        ensures
            match self.spec_listing(installed) {
                PluginLoadingStatus::Loaded(plugins) => if row < plugins@.len() {
                    hit == Some(
                        (&plugins@[row as int], self.spec_status_of(&plugins@[row as int])),
                    )
                } else {
                    hit is None
                },
                _ => hit is None,
            },
            !installed && !(self.uninstalled_plugins_desc is Loaded) ==> hit is None,
            installed && !(self.installed_plugins_desc is Loaded) ==> hit is None,
    {
        match self.plugin_at(installed, row) {
            Some(plugin) => Some((plugin, self.status_of(plugin))),
            None => None,
        }
    }
}

} // verus!
