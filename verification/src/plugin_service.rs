//! The plugin store and the installation pipeline.
//!
//! Installation is split around the embedding program's I/O:
//! [`PluginService::install_begin`] validates the request (name
//! uniqueness, entry-point safety, parameter rules) before any fetch
//! happens and hands back the candidate record; the embedding program
//! then fetches the package, extracts it with a screened plan
//! ([`crate::archive::PackageArchive::plan_extraction`]) and checks
//! that the entry-point file exists; [`PluginService::install_finish`] re-screens the
//! candidate and either persists it or persists nothing at all.

use vstd::prelude::*;

use crate::errors::AppError;
use crate::ids::new_uuid;
use crate::params::{params_view, params_wf, validate_parameters, PluginParameter};
use crate::plugin::{clone_plugin, wf_plugin, Plugin, PluginType, PluginV};
use crate::textspec::{
    join_path, join_path_exec, str_has_parent_component, str_has_prefix, str_is_absolute,
    str_is_blank, valid_entry_point,
};
use crate::timefmt::now_timestamp;

verus! {

broadcast use vstd::string::group_string_axioms;

/// Some stored plugin carries this name.
pub open spec fn has_plugin_name(s: Seq<PluginV>, name: Seq<char>) -> bool {
    exists|i: int| 0 <= i < s.len() && (#[trigger] s[i]).name == name
}

/// Some stored plugin carries this identifier.
pub open spec fn has_plugin_id(s: Seq<PluginV>, id: Seq<char>) -> bool {
    exists|i: int| 0 <= i < s.len() && (#[trigger] s[i]).id == id
}

/// The position of the plugin with this identifier (meaningful when
/// [`has_plugin_id`] holds and identifiers are unique).
pub open spec fn plugin_index_of(s: Seq<PluginV>, id: Seq<char>) -> int {
    choose|i: int| 0 <= i < s.len() && (#[trigger] s[i]).id == id
}

/// The stored plugin with this identifier, if any.
pub open spec fn find_plugin(s: Seq<PluginV>, id: Seq<char>) -> Option<PluginV> {
    if has_plugin_id(s, id) {
        Some(s[plugin_index_of(s, id)])
    } else {
        None
    }
}

/// The store after flipping one record's enabled flag at time `t`.
pub open spec fn with_enabled(s: Seq<PluginV>, idx: int, enabled: bool, t: i64) -> Seq<PluginV> {
    s.update(idx, PluginV { enabled, updated_at: t, ..s[idx] })
}

/// The store invariant: identifiers unique, names unique, every record
/// well-formed.
pub open spec fn wf_store(s: Seq<PluginV>) -> bool {
    &&& forall|i: int, j: int|
        0 <= i < j < s.len() ==> (#[trigger] s[i]).id != (#[trigger] s[j]).id
    &&& forall|i: int, j: int|
        0 <= i < j < s.len() ==> (#[trigger] s[i]).name != (#[trigger] s[j]).name
    &&& forall|i: int| 0 <= i < s.len() ==> wf_plugin(#[trigger] s[i])
}

/// A record just inserted is exactly what a later lookup by its
/// identifier returns: what goes into the store comes back unchanged,
/// declared parameters included.
pub proof fn lemma_store_retains_inserted(s: Seq<PluginV>, p: PluginV)
    requires
        !has_plugin_id(s, p.id),
    ensures
        has_plugin_id(s.push(p), p.id),
        find_plugin(s.push(p), p.id) == Some(p),
{
    let s2 = s.push(p);
    assert(s2[s.len() as int] == p);
    assert(has_plugin_id(s2, p.id));
    let i = plugin_index_of(s2, p.id);
    assert(0 <= i < s2.len() && s2[i].id == p.id);
    if i < s.len() {
        assert(s[i] == s2[i]);
        assert(false);
    }
    assert(s2[i] == p);
}

/// Once a record is stored its name is taken, so a second installation
/// under the same name is refused with `AlreadyExists` and the store
/// keeps only the first record (see [`PluginService::install_begin`]
/// and [`PluginService::install_finish`], whose contracts refuse a
/// taken name).
pub proof fn lemma_installed_name_is_taken(s: Seq<PluginV>, p: PluginV)
    ensures
        has_plugin_name(s.push(p), p.name),
{
    assert(s.push(p)[s.len() as int] == p);
}

/// An installation request that passed validation and now waits for the
/// package to be fetched and extracted. Holds the complete candidate
/// record, which [`PluginService::install_finish`] screens again before
/// anything is persisted.
pub struct PendingInstall {
    pub plugin: Plugin,
}

/// The durable set of installed plugins, with the directory all plugin
/// installs live under.
pub struct PluginService {
    plugins: Vec<Plugin>,
    plugins_root: String,
}

impl View for PluginService {
    type V = Seq<PluginV>;

    closed spec fn view(&self) -> Seq<PluginV> {
        self.plugins@.map_values(|p: Plugin| p@)
    }
}

impl PluginService {
    /// The store invariant, as a predicate on the service.
    pub open spec fn wf(&self) -> bool {
        wf_store(self@)
    }

    /// The directory plugin install directories are created under.
    pub closed spec fn root(&self) -> Seq<char> {
        self.plugins_root@
    }

    /// An empty store over the given plugins directory.
    pub fn new(plugins_root: String) -> (r: Self)
        ensures
            r@ == Seq::<PluginV>::empty(),
            r.wf(),
            r.root() == plugins_root@,
    {
        let r = PluginService { plugins: Vec::new(), plugins_root };
        proof {
            assert(r@ =~= Seq::<PluginV>::empty());
        }
        r
    }

    /// The install directory reserved for a plugin identifier.
    pub fn plugin_dir_for(&self, plugin_id: &str) -> (r: String)
        ensures
            r@ == join_path(self.root(), plugin_id@),
    {
        join_path_exec(self.plugins_root.as_str(), plugin_id)
    }

    /// Index of the record with this identifier.
    fn find_index_by_id(&self, id: &str) -> (r: Option<usize>)
        ensures
            match r {
                Some(i) => i < self@.len() && self@[i as int].id == id@,
                None => !has_plugin_id(self@, id@),
            },
    {
        let n = self.plugins.len();
        let mut i: usize = 0;
        while i < n
            invariant
                i <= n,
                n == self.plugins@.len(),
                self@.len() == n,
                forall|k: int| 0 <= k < n ==> (#[trigger] self@[k]) == self.plugins@[k]@,
                forall|k: int| 0 <= k < i ==> (#[trigger] self@[k]).id != id@,
            decreases n - i,
        {
            if crate::textspec::str_eq(self.plugins[i].id.as_str(), id) {
                return Some(i);
            }
            i += 1;
        }
        None
    }

    /// Index of the record with this name.
    fn find_index_by_name(&self, name: &str) -> (r: Option<usize>)
        ensures
            match r {
                Some(i) => i < self@.len() && self@[i as int].name == name@,
                None => !has_plugin_name(self@, name@),
            },
    {
        let n = self.plugins.len();
        let mut i: usize = 0;
        while i < n
            invariant
                i <= n,
                n == self.plugins@.len(),
                self@.len() == n,
                forall|k: int| 0 <= k < n ==> (#[trigger] self@[k]) == self.plugins@[k]@,
                forall|k: int| 0 <= k < i ==> (#[trigger] self@[k]).name != name@,
            decreases n - i,
        {
            if crate::textspec::str_eq(self.plugins[i].name.as_str(), name) {
                return Some(i);
            }
            i += 1;
        }
        None
    }

    /// Every installed plugin, in installation order.
    pub fn list_plugins(&self) -> (r: Vec<Plugin>)
        ensures
            r@.len() == self@.len(),
            forall|k: int| 0 <= k < r@.len() ==> (#[trigger] r@[k])@ == self@[k],
    {
        let n = self.plugins.len();
        let mut out: Vec<Plugin> = Vec::new();
        let mut i: usize = 0;
        while i < n
            invariant
                i <= n,
                n == self.plugins@.len(),
                self@.len() == n,
                forall|k: int| 0 <= k < n ==> (#[trigger] self@[k]) == self.plugins@[k]@,
                out@.len() == i,
                forall|k: int| 0 <= k < i ==> (#[trigger] out@[k])@ == self@[k],
            decreases n - i,
        {
            out.push(clone_plugin(&self.plugins[i]));
            i += 1;
        }
        out
    }

    /// The plugin with this identifier; unknown identifiers are
    /// `NotFound`.
    pub fn get_plugin(&self, id: &str) -> (r: Result<Plugin, AppError>)
        requires
            self.wf(),
        ensures
            r is Ok <==> has_plugin_id(self@, id@),
            r matches Ok(p) ==> Some(p@) == find_plugin(self@, id@),
            r matches Err(e) ==> e == AppError::NotFound,
    {
        match self.find_index_by_id(id) {
            Some(i) => {
                let p = clone_plugin(&self.plugins[i]);
                proof {
                    assert(has_plugin_id(self@, id@));
                    let j = plugin_index_of(self@, id@);
                    if j != i {
                        assert(self@[j].id == self@[i as int].id);
                    }
                }
                Ok(p)
            },
            None => Err(AppError::NotFound),
        }
    }

    /// The plugin with this name; unknown names are `NotFound`.
    pub fn get_plugin_by_name(&self, name: &str) -> (r: Result<Plugin, AppError>)
        ensures
            r is Ok <==> has_plugin_name(self@, name@),
            r matches Ok(p) ==> p@.name == name@ && self@.contains(p@),
            r matches Err(e) ==> e == AppError::NotFound,
    {
        match self.find_index_by_name(name) {
            Some(i) => {
                let p = clone_plugin(&self.plugins[i]);
                proof {
                    assert(has_plugin_name(self@, name@));
                    assert(self@[i as int] == p@);
                }
                Ok(p)
            },
            None => Err(AppError::NotFound),
        }
    }

    /// Screens an entry point before anything is fetched: it must not
    /// be blank, must be relative, and must not climb to a parent
    /// directory.
    pub fn validate_entry_point(entry_point: &str) -> (r: Result<(), AppError>)
        ensures
            r is Ok <==> valid_entry_point(entry_point@),
            r matches Err(e) ==> e@ matches crate::errors::AppErrorV::Validation { .. },
    {
        if str_is_blank(entry_point) {
            return Err(AppError::Validation(String::from_str("entry point cannot be empty")));
        }
        if str_is_absolute(entry_point) {
            return Err(
                AppError::Validation(String::from_str("entry point must be a relative path")),
            );
        }
        if str_has_parent_component(entry_point) {
            return Err(AppError::Validation(String::from_str("entry point cannot contain '..'")));
        }
        Ok(())
    }

    /// The local filesystem path named by a `file://` locator, if the
    /// locator is one; a `localhost/` authority is stripped.
    pub fn local_path_from_url(url: &str) -> (r: Option<String>)
        ensures
            "file://"@.is_prefix_of(url@) <==> r is Some,
            r matches Some(p) ==> {
                let rest = url@.subrange("file://"@.len() as int, url@.len() as int);
                p@ == if "localhost/"@.is_prefix_of(rest) {
                    rest.subrange("localhost/"@.len() as int, rest.len() as int)
                } else {
                    rest
                }
            },
    {
        proof {
            reveal_strlit("file://");
            reveal_strlit("localhost/");
        }
        if !str_has_prefix(url, "file://") {
            return None;
        }
        let n = url.unicode_len();
        let rest = url.substring_char(7, n);
        if str_has_prefix(rest, "localhost/") {
            let m = rest.unicode_len();
            Some(String::from_str(rest.substring_char(10, m)))
        } else {
            Some(String::from_str(rest))
        }
    }

    /// Validates an installation request before any fetch: the name
    /// must be free, the entry point safe, the parameter list
    /// acceptable. On success the complete candidate record is
    /// returned — identifier freshly generated, both timestamps the
    /// present moment, enabled, its install directory reserved under
    /// the plugins root — and nothing is persisted yet.
    pub fn install_begin(
        &self,
        name: String,
        version: String,
        plugin_type: PluginType,
        description: String,
        author: String,
        entry_point: String,
        metadata: Option<String>,
        parameters: Option<Vec<PluginParameter>>,
    ) -> (r: Result<PendingInstall, AppError>)
        ensures
            r is Ok <==> (!has_plugin_name(self@, name@) && valid_entry_point(entry_point@)
                && match parameters {
                Some(ps) => params_wf(params_view(ps@)),
                None => true,
            }),
            has_plugin_name(self@, name@) ==> r == Err::<PendingInstall, AppError>(
                AppError::AlreadyExists(name),
            ),
            !has_plugin_name(self@, name@) && !valid_entry_point(entry_point@) ==> (
            r matches Err(e) && e@ matches crate::errors::AppErrorV::Validation { .. }),
            !has_plugin_name(self@, name@) && valid_entry_point(entry_point@) && !(
            match parameters {
                Some(ps) => params_wf(params_view(ps@)),
                None => true,
            }) ==> (r matches Err(e) && e@ matches crate::errors::AppErrorV::Validation { .. }),
            r matches Err(e) ==> (e@ matches crate::errors::AppErrorV::AlreadyExists { .. } || e@
                matches crate::errors::AppErrorV::Validation { .. }),
            r matches Ok(t) ==> {
                let p = t.plugin@;
                &&& p.name == name@
                &&& p.version == version@
                &&& p.plugin_type == plugin_type
                &&& p.description == description@
                &&& p.author == author@
                &&& p.entry_point == entry_point@
                &&& p.enabled
                &&& p.created_at == p.updated_at
                &&& p.id.len() == 36 && !p.id.contains('/')
                &&& p.plugin_path == join_path(self.root(), p.id)
                &&& p.metadata == match metadata {
                    Some(m) => Some(m@),
                    None => None::<Seq<char>>,
                }
                &&& p.parameters == match parameters {
                    Some(ps) => Some(params_view(ps@)),
                    None => None::<Seq<crate::params::ParamV>>,
                }
                &&& wf_plugin(p)
            },
    {
        if self.find_index_by_name(name.as_str()).is_some() {
            return Err(AppError::AlreadyExists(name));
        }
        Self::validate_entry_point(entry_point.as_str())?;
        validate_parameters(&parameters)?;
        let plugin_id = new_uuid();
        let plugin_path = self.plugin_dir_for(plugin_id.as_str());
        let now = now_timestamp();
        let plugin = Plugin {
            id: plugin_id,
            name,
            version,
            plugin_type,
            description,
            author,
            plugin_path,
            entry_point,
            enabled: true,
            created_at: now,
            updated_at: now,
            metadata,
            parameters,
        };
        Ok(PendingInstall { plugin })
    }

    /// Persists a validated installation once the package has been
    /// extracted, re-screening everything first: the name and the
    /// identifier must still be free, the record well-formed, and the
    /// entry-point file present in the install directory. On any
    /// failure the store is left exactly as it was — no partial record
    /// is ever persisted — and the caller removes the install
    /// directory.
    pub fn install_finish(&mut self, pending: PendingInstall, entry_file_exists: bool) -> (r:
        Result<Plugin, AppError>)
        requires
            old(self).wf(),
        ensures
            final(self).wf(),
            final(self).root() == old(self).root(),
            r is Ok <==> (!has_plugin_name(old(self)@, pending.plugin@.name) && !has_plugin_id(
                old(self)@,
                pending.plugin@.id,
            ) && wf_plugin(pending.plugin@) && entry_file_exists),
            r matches Ok(p) ==> {
                &&& p@ == pending.plugin@
                &&& final(self)@ == old(self)@.push(pending.plugin@)
            },
            r is Err ==> final(self)@ == old(self)@,
            has_plugin_name(old(self)@, pending.plugin@.name) ==> r == Err::<Plugin, AppError>(
                AppError::AlreadyExists(pending.plugin.name),
            ),
            r matches Err(e) ==> (e@ matches crate::errors::AppErrorV::AlreadyExists { .. } || e@
                matches crate::errors::AppErrorV::Validation { .. } || e@
                matches crate::errors::AppErrorV::Execution { .. }),
            !has_plugin_name(old(self)@, pending.plugin@.name) && !has_plugin_id(
                old(self)@,
                pending.plugin@.id,
            ) && wf_plugin(pending.plugin@) && !entry_file_exists ==> (r matches Err(e) && e@
                matches crate::errors::AppErrorV::Execution { .. }),
    {
        let PendingInstall { plugin } = pending;
        if self.find_index_by_name(plugin.name.as_str()).is_some() {
            return Err(AppError::AlreadyExists(plugin.name));
        }
        if self.find_index_by_id(plugin.id.as_str()).is_some() {
            return Err(AppError::AlreadyExists(plugin.id));
        }
        if Self::validate_entry_point(plugin.entry_point.as_str()).is_err() {
            return Err(AppError::Validation(String::from_str("entry point is not valid")));
        }
        if validate_parameters(&plugin.parameters).is_err() {
            return Err(AppError::Validation(String::from_str("parameter list is not valid")));
        }
        if !entry_file_exists {
            let mut m = String::from_str("entry point not found: ");
            let path = join_path_exec(plugin.plugin_path.as_str(), plugin.entry_point.as_str());
            m.append(path.as_str());
            return Err(AppError::Execution(m));
        }
        let ghost pre = self@;
        let ghost pv = plugin@;
        self.plugins.push(plugin);
        proof {
            assert(self@ =~= pre.push(pv));
            assert forall|i: int, j: int|
                0 <= i < j < self@.len() implies (#[trigger] self@[i]).id
                != (#[trigger] self@[j]).id by {
                if j == pre.len() {
                    if self@[i].id == pv.id {
                        assert(has_plugin_id(pre, pv.id));
                    }
                }
            }
            assert forall|i: int, j: int|
                0 <= i < j < self@.len() implies (#[trigger] self@[i]).name
                != (#[trigger] self@[j]).name by {
                if j == pre.len() {
                    if self@[i].name == pv.name {
                        assert(has_plugin_name(pre, pv.name));
                    }
                }
            }
        }
        // The record handed back mirrors what was just persisted.
        let stored = clone_plugin(&self.plugins[self.plugins.len() - 1]);
        Ok(stored)
    }

    /// The install directory to remove for an uninstallation; unknown
    /// identifiers are `NotFound`. The store is not yet changed.
    pub fn uninstall_begin(&self, id: &str) -> (r: Result<String, AppError>)
        requires
            self.wf(),
        ensures
            r is Ok <==> has_plugin_id(self@, id@),
            r matches Ok(path) ==> Some(path@) == match find_plugin(self@, id@) {
                Some(p) => Some(p.plugin_path),
                None => None::<Seq<char>>,
            },
            r matches Err(e) ==> e == AppError::NotFound,
    {
        match self.find_index_by_id(id) {
            Some(i) => {
                proof {
                    assert(has_plugin_id(self@, id@));
                    let j = plugin_index_of(self@, id@);
                    if j != i {
                        assert(self@[j].id == self@[i as int].id);
                    }
                }
                Ok(self.plugins[i].plugin_path.clone())
            },
            None => Err(AppError::NotFound),
        }
    }

    /// Deletes the record once the embedding program has removed the
    /// install directory. A missing directory is not an error; any
    /// other removal failure (`removal_error`) aborts the
    /// uninstallation and leaves the record in place.
    pub fn uninstall_finish(&mut self, id: &str, removal_error: Option<String>) -> (r: Result<
        (),
        AppError,
    >)
        requires
            old(self).wf(),
        ensures
            final(self).wf(),
            final(self).root() == old(self).root(),
            r is Ok <==> (has_plugin_id(old(self)@, id@) && removal_error is None),
            !has_plugin_id(old(self)@, id@) ==> r == Err::<(), AppError>(AppError::NotFound),
            has_plugin_id(old(self)@, id@) && removal_error is Some ==> r == Err::<
                (),
                AppError,
            >(AppError::Io(removal_error->Some_0)),
            r is Ok ==> final(self)@ == old(self)@.remove(plugin_index_of(old(self)@, id@)),
            r is Err ==> final(self)@ == old(self)@,
    {
        let i = match self.find_index_by_id(id) {
            Some(i) => i,
            None => { return Err(AppError::NotFound); },
        };
        if let Some(m) = removal_error {
            proof {
                assert(has_plugin_id(self@, id@));
            }
            return Err(AppError::Io(m));
        }
        let ghost pre = self@;
        proof {
            assert(has_plugin_id(pre, id@));
            let j = plugin_index_of(pre, id@);
            if j != i {
                assert(pre[j].id == pre[i as int].id);
            }
        }
        self.plugins.remove(i);
        proof {
            assert(self@ =~= pre.remove(i as int));
            assert forall|k: int, l: int|
                0 <= k < l < self@.len() implies (#[trigger] self@[k]).id
                != (#[trigger] self@[l]).id && (#[trigger] self@[k]).name
                != (#[trigger] self@[l]).name by {
                let k0: int = if k < i { k } else { k + 1 };
                let l0: int = if l < i { l } else { l + 1 };
                assert(self@[k] == pre[k0]);
                assert(self@[l] == pre[l0]);
            }
            assert forall|k: int| 0 <= k < self@.len() implies wf_plugin(#[trigger] self@[k]) by {
                let k0: int = if k < i { k } else { k + 1 };
                assert(self@[k] == pre[k0]);
            }
        }
        Ok(())
    }

    /// Flips a plugin's enabled flag and refreshes its update
    /// timestamp; every other field and every other record is
    /// untouched.
    pub fn set_enabled_at(&mut self, id: &str, enabled: bool, now: i64) -> (r: Result<
        (),
        AppError,
    >)
        requires
            old(self).wf(),
        ensures
            final(self).wf(),
            final(self).root() == old(self).root(),
            r is Ok <==> has_plugin_id(old(self)@, id@),
            r is Err ==> r == Err::<(), AppError>(AppError::NotFound) && final(self)@ == old(
                self,
            )@,
            r is Ok ==> final(self)@ == with_enabled(
                old(self)@,
                plugin_index_of(old(self)@, id@),
                enabled,
                now,
            ),
    {
        let i = match self.find_index_by_id(id) {
            Some(i) => i,
            None => { return Err(AppError::NotFound); },
        };
        let ghost pre = self@;
        proof {
            assert(has_plugin_id(pre, id@));
            let j = plugin_index_of(pre, id@);
            if j != i {
                assert(pre[j].id == pre[i as int].id);
            }
        }
        let mut p = clone_plugin(&self.plugins[i]);
        p.enabled = enabled;
        p.updated_at = now;
        self.plugins.set(i, p);
        proof {
            let idx = i as int;
            assert(self@ =~= pre.update(
                idx,
                PluginV { enabled, updated_at: now, ..pre[idx] },
            ));
            assert forall|k: int, l: int|
                0 <= k < l < self@.len() implies (#[trigger] self@[k]).id
                != (#[trigger] self@[l]).id && (#[trigger] self@[k]).name
                != (#[trigger] self@[l]).name by {
                assert(self@[k].id == pre[k].id && self@[k].name == pre[k].name);
                assert(self@[l].id == pre[l].id && self@[l].name == pre[l].name);
            }
            assert forall|k: int| 0 <= k < self@.len() implies wf_plugin(#[trigger] self@[k]) by {
                assert(wf_plugin(pre[k]));
                if k == idx {
                    assert(self@[k].entry_point == pre[k].entry_point);
                    assert(self@[k].parameters == pre[k].parameters);
                }
            }
        }
        Ok(())
    }

    /// Enables a plugin, stamping the present moment.
    pub fn enable_plugin(&mut self, id: &str) -> (r: Result<(), AppError>)
        requires
            old(self).wf(),
        ensures
            final(self).wf(),
            final(self).root() == old(self).root(),
            r is Ok <==> has_plugin_id(old(self)@, id@),
            r is Err ==> r == Err::<(), AppError>(AppError::NotFound) && final(self)@ == old(
                self,
            )@,
            r is Ok ==> exists|t: i64|
                final(self)@ == #[trigger] with_enabled(
                    old(self)@,
                    plugin_index_of(old(self)@, id@),
                    true,
                    t,
                ),
    {
        let now = now_timestamp();
        let r = self.set_enabled_at(id, true, now);
        proof {
            if r is Ok {
                assert(final(self)@ == with_enabled(
                    old(self)@,
                    plugin_index_of(old(self)@, id@),
                    true,
                    now,
                ));
            }
        }
        r
    }

    /// Disables a plugin, stamping the present moment.
    pub fn disable_plugin(&mut self, id: &str) -> (r: Result<(), AppError>)
        requires
            old(self).wf(),
        ensures
            final(self).wf(),
            final(self).root() == old(self).root(),
            r is Ok <==> has_plugin_id(old(self)@, id@),
            r is Err ==> r == Err::<(), AppError>(AppError::NotFound) && final(self)@ == old(
                self,
            )@,
            r is Ok ==> exists|t: i64|
                final(self)@ == #[trigger] with_enabled(
                    old(self)@,
                    plugin_index_of(old(self)@, id@),
                    false,
                    t,
                ),
    {
        let now = now_timestamp();
        let r = self.set_enabled_at(id, false, now);
        proof {
            if r is Ok {
                assert(final(self)@ == with_enabled(
                    old(self)@,
                    plugin_index_of(old(self)@, id@),
                    false,
                    now,
                ));
            }
        }
        r
    }
}

} // verus!
