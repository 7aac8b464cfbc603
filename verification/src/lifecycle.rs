//! The install/uninstall lifecycle manager: adds, removes and queries a
//! plugin's entry in a client configuration document, merging environment
//! values and substituting argument templates on the way in.

use vstd::prelude::*;

use crate::config::{ConfigDoc, ServerEntry, ServerEntryV};
use crate::errors::Error;
use crate::registry::{registry_wf, spec_find_app, AppDefinitionV, Registry};
use crate::scalar::{Scalar, ScalarV};
use crate::strmap::StrMap;
use crate::strutil::clone_string_vec;
use crate::template::{spec_substitute_all, substitute_args};

verus! {

/// The view of an optional overrides argument.
pub open spec fn overrides_view(o: Option<&StrMap<Scalar>>) -> Option<Map<Seq<char>, ScalarV>> {
    match o {
        Some(m) => Some(m@),
        None => None,
    }
}

/// The environment an install stores and substitutes with: the entry's
/// current environment values (empty if the plugin has no entry yet),
/// overridden by any caller-supplied values.
pub open spec fn spec_effective_env(
    doc: Map<Seq<char>, ServerEntryV>,
    key: Seq<char>,
    overrides: Option<Map<Seq<char>, ScalarV>>,
) -> Map<Seq<char>, ScalarV> {
    let existing = if doc.contains_key(key) {
        doc[key].env
    } else {
        Map::empty()
    };
    match overrides {
        Some(o) => existing.union_prefer_right(o),
        None => existing,
    }
}

/// The entry an install writes for a definition: the definition's runtime,
/// its argument templates substituted with the effective environment, and the
/// effective environment itself.
pub open spec fn spec_installed_entry(
    app: AppDefinitionV,
    doc: Map<Seq<char>, ServerEntryV>,
    overrides: Option<Map<Seq<char>, ScalarV>>,
) -> ServerEntryV {
    let env = spec_effective_env(doc, app.config.mcp_key, overrides);
    ServerEntryV {
        runtime: app.config.runtime,
        args: spec_substitute_all(app.config.args, env),
        env,
    }
}

/// The document after installing the named definition; meaningful only when
/// the registry holds the name.
pub open spec fn spec_install(
    reg: Seq<AppDefinitionV>,
    doc: Map<Seq<char>, ServerEntryV>,
    name: Seq<char>,
    overrides: Option<Map<Seq<char>, ScalarV>>,
) -> Map<Seq<char>, ServerEntryV> {
    let app = spec_find_app(reg, name).unwrap();
    doc.insert(app.config.mcp_key, spec_installed_entry(app, doc, overrides))
}

/// The document after uninstalling the named definition; meaningful only when
/// the registry holds the name.
pub open spec fn spec_uninstall(
    reg: Seq<AppDefinitionV>,
    doc: Map<Seq<char>, ServerEntryV>,
    name: Seq<char>,
) -> Map<Seq<char>, ServerEntryV> {
    doc.remove(spec_find_app(reg, name).unwrap().config.mcp_key)
}

/// Whether the named definition has an entry in the document; meaningful only
/// when the registry holds the name.
pub open spec fn spec_is_installed(
    reg: Seq<AppDefinitionV>,
    doc: Map<Seq<char>, ServerEntryV>,
    name: Seq<char>,
) -> bool {
    doc.contains_key(spec_find_app(reg, name).unwrap().config.mcp_key)
}

/// The environment values stored for the named definition, or the empty map
/// if it has no entry; meaningful only when the registry holds the name.
pub open spec fn spec_get_app_env(
    reg: Seq<AppDefinitionV>,
    doc: Map<Seq<char>, ServerEntryV>,
    name: Seq<char>,
) -> Map<Seq<char>, ScalarV> {
    let key = spec_find_app(reg, name).unwrap().config.mcp_key;
    if doc.contains_key(key) {
        doc[key].env
    } else {
        Map::empty()
    }
}

/// Installs the named plugin into the document: an idempotent upsert that
/// overwrites any existing entry under the same configuration key.
pub fn install(
    registry: &Registry,
    name: &str,
    env_overrides: Option<&StrMap<Scalar>>,
    doc: &mut ConfigDoc,
) -> (r: Result<(), Error>)
    requires
        match env_overrides {
            Some(o) => o.wf(),
            None => true,
        },
    ensures
        r is Ok <==> spec_find_app(registry@, name@) is Some,
        r is Ok ==> final(doc)@ == spec_install(
            registry@,
            old(doc)@,
            name@,
            overrides_view(env_overrides),
        ),
        r is Ok ==> (old(doc).wf() ==> final(doc).wf()),
        r is Err ==> *final(doc) == *old(doc) && r->Err_0 is AppNotFound,
{
    let app = match registry.find_app(name) {
        Some(app) => app,
        None => {
            return Err(Error::AppNotFound);
        },
    };
    let existing_env: StrMap<Scalar> = match doc.servers.get(app.config.mcp_key.as_str()) {
        Some(entry) => entry.env.dup(),
        None => StrMap::new(),
    };
    proof {
        assert(existing_env@ == (if old(doc)@.contains_key(app.config.mcp_key@) {
            old(doc)@[app.config.mcp_key@].env
        } else {
            Map::<Seq<char>, ScalarV>::empty()
        }));
    }
    let effective: StrMap<Scalar> = match env_overrides {
        Some(o) => existing_env.union_prefer(o),
        None => existing_env,
    };
    let args = substitute_args(&app.config.args, &effective);
    let entry = ServerEntry { runtime: app.config.runtime.clone(), args, env: effective };
    proof {
        assert(entry@ == spec_installed_entry(
            app@,
            old(doc)@,
            overrides_view(env_overrides),
        ));
    }
    doc.servers.insert(app.config.mcp_key.clone(), entry);
    Ok(())
}

/// Removes the named plugin's entry from the document; removing an absent
/// entry is a no-op, so uninstalling is idempotent.
pub fn uninstall(registry: &Registry, name: &str, doc: &mut ConfigDoc) -> (r: Result<(), Error>)
    requires
        old(doc).wf(),
    ensures
        final(doc).wf(),
        r is Ok <==> spec_find_app(registry@, name@) is Some,
        r is Ok ==> final(doc)@ == spec_uninstall(registry@, old(doc)@, name@),
        r is Err ==> *final(doc) == *old(doc) && r->Err_0 is AppNotFound,
{
    let app = match registry.find_app(name) {
        Some(app) => app,
        None => {
            return Err(Error::AppNotFound);
        },
    };
    doc.servers.remove(app.config.mcp_key.as_str());
    Ok(())
}

/// Whether the named plugin has an entry in the document.
pub fn is_installed(registry: &Registry, name: &str, doc: &ConfigDoc) -> (r: Result<bool, Error>)
    ensures
        r is Ok <==> spec_find_app(registry@, name@) is Some,
        r is Ok ==> r->Ok_0 == spec_is_installed(registry@, doc@, name@),
        r is Err ==> r->Err_0 is AppNotFound,
{
    let app = match registry.find_app(name) {
        Some(app) => app,
        None => {
            return Err(Error::AppNotFound);
        },
    };
    Ok(doc.servers.contains_key(app.config.mcp_key.as_str()))
}

/// The environment values stored for the named plugin, or the empty map if it
/// is not installed.
pub fn get_app_env(registry: &Registry, name: &str, doc: &ConfigDoc) -> (r: Result<
    StrMap<Scalar>,
    Error,
>)
    ensures
        r is Ok <==> spec_find_app(registry@, name@) is Some,
        r is Ok ==> r->Ok_0@ == spec_get_app_env(registry@, doc@, name@),
        r is Err ==> r->Err_0 is AppNotFound,
{
    let app = match registry.find_app(name) {
        Some(app) => app,
        None => {
            return Err(Error::AppNotFound);
        },
    };
    match doc.servers.get(app.config.mcp_key.as_str()) {
        Some(entry) => Ok(entry.env.dup()),
        None => Ok(StrMap::new()),
    }
}

/// Replaces the environment values of an existing entry, leaving its runtime
/// and arguments untouched.
pub fn save_app_env(
    registry: &Registry,
    name: &str,
    env: StrMap<Scalar>,
    doc: &mut ConfigDoc,
) -> (r: Result<(), Error>)
    ensures
        r is Ok <==> spec_find_app(registry@, name@) is Some && old(doc)@.contains_key(
            spec_find_app(registry@, name@).unwrap().config.mcp_key,
        ),
        r is Ok ==> ({
            let key = spec_find_app(registry@, name@).unwrap().config.mcp_key;
            final(doc)@ == old(doc)@.insert(
                key,
                ServerEntryV {
                    runtime: old(doc)@[key].runtime,
                    args: old(doc)@[key].args,
                    env: env@,
                },
            )
        }),
        r is Ok ==> (old(doc).wf() ==> final(doc).wf()),
        r is Err ==> *final(doc) == *old(doc),
        r is Err ==> (r->Err_0 is AppNotFound <==> spec_find_app(registry@, name@) is None),
        r is Err ==> (r->Err_0 is NotInstalled <==> spec_find_app(registry@, name@) is Some),
{
    let app = match registry.find_app(name) {
        Some(app) => app,
        None => {
            return Err(Error::AppNotFound);
        },
    };
    let (runtime, args) = match doc.servers.get(app.config.mcp_key.as_str()) {
        Some(entry) => (entry.runtime.clone(), clone_string_vec(&entry.args)),
        None => {
            return Err(Error::NotInstalled);
        },
    };
    let entry = ServerEntry { runtime, args, env };
    doc.servers.insert(app.config.mcp_key.clone(), entry);
    Ok(())
}

/// The per-plugin readiness report: which registry plugins have an entry in
/// the document, and which of those additionally have a non-empty environment.
pub struct StatusReport {
    pub installed: StrMap<bool>,
    pub configured: StrMap<bool>,
}

/// A plugin is configured when its entry exists and holds at least one
/// environment value.
pub open spec fn spec_configured(doc: Map<Seq<char>, ServerEntryV>, key: Seq<char>) -> bool {
    doc.contains_key(key) && doc[key].env != Map::<Seq<char>, ScalarV>::empty()
}

/// The installed-status map over a registry: one key per definition name.
pub open spec fn spec_statuses_installed(
    reg: Seq<AppDefinitionV>,
    doc: Map<Seq<char>, ServerEntryV>,
) -> Map<Seq<char>, bool>
    decreases reg.len(),
{
    if reg.len() == 0 {
        Map::empty()
    } else {
        spec_statuses_installed(reg.drop_last(), doc).insert(
            reg.last().name,
            doc.contains_key(reg.last().config.mcp_key),
        )
    }
}

/// The configured-status map over a registry: one key per definition name.
pub open spec fn spec_statuses_configured(
    reg: Seq<AppDefinitionV>,
    doc: Map<Seq<char>, ServerEntryV>,
) -> Map<Seq<char>, bool>
    decreases reg.len(),
{
    if reg.len() == 0 {
        Map::empty()
    } else {
        spec_statuses_configured(reg.drop_last(), doc).insert(
            reg.last().name,
            spec_configured(doc, reg.last().config.mcp_key),
        )
    }
}

/// Reports, for every definition of the registry, whether it is installed in
/// the document and whether its entry is configured.
pub fn get_app_statuses(registry: &Registry, doc: &ConfigDoc) -> (r: StatusReport)
    ensures
        r.installed@ == spec_statuses_installed(registry@, doc@),
        r.configured@ == spec_statuses_configured(registry@, doc@),
        r.installed.wf(),
        r.configured.wf(),
{
    let mut installed: StrMap<bool> = StrMap::new();
    let mut configured: StrMap<bool> = StrMap::new();
    let n = registry.apps.len();
    for i in 0..n
        invariant
            n == registry.apps@.len(),
            installed@ == spec_statuses_installed(registry@.take(i as int), doc@),
            configured@ == spec_statuses_configured(registry@.take(i as int), doc@),
            installed.wf(),
            configured.wf(),
    {
        let app = &registry.apps[i];
        let inst = doc.servers.contains_key(app.config.mcp_key.as_str());
        let conf = match doc.servers.get(app.config.mcp_key.as_str()) {
            Some(entry) => !entry.env.is_empty(),
            None => false,
        };
        installed.insert(app.name.clone(), inst);
        configured.insert(app.name.clone(), conf);
        proof {
            assert(registry@.take(i as int + 1).drop_last() =~= registry@.take(i as int));
            assert(registry@.take(i as int + 1).last() == registry@[i as int]);
        }
    }
    proof {
        assert(registry@.take(n as int) =~= registry@);
    }
    StatusReport { installed, configured }
}

/// In a registry with unique names, the status maps report each definition
/// under its own name.
pub proof fn lemma_statuses_at(
    reg: Seq<AppDefinitionV>,
    doc: Map<Seq<char>, ServerEntryV>,
    i: int,
)
    requires
        registry_wf(reg),
        0 <= i < reg.len(),
    ensures
        spec_statuses_installed(reg, doc).contains_key(reg[i].name),
        spec_statuses_installed(reg, doc)[reg[i].name] == doc.contains_key(reg[i].config.mcp_key),
        spec_statuses_configured(reg, doc).contains_key(reg[i].name),
        spec_statuses_configured(reg, doc)[reg[i].name] == spec_configured(
            doc,
            reg[i].config.mcp_key,
        ),
    decreases reg.len(),
{
    if i == reg.len() - 1 {
    } else {
        let rdl = reg.drop_last();
        assert forall|a: int, b: int| 0 <= a < b < rdl.len() implies rdl[a].name != rdl[b].name
            && rdl[a].config.mcp_key != rdl[b].config.mcp_key by {
            assert(reg[a].name != reg[b].name);
            assert(reg[a].config.mcp_key != reg[b].config.mcp_key);
        }
        assert(rdl[i] == reg[i]);
        lemma_statuses_at(rdl, doc, i);
        assert(reg.last().name != reg[i].name);
    }
}

/// Law: installing a plugin makes it installed, and uninstalling it
/// afterwards makes it not installed again — the round trip returns the
/// plugin's presence to where it began.
pub proof fn lemma_install_uninstall_round_trip(
    reg: Seq<AppDefinitionV>,
    doc: Map<Seq<char>, ServerEntryV>,
    name: Seq<char>,
    overrides: Option<Map<Seq<char>, ScalarV>>,
)
    requires
        spec_find_app(reg, name) is Some,
    ensures
        spec_is_installed(reg, spec_install(reg, doc, name, overrides), name),
        !spec_is_installed(
            reg,
            spec_uninstall(reg, spec_install(reg, doc, name, overrides), name),
            name,
        ),
{
}

/// Law: re-installing is an upsert — after installing twice with two
/// overrides maps, every key of the second map holds the second map's value,
/// also where the first map set the same key.
pub proof fn lemma_install_upsert(
    reg: Seq<AppDefinitionV>,
    doc: Map<Seq<char>, ServerEntryV>,
    name: Seq<char>,
    ov1: Map<Seq<char>, ScalarV>,
    ov2: Map<Seq<char>, ScalarV>,
    k: Seq<char>,
)
    requires
        spec_find_app(reg, name) is Some,
        ov2.contains_key(k),
    ensures
        ({
            let twice = spec_install(reg, spec_install(reg, doc, name, Some(ov1)), name, Some(ov2));
            spec_get_app_env(reg, twice, name).contains_key(k) && spec_get_app_env(
                reg,
                twice,
                name,
            )[k] == ov2[k]
        }),
{
}

/// Law: plugins are independent — installing one plugin, then a second, then
/// uninstalling the first leaves the second installed and the first not.
pub proof fn lemma_multi_app_independence(
    reg: Seq<AppDefinitionV>,
    doc: Map<Seq<char>, ServerEntryV>,
    a: Seq<char>,
    b: Seq<char>,
    ov_a: Option<Map<Seq<char>, ScalarV>>,
    ov_b: Option<Map<Seq<char>, ScalarV>>,
)
    requires
        registry_wf(reg),
        a != b,
        spec_find_app(reg, a) is Some,
        spec_find_app(reg, b) is Some,
    ensures
        ({
            let after = spec_uninstall(
                reg,
                spec_install(reg, spec_install(reg, doc, a, ov_a), b, ov_b),
                a,
            );
            spec_is_installed(reg, after, b) && !spec_is_installed(reg, after, a)
        }),
{
    crate::registry::lemma_spec_find_app_distinct_keys(reg, a, b);
}

/// Law: after installing one of two registry plugins into an empty document,
/// the status report marks the installed one as installed and the other not.
pub proof fn lemma_status_aggregation(
    reg: Seq<AppDefinitionV>,
    ai: int,
    bi: int,
    overrides: Option<Map<Seq<char>, ScalarV>>,
)
    requires
        registry_wf(reg),
        0 <= ai < reg.len(),
        0 <= bi < reg.len(),
        ai != bi,
    ensures
        ({
            let doc = spec_install(
                reg,
                Map::<Seq<char>, ServerEntryV>::empty(),
                reg[ai].name,
                overrides,
            );
            spec_statuses_installed(reg, doc)[reg[ai].name] == true
                && spec_statuses_installed(reg, doc)[reg[bi].name] == false
        }),
{
    crate::registry::lemma_spec_find_app_at(reg, ai);
    let doc = spec_install(reg, Map::<Seq<char>, ServerEntryV>::empty(), reg[ai].name, overrides);
    lemma_statuses_at(reg, doc, ai);
    lemma_statuses_at(reg, doc, bi);
    assert(reg[ai].config.mcp_key != reg[bi].config.mcp_key);
}

} // verus!
