//! The catalog of installable plugin definitions: each definition names a
//! runtime, an argument template list, and the configuration key under which
//! a client document stores its entry.

use vstd::prelude::*;

use crate::strutil::str_eq;

verus! {

/// The launch configuration of a plugin definition.
pub struct AppConfig {
    /// The key under which a client document stores this plugin's entry.
    pub mcp_key: String,
    /// The runtime command that launches the plugin.
    pub runtime: String,
    /// The argument templates, possibly holding `${NAME}` tokens.
    pub args: Vec<String>,
}

/// The mathematical value of an [`AppConfig`].
pub struct AppConfigV {
    pub mcp_key: Seq<char>,
    pub runtime: Seq<char>,
    pub args: Seq<Seq<char>>,
}

impl View for AppConfig {
    type V = AppConfigV;

    open spec fn view(&self) -> AppConfigV {
        AppConfigV { mcp_key: self.mcp_key@, runtime: self.runtime@, args: self.args.deep_view() }
    }
}

impl DeepView for AppConfig {
    type V = AppConfigV;

    open spec fn deep_view(&self) -> AppConfigV {
        self.view()
    }
}

/// One installable plugin definition.
pub struct AppDefinition {
    /// The unique display name used to look the definition up.
    pub name: String,
    pub description: String,
    pub config: AppConfig,
}

/// The mathematical value of an [`AppDefinition`].
pub struct AppDefinitionV {
    pub name: Seq<char>,
    pub description: Seq<char>,
    pub config: AppConfigV,
}

impl View for AppDefinition {
    type V = AppDefinitionV;

    open spec fn view(&self) -> AppDefinitionV {
        AppDefinitionV { name: self.name@, description: self.description@, config: self.config@ }
    }
}

impl DeepView for AppDefinition {
    type V = AppDefinitionV;

    open spec fn deep_view(&self) -> AppDefinitionV {
        self.view()
    }
}

/// The in-memory registry of plugin definitions.
pub struct Registry {
    pub apps: Vec<AppDefinition>,
}

impl View for Registry {
    type V = Seq<AppDefinitionV>;

    open spec fn view(&self) -> Seq<AppDefinitionV> {
        self.apps.deep_view()
    }
}

/// A well-formed registry: definition names are unique keys, and no two
/// definitions store their entries under the same configuration key.
pub open spec fn registry_wf(apps: Seq<AppDefinitionV>) -> bool {
    forall|i: int, j: int|
        0 <= i < j < apps.len() ==> apps[i].name != apps[j].name && apps[i].config.mcp_key
            != apps[j].config.mcp_key
}

/// The first definition with the given name, if any.
pub open spec fn spec_find_app(apps: Seq<AppDefinitionV>, name: Seq<char>) -> Option<AppDefinitionV>
    decreases apps.len(),
{
    if apps.len() == 0 {
        None
    } else if apps.first().name == name {
        Some(apps.first())
    } else {
        spec_find_app(apps.drop_first(), name)
    }
}

/// A lookup skips any prefix that does not hold the name.
proof fn lemma_spec_find_app_skip(apps: Seq<AppDefinitionV>, name: Seq<char>, i: int)
    requires
        0 <= i <= apps.len(),
        forall|k: int| 0 <= k < i ==> apps[k].name != name,
    ensures
        spec_find_app(apps, name) == spec_find_app(apps.skip(i), name),
    decreases i,
{
    if i == 0 {
        assert(apps.skip(0) =~= apps);
    } else {
        let sdf = apps.drop_first();
        assert(apps.first().name != name);
        assert forall|k: int| 0 <= k < i - 1 implies sdf[k].name != name by {
            assert(sdf[k] == apps[k + 1]);
        }
        lemma_spec_find_app_skip(sdf, name, i - 1);
        assert(sdf.skip(i - 1) =~= apps.skip(i));
    }
}

/// A found definition is an element of the registry and carries the name it
/// was looked up by.
pub proof fn lemma_spec_find_app_element(apps: Seq<AppDefinitionV>, name: Seq<char>)
    requires
        spec_find_app(apps, name) is Some,
    ensures
        spec_find_app(apps, name).unwrap().name == name,
        exists|i: int|
            0 <= i < apps.len() && #[trigger] apps[i] == spec_find_app(apps, name).unwrap(),
    decreases apps.len(),
{
    if apps.first().name == name {
        assert(apps[0] == spec_find_app(apps, name).unwrap());
    } else {
        let sdf = apps.drop_first();
        lemma_spec_find_app_element(sdf, name);
        let i = choose|i: int| 0 <= i < sdf.len() && #[trigger] sdf[i] == spec_find_app(
            sdf,
            name,
        ).unwrap();
        assert(apps[i + 1] == sdf[i]);
    }
}

/// In a well-formed registry, looking a definition's own name up finds it.
pub proof fn lemma_spec_find_app_at(apps: Seq<AppDefinitionV>, i: int)
    requires
        registry_wf(apps),
        0 <= i < apps.len(),
    ensures
        spec_find_app(apps, apps[i].name) == Some(apps[i]),
    decreases apps.len(),
{
    if i == 0 {
    } else {
        let sdf = apps.drop_first();
        assert(apps[0].name != apps[i].name);
        assert forall|a: int, b: int| 0 <= a < b < sdf.len() implies sdf[a].name != sdf[b].name
            && sdf[a].config.mcp_key != sdf[b].config.mcp_key by {
            assert(sdf[a] == apps[a + 1]);
            assert(sdf[b] == apps[b + 1]);
            assert(apps[a + 1].name != apps[b + 1].name);
        }
        assert(sdf[i - 1] == apps[i]);
        lemma_spec_find_app_at(sdf, i - 1);
    }
}

/// In a well-formed registry, definitions found under two different names
/// store their entries under two different configuration keys.
pub proof fn lemma_spec_find_app_distinct_keys(
    apps: Seq<AppDefinitionV>,
    a: Seq<char>,
    b: Seq<char>,
)
    requires
        registry_wf(apps),
        a != b,
        spec_find_app(apps, a) is Some,
        spec_find_app(apps, b) is Some,
    ensures
        spec_find_app(apps, a).unwrap().config.mcp_key != spec_find_app(
            apps,
            b,
        ).unwrap().config.mcp_key,
{
    lemma_spec_find_app_element(apps, a);
    lemma_spec_find_app_element(apps, b);
    let i = choose|i: int| 0 <= i < apps.len() && #[trigger] apps[i] == spec_find_app(
        apps,
        a,
    ).unwrap();
    let j = choose|j: int| 0 <= j < apps.len() && #[trigger] apps[j] == spec_find_app(
        apps,
        b,
    ).unwrap();
    assert(apps[i].name == a);
    assert(apps[j].name == b);
    assert(i != j);
}

impl Registry {
    /// An empty registry.
    pub fn new() -> (r: Registry)
        ensures
            r@ =~= Seq::<AppDefinitionV>::empty(),
    {
        Registry { apps: Vec::new() }
    }

    /// Looks a definition up by exact name match.
    pub fn find_app(&self, name: &str) -> (r: Option<&AppDefinition>)
        ensures
            match r {
                Some(app) => spec_find_app(self@, name@) == Some(app@),
                None => spec_find_app(self@, name@) is None,
            },
    {
        let n = self.apps.len();
        for i in 0..n
            invariant
                n == self.apps@.len(),
                forall|k: int| 0 <= k < i ==> self@[k].name != name@,
        {
            if str_eq(self.apps[i].name.as_str(), name) {
                proof {
                    lemma_spec_find_app_skip(self@, name@, i as int);
                    assert(self@.skip(i as int).first() == self@[i as int]);
                }
                return Some(&self.apps[i]);
            }
        }
        proof {
            lemma_spec_find_app_skip(self@, name@, n as int);
            assert(self@.skip(n as int) =~= Seq::<AppDefinitionV>::empty());
        }
        None
    }
}

} // verus!
