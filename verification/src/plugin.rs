//! Capability plugins and the set of them that a build is configured with.

use vstd::prelude::*;

verus! {

/// A capability that the host can expose to the application's frontend.
#[derive(Clone, Copy, Debug, PartialEq, Eq, Structural)]
pub enum Plugin {
    /// Network access: the frontend may issue HTTP requests.
    NetworkFetch,
    /// Persistent storage: the frontend may read and write a key-value store.
    PersistentStore,
}

impl Plugin {
    /// Position of the plugin in the registration order: smaller comes first.
    pub open spec fn rank(self) -> nat {
        match self {
            Plugin::NetworkFetch => 0,
            Plugin::PersistentStore => 1,
        }
    }
}

/// The plugins that a build is configured with.
///
/// A set in the mathematical sense: a plugin is in it or not, and neither
/// the order nor the number of times it was added is remembered.
#[derive(Clone, Copy, Debug, PartialEq, Eq, Structural)]
pub struct PluginSet {
    pub network_fetch: bool,
    pub persistent_store: bool,
}

impl View for PluginSet {
    type V = Set<Plugin>;

    open spec fn view(&self) -> Set<Plugin> {
        Set::new(
            |p: Plugin|
                match p {
                    Plugin::NetworkFetch => self.network_fetch,
                    Plugin::PersistentStore => self.persistent_store,
                },
        )
    }
}

/// The members of `plugins` in registration order: network access first,
/// then persistent storage, each only if it is a member.
pub open spec fn registration_order(plugins: Set<Plugin>) -> Seq<Plugin> {
    let fetch = if plugins.contains(Plugin::NetworkFetch) {
        seq![Plugin::NetworkFetch]
    } else {
        Seq::<Plugin>::empty()
    };
    let store = if plugins.contains(Plugin::PersistentStore) {
        seq![Plugin::PersistentStore]
    } else {
        Seq::<Plugin>::empty()
    };
    fetch + store
}

/// The registration order lists the members of the set and nothing else, by
/// strictly ascending rank, so each member stands in it exactly once.
pub proof fn lemma_registration_order_lists_the_set(plugins: Set<Plugin>)
    ensures
        forall|p: Plugin| registration_order(plugins).contains(p) <==> plugins.contains(p),
        forall|i: int, j: int|
            0 <= i < j < registration_order(plugins).len() ==> registration_order(plugins)[i].rank()
                < registration_order(plugins)[j].rank(),
{
    let order = registration_order(plugins);
    assert forall|p: Plugin| order.contains(p) <==> plugins.contains(p) by {
        if plugins.contains(p) {
            match p {
                Plugin::NetworkFetch => {
                    assert(order[0] == p);
                },
                Plugin::PersistentStore => {
                    assert(order[order.len() - 1] == p);
                },
            }
        }
    }
}

impl PluginSet {
    /// The configuration without any plugin.
    pub fn empty() -> (set: PluginSet)
        ensures
            set@ == Set::<Plugin>::empty(),
    {
        let set = PluginSet { network_fetch: false, persistent_store: false };
        assert(set@ =~= Set::<Plugin>::empty());
        set
    }

    /// This configuration with `plugin` added. Adding a member again changes
    /// nothing.
    pub fn with(self, plugin: Plugin) -> (set: PluginSet)
        ensures
            set@ == self@.insert(plugin),
    {
        let set = match plugin {
            Plugin::NetworkFetch => PluginSet {
                network_fetch: true,
                persistent_store: self.persistent_store,
            },
            Plugin::PersistentStore => PluginSet {
                network_fetch: self.network_fetch,
                persistent_store: true,
            },
        };
        assert(set@ =~= self@.insert(plugin));
        set
    }

    /// Whether `plugin` is part of the configuration.
    pub fn contains(&self, plugin: Plugin) -> (found: bool)
        ensures
            found == self@.contains(plugin),
    {
        match plugin {
            Plugin::NetworkFetch => self.network_fetch,
            Plugin::PersistentStore => self.persistent_store,
        }
    }

    /// The members in registration order.
    pub fn in_order(&self) -> (plugins: Vec<Plugin>)
        ensures
            plugins@ == registration_order(self@),
    {
        let mut plugins: Vec<Plugin> = Vec::new();
        if self.network_fetch {
            plugins.push(Plugin::NetworkFetch);
        }
        if self.persistent_store {
            plugins.push(Plugin::PersistentStore);
        }
        assert(plugins@ =~= registration_order(self@));
        plugins
    }
}

} // verus!
