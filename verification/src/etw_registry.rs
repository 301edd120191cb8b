//! The registry of Windows providers: at most one provider per name, made
//! at the first use of the name and kept from then on.
//!
//! A Windows provider has to be registered by its owner, once, after it has
//! found its place in memory. So the registry tells with every provider
//! whether it was made by this very call: then, and only then, the caller
//! registers it.

use crate::etw::etw_name_ok;
use crate::etw::etw_provider_identity;
use crate::etw::new_provider;
use crate::etw::windows_group_id;
use crate::etw::EtwIdentity;
use crate::field::same_text;
use crate::logger::lock_new;
use crate::logger::lock_read;
use crate::logger::lock_write;
use crate::logger::read_target;
use crate::logger::resolved_group;
use crate::logger::resolved_id;
use crate::logger::resolved_name;
use crate::logger::write_target;
use crate::logger::ExporterConfig;
use crate::provider::ProviderGroup;
use crate::provider::ProviderId;
use crate::registry::lemma_push_keeps_distinct;
use crossbeam_utils::sync::ShardedLock;
use std::sync::Arc;
use tracelogging_dynamic::Provider;
use vstd::prelude::*;

verus! {

/// A Windows provider with its identity.
pub struct EtwProviderWrapper {
    pub name: String,
    pub id: ProviderId,
    pub group: ProviderGroup,
    pub provider: Provider,
}

/// Whether a Windows provider is as the registry makes one: its name is one
/// that a Windows provider can have, and the provider behind it was made
/// with that name, with its identifier and in its Windows group.
pub open spec fn etw_created(wrapper: EtwProviderWrapper) -> bool {
    &&& etw_name_ok(wrapper.name@)
    &&& etw_provider_identity(wrapper.provider) == (EtwIdentity {
        name: wrapper.name@,
        id: wrapper.id.value,
        group: windows_group_id(wrapper.group@),
    })
}

/// The names of a registry of Windows providers after a call for the
/// provider `name`: as they were where the name is there already or no
/// Windows provider can have it, else with the name at the end.
pub open spec fn etw_names_after(names: Seq<Seq<char>>, name: Seq<char>) -> Seq<Seq<char>> {
    if names.contains(name) || !etw_name_ok(name) {
        names
    } else {
        names.push(name)
    }
}

/// A provider from the registry, and whether the call that handed it out
/// made it.
pub struct EtwLookup {
    pub provider: Arc<EtwProviderWrapper>,
    pub is_new: bool,
}

/// The Windows providers that were made so far, in the order of their
/// making.
pub struct EtwRegistry {
    entries: Vec<Arc<EtwProviderWrapper>>,
}

impl EtwRegistry {
    /// No two providers share a name, and every provider is as it was made.
    #[verifier::type_invariant]
    spec fn distinct(self) -> bool {
        &&& forall|i: int, j: int|
            0 <= i < j < self.entries.len() ==> self.entries[i].name@ != self.entries[j].name@
        &&& forall|i: int|
            0 <= i < self.entries.len() ==> etw_created(*#[trigger] self.entries[i])
    }

    /// The providers, in the order of their making.
    pub closed spec fn providers(self) -> Seq<EtwProviderWrapper> {
        self.entries@.map_values(|e: Arc<EtwProviderWrapper>| *e)
    }

    /// The names of the providers, in the order of their making.
    pub open spec fn names(self) -> Seq<Seq<char>> {
        self.providers().map_values(|p: EtwProviderWrapper| p.name@)
    }

    /// Providers with distinct names have distinct names.
    proof fn lemma_names_distinct(self)
        requires
            self.distinct(),
        ensures
            self.names().no_duplicates(),
    {
        assert forall|i: int, j: int|
            0 <= i < self.names().len() && 0 <= j < self.names().len() && i != j implies self.names()[i]
            != self.names()[j] by {
            assert(self.providers()[i] == *self.entries[i]);
            assert(self.providers()[j] == *self.entries[j]);
            if i < j {
                assert(self.entries[i].name@ != self.entries[j].name@);
            } else {
                assert(self.entries[j].name@ != self.entries[i].name@);
            }
        }
    }

    /// An empty registry.
    pub fn new() -> (registry: EtwRegistry)
        ensures
            registry.providers() == Seq::<EtwProviderWrapper>::empty(),
            registry.names() == Seq::<Seq<char>>::empty(),
    {
        let registry = EtwRegistry { entries: Vec::new() };
        assert(registry.providers() =~= Seq::<EtwProviderWrapper>::empty());
        assert(registry.names() =~= Seq::<Seq<char>>::empty());
        registry
    }

    /// The number of providers, which is the number of names: no name has
    /// two providers.
    pub fn len(&self) -> (n: usize)
        ensures
            n == self.providers().len(),
            n == self.names().len(),
            self.names().no_duplicates(),
    {
        proof {
            use_type_invariant(self);
            self.lemma_names_distinct();
        }
        self.entries.len()
    }

    /// The provider of this name, where one exists.
    pub fn find(&self, name: &str) -> (found: Option<Arc<EtwProviderWrapper>>)
        ensures
            found is Some <==> self.names().contains(name@),
            found matches Some(p) ==> {
                &&& p.name@ == name@
                &&& etw_created(*p)
                &&& self.providers().contains(*p)
            },
    {
        proof {
            use_type_invariant(self);
        }
        let mut i: usize = 0;
        while i < self.entries.len()
            invariant
                i <= self.entries.len(),
                forall|k: int|
                    0 <= k < self.entries.len() ==> etw_created(*#[trigger] self.entries[k]),
                forall|k: int| 0 <= k < i ==> self.entries[k].name@ != name@,
            decreases self.entries.len() - i,
        {
            if same_text(self.entries[i].name.as_str(), name) {
                let found = self.entries[i].clone();
                assert(self.providers()[i as int] == *found);
                assert(self.names()[i as int] == name@);
                assert(etw_created(*self.entries[i as int]));
                return Some(found);
            }
            i += 1;
        }
        assert forall|k: int| 0 <= k < self.names().len() implies self.names()[k] != name@ by {
            assert(self.providers()[k] == *self.entries[k]);
        }
        None
    }

    /// The provider of this name: the one that exists, with the registry
    /// left as it was, or else a new one, made with the given identifier and
    /// in the given Windows group and added at the end. The provider is
    /// marked as new exactly where this call made it, so that its owner
    /// registers it once. `None`, with the registry as it was, for a name
    /// that no Windows provider can have.
    pub fn get_or_create(&mut self, name: &str, id: ProviderId, group: &ProviderGroup) -> (lookup:
        Option<EtwLookup>)
        ensures
            final(self).names().no_duplicates(),
            final(self).names() == etw_names_after(old(self).names(), name@),
            lookup is Some <==> old(self).names().contains(name@) || etw_name_ok(name@),
            lookup matches Some(l) ==> {
                &&& l.provider.name@ == name@
                &&& etw_created(*l.provider)
                &&& l.is_new <==> !old(self).names().contains(name@)
                &&& l.is_new ==> {
                    &&& final(self).providers() == old(self).providers().push(*l.provider)
                    &&& l.provider.id == id
                    &&& l.provider.group@ == group@
                }
                &&& !l.is_new ==> {
                    &&& old(self).providers().contains(*l.provider)
                    &&& final(self).providers() == old(self).providers()
                }
            },
            lookup is None ==> final(self).providers() == old(self).providers(),
    {
        proof {
            use_type_invariant(&*self);
            self.lemma_names_distinct();
        }
        match self.find(name) {
            Some(found) => Some(EtwLookup { provider: found, is_new: false }),
            None => match new_provider(name, id, group) {
                Some(provider) => {
                    let made = Arc::new(
                        EtwProviderWrapper {
                            name: name.to_owned(),
                            id,
                            group: group.duplicate(),
                            provider,
                        },
                    );
                    let shared = made.clone();
                    let mut grown: Vec<Arc<EtwProviderWrapper>> = Vec::new();
                    let mut i: usize = 0;
                    while i < self.entries.len()
                        invariant
                            i <= self.entries.len(),
                            grown@ == self.entries@.take(i as int),
                        decreases self.entries.len() - i,
                    {
                        grown.push(self.entries[i].clone());
                        i += 1;
                    }
                    assert(grown@ == self.entries@);
                    grown.push(made);
                    proof {
                        assert forall|k: int| 0 <= k < old(self).entries.len() implies old(
                            self,
                        ).entries[k].name@ != name@ by {
                            assert(old(self).providers()[k] == *old(self).entries[k]);
                            assert(old(self).names()[k] == old(self).entries[k].name@);
                        }
                    }
                    self.entries = grown;
                    assert(self.providers() =~= old(self).providers().push(*shared));
                    assert(self.names() =~= old(self).names().push(name@));
                    proof {
                        lemma_push_keeps_distinct(old(self).names(), name@);
                    }
                    Some(EtwLookup { provider: shared, is_new: true })
                },
                None => None,
            },
        }
    }
}

/// The Windows providers of a process, for any number of threads at a
/// time.
pub struct EtwProviders {
    providers: ShardedLock<EtwRegistry>,
}

impl EtwProviders {
    /// No providers yet.
    pub fn new() -> (providers: EtwProviders)
    {
        EtwProviders { providers: lock_new(EtwRegistry::new()) }
    }

    /// The provider of this name, where it was made already. Only shared
    /// access to the registry is taken.
    pub fn find(&self, name: &str) -> (provider: Option<Arc<EtwProviderWrapper>>)
        ensures
            provider matches Some(p) ==> p.name@ == name@ && etw_created(*p),
    {
        let guard = lock_read(&self.providers);
        read_target(&guard).find(name)
    }

    /// The provider that a target stands for. It is looked up under shared
    /// access first. Only where it is missing is exclusive access taken, and
    /// there it is looked up once more before it is made, so that of several
    /// threads that miss it at once one makes it, and is told so, and the
    /// others get that one. `None` only for a name that no Windows provider
    /// can have.
    pub fn get_or_create(&self, config: &ExporterConfig, target: &str) -> (lookup: Option<
        EtwLookup,
    >)
        ensures
            etw_name_ok(resolved_name(target@, *config)) ==> lookup is Some,
            lookup matches Some(l) ==> {
                &&& l.provider.name@ == resolved_name(target@, *config)
                &&& etw_created(*l.provider)
                &&& l.is_new ==> l.provider.id.value == resolved_id(target@, *config)
                &&& l.is_new ==> l.provider.group@ == resolved_group(target@, *config)
            },
    {
        let name: &str = config.provider_name_for(target);
        match self.find(name) {
            Some(found) => Some(EtwLookup { provider: found, is_new: false }),
            None => {
                let mut guard = lock_write(&self.providers);
                let registry = write_target(&mut guard);
                etw_provider_for(registry, config, target)
            },
        }
    }
}

/// The Windows provider that a target stands for, from a registry: the one
/// of the target's resolved name where the registry holds it, else a new
/// one of that name, made with the identifier and in the group that the
/// target resolves to.
pub fn etw_provider_for(registry: &mut EtwRegistry, config: &ExporterConfig, target: &str) -> (lookup:
    Option<EtwLookup>)
    ensures
        final(registry).names().no_duplicates(),
        final(registry).names() == etw_names_after(
            old(registry).names(),
            resolved_name(target@, *config),
        ),
        lookup is Some <==> old(registry).names().contains(resolved_name(target@, *config))
            || etw_name_ok(resolved_name(target@, *config)),
        lookup matches Some(l) ==> {
            &&& l.provider.name@ == resolved_name(target@, *config)
            &&& etw_created(*l.provider)
            &&& l.is_new <==> !old(registry).names().contains(resolved_name(target@, *config))
            &&& l.is_new ==> {
                &&& final(registry).providers() == old(registry).providers().push(*l.provider)
                &&& l.provider.id.value == resolved_id(target@, *config)
                &&& l.provider.group@ == resolved_group(target@, *config)
            }
            &&& !l.is_new ==> {
                &&& old(registry).providers().contains(*l.provider)
                &&& final(registry).providers() == old(registry).providers()
            }
        },
        lookup is None ==> final(registry).providers() == old(registry).providers(),
{
    let name: &str = config.provider_name_for(target);
    let id = config.provider_id_for(target);
    let group = config.provider_group_for(target);
    registry.get_or_create(name, id, &group)
}

} // verus!
