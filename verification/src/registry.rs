//! The provider registry: at most one provider per name, created at the
//! first use of the name and kept from then on. Nothing is ever removed.
//!
//! The providers stand in a vector in the order of their creation, and a
//! lookup walks it: a process has few providers, and that no name occurs
//! twice is an invariant of the type.

use crate::provider::ProviderGroup;
use crate::provider::ProviderId;
use crate::provider::ProviderWrapper;
use crate::field::same_text;
use crate::provider::default_sets;
use crate::provider::linux_group_name;
use crate::provider::provider_identity;
use crate::provider::provider_name_ok;
use crate::provider::provider_sets;
use std::sync::Arc;
use vstd::prelude::*;

verus! {

/// Whether a provider is as `ProviderWrapper::new` makes one: its name is
/// one that a provider can have, the provider behind it was made with that
/// name and with its group, and it holds the default event sets.
pub open spec fn created(provider: ProviderWrapper) -> bool {
    &&& provider_name_ok(provider.name@, Seq::empty())
    &&& provider_identity(provider.provider) == (
        provider.name@,
        linux_group_name(provider.group@),
    )
    &&& provider_sets(provider.provider) == default_sets()
}

/// The names of a registry after a call for the provider `name` in the Linux
/// group `group`: as they were where the name is there already or no
/// provider can have it, else with the name at the end.
pub open spec fn names_after(names: Seq<Seq<char>>, name: Seq<char>, group: Seq<char>) -> Seq<
    Seq<char>,
> {
    if names.contains(name) || !provider_name_ok(name, group) {
        names
    } else {
        names.push(name)
    }
}

/// The names of a registry after one call for each of `calls`, in order. A
/// call is a provider's name with the name of its Linux group.
pub open spec fn names_after_all(names: Seq<Seq<char>>, calls: Seq<(Seq<char>, Seq<char>)>) -> Seq<
    Seq<char>,
>
    decreases calls.len(),
{
    if calls.len() == 0 {
        names
    } else {
        names_after(names_after_all(names, calls.drop_last()), calls.last().0, calls.last().1)
    }
}

/// The providers that were created so far, in the order of their creation.
pub struct Registry {
    entries: Vec<Arc<ProviderWrapper>>,
}

impl Registry {
    /// No two providers share a name, and every provider is as it was
    /// created.
    #[verifier::type_invariant]
    spec fn distinct(self) -> bool {
        &&& forall|i: int, j: int|
            0 <= i < j < self.entries.len() ==> self.entries[i].name@ != self.entries[j].name@
        &&& forall|i: int|
            0 <= i < self.entries.len() ==> created(*#[trigger] self.entries[i])
    }

    /// The providers, in the order of their creation.
    pub closed spec fn providers(self) -> Seq<ProviderWrapper> {
        self.entries@.map_values(|e: Arc<ProviderWrapper>| *e)
    }

    /// The names of the providers, in the order of their creation.
    pub open spec fn names(self) -> Seq<Seq<char>> {
        self.providers().map_values(|p: ProviderWrapper| p.name@)
    }

    /// Providers with distinct names have distinct names.
    proof fn lemma_names_distinct(self)
        requires
            self.distinct(),
        ensures
            self.names().no_duplicates(),
    {
        assert forall|i: int, j: int|
            0 <= i < self.names().len() && 0 <= j < self.names().len() && i != j implies self.names()[i]
            != self.names()[j] by {
            assert(self.providers()[i] == *self.entries[i]);
            assert(self.providers()[j] == *self.entries[j]);
            if i < j {
                assert(self.entries[i].name@ != self.entries[j].name@);
            } else {
                assert(self.entries[j].name@ != self.entries[i].name@);
            }
        }
    }

    /// An empty registry.
    pub fn new() -> (registry: Registry)
        ensures
            registry.providers() == Seq::<ProviderWrapper>::empty(),
            registry.names() == Seq::<Seq<char>>::empty(),
    {
        let registry = Registry { entries: Vec::new() };
        assert(registry.providers() =~= Seq::<ProviderWrapper>::empty());
        assert(registry.names() =~= Seq::<Seq<char>>::empty());
        registry
    }

    /// The number of providers, which is the number of names: no name has
    /// two providers.
    pub fn len(&self) -> (n: usize)
        ensures
            n == self.providers().len(),
            n == self.names().len(),
            self.names().no_duplicates(),
    {
        proof {
            use_type_invariant(self);
            self.lemma_names_distinct();
        }
        self.entries.len()
    }

    /// Whether a provider of this name exists.
    pub fn contains(&self, name: &str) -> (found: bool)
        ensures
            found == self.names().contains(name@),
    {
        self.find(name).is_some()
    }

    /// The provider of this name, where one exists.
    pub fn find(&self, name: &str) -> (found: Option<Arc<ProviderWrapper>>)
        ensures
            found is Some <==> self.names().contains(name@),
            found matches Some(p) ==> {
                &&& p.name@ == name@
                &&& created(*p)
                &&& self.providers().contains(*p)
            },
    {
        proof {
            use_type_invariant(self);
        }
        let mut i: usize = 0;
        while i < self.entries.len()
            invariant
                i <= self.entries.len(),
                forall|k: int| 0 <= k < self.entries.len() ==> created(*#[trigger] self.entries[k]),
                forall|k: int| 0 <= k < i ==> self.entries[k].name@ != name@,
            decreases self.entries.len() - i,
        {
            if same_text(self.entries[i].name.as_str(), name) {
                let found = self.entries[i].clone();
                assert(self.providers()[i as int] == *found);
                assert(self.names()[i as int] == name@);
                assert(created(*self.entries[i as int]));
                return Some(found);
            }
            i += 1;
        }
        assert forall|k: int| 0 <= k < self.names().len() implies self.names()[k] != name@ by {
            assert(self.providers()[k] == *self.entries[k]);
        }
        None
    }

    /// The provider of this name: the one that exists, with the registry
    /// left as it was, or else a new one, created with the given identifier
    /// and group and added at the end. A second provider for a name is never
    /// created. `None`, with the registry as it was, for a name that no
    /// provider can have.
    pub fn get_or_create(&mut self, name: &str, id: ProviderId, group: &ProviderGroup) -> (provider:
        Option<Arc<ProviderWrapper>>)
        ensures
            final(self).names().no_duplicates(),
            final(self).names() == names_after(old(self).names(), name@, linux_group_name(group@)),
            old(self).names().contains(name@) ==> {
                &&& provider is Some
                &&& old(self).providers().contains(*provider->0)
                &&& final(self).providers() == old(self).providers()
            },
            !old(self).names().contains(name@) && provider_name_ok(
                name@,
                linux_group_name(group@),
            ) ==> {
                &&& provider is Some
                &&& final(self).providers() == old(self).providers().push(*provider->0)
                &&& provider->0.id == id
                &&& provider->0.group@ == group@
            },
            !old(self).names().contains(name@) && !provider_name_ok(
                name@,
                linux_group_name(group@),
            ) ==> provider is None && final(self).providers() == old(self).providers(),
            provider matches Some(p) ==> p.name@ == name@ && created(*p),
    {
        proof {
            use_type_invariant(&*self);
            self.lemma_names_distinct();
        }
        match self.find(name) {
            Some(found) => Some(found),
            None => match ProviderWrapper::new(name, id, group) {
                Some(wrapper) => {
                    let created = Arc::new(wrapper);
                    let shared = created.clone();
                    let mut grown: Vec<Arc<ProviderWrapper>> = Vec::new();
                    let mut i: usize = 0;
                    while i < self.entries.len()
                        invariant
                            i <= self.entries.len(),
                            grown@ == self.entries@.take(i as int),
                        decreases self.entries.len() - i,
                    {
                        grown.push(self.entries[i].clone());
                        i += 1;
                    }
                    assert(grown@ == self.entries@);
                    grown.push(created);
                    proof {
                        assert forall|k: int| 0 <= k < old(self).entries.len() implies old(
                            self,
                        ).entries[k].name@ != name@ by {
                            assert(old(self).providers()[k] == *old(self).entries[k]);
                            assert(old(self).names()[k] == old(self).entries[k].name@);
                        }
                        lemma_name_ok_without_group(name@, linux_group_name(group@));
                    }
                    self.entries = grown;
                    assert(self.providers() =~= old(self).providers().push(*shared));
                    assert(self.names() =~= old(self).names().push(name@));
                    proof {
                        lemma_push_keeps_distinct(old(self).names(), name@);
                    }
                    Some(shared)
                },
                None => None,
            },
        }
    }
}

/// A name that does not occur among distinct names can be added to them.
pub proof fn lemma_push_keeps_distinct(names: Seq<Seq<char>>, name: Seq<char>)
    requires
        names.no_duplicates(),
        !names.contains(name),
    ensures
        names.push(name).no_duplicates(),
{
    let grown = names.push(name);
    assert forall|i: int, j: int| 0 <= i < grown.len() && 0 <= j < grown.len() && i != j implies grown[i]
        != grown[j] by {
        if i < names.len() {
            assert(names.contains(names[i]));
        }
        if j < names.len() {
            assert(names.contains(names[j]));
        }
    }
}

/// A name that a provider can have in some group, it can have in none.
pub proof fn lemma_name_ok_without_group(name: Seq<char>, group: Seq<char>)
    requires
        provider_name_ok(name, group),
    ensures
        provider_name_ok(name, Seq::empty()),
{
    assert(vstd::utf8::encode_utf8(Seq::<char>::empty()).len() == 0) by {
        reveal_with_fuel(vstd::utf8::encode_utf8, 1);
    }
}

/// Calls never take a name away, never give a name twice, and add no name
/// but the ones that were called for.
pub proof fn lemma_calls_keep_names_distinct(
    names: Seq<Seq<char>>,
    calls: Seq<(Seq<char>, Seq<char>)>,
)
    requires
        names.no_duplicates(),
    ensures
        names_after_all(names, calls).no_duplicates(),
        forall|name: Seq<char>| names.contains(name) ==> names_after_all(names, calls).contains(name),
        forall|name: Seq<char>|
            names_after_all(names, calls).contains(name) ==> names.contains(name) || exists|i: int|
                0 <= i < calls.len() && (#[trigger] calls[i]).0 == name,
    decreases calls.len(),
{
    if calls.len() > 0 {
        let front = calls.drop_last();
        lemma_calls_keep_names_distinct(names, front);
        let before = names_after_all(names, front);
        let after = names_after_all(names, calls);
        let last = calls.last();
        if !before.contains(last.0) && provider_name_ok(last.0, last.1) {
            lemma_push_keeps_distinct(before, last.0);
            assert forall|name: Seq<char>| before.contains(name) implies after.contains(name) by {
                let k = choose|k: int| 0 <= k < before.len() && before[k] == name;
                assert(after[k] == name);
            }
        }
        assert forall|name: Seq<char>| after.contains(name) implies names.contains(name) || exists|
            i: int,
        |
            0 <= i < calls.len() && (#[trigger] calls[i]).0 == name by {
            if before.contains(name) {
                if !names.contains(name) {
                    let i = choose|i: int| 0 <= i < front.len() && (#[trigger] front[i]).0 == name;
                    assert(calls[i].0 == name);
                }
            } else {
                let k = choose|k: int| 0 <= k < after.len() && after[k] == name;
                assert(k == before.len());
                assert(calls[calls.len() - 1].0 == name);
            }
        }
    }
}

/// Any number of first calls for one name give one provider: after one or
/// more calls for a name that was missing and that a provider can have, the
/// registry holds that name once, at the end, and nothing else is new. In
/// whichever order callers that miss the name together get their turn, one
/// of them creates the provider and the others find it.
pub proof fn lemma_first_calls_create_once(
    names: Seq<Seq<char>>,
    name: Seq<char>,
    group: Seq<char>,
    count: nat,
)
    requires
        !names.contains(name),
        provider_name_ok(name, group),
        count >= 1,
    ensures
        names_after_all(names, Seq::new(count, |i: int| (name, group))) == names.push(name),
    decreases count,
{
    let calls = Seq::new(count, |i: int| (name, group));
    let front = Seq::new((count - 1) as nat, |i: int| (name, group));
    assert(calls.drop_last() =~= front);
    assert(calls.last() == (name, group));
    if count == 1 {
        assert(names_after_all(names, front) == names);
    } else {
        lemma_first_calls_create_once(names, name, group, (count - 1) as nat);
        let before = names.push(name);
        assert(before[names.len() as int] == name);
        assert(before.contains(name));
    }
}

} // verus!
