//! The logger: its configuration, the builder that makes one, and the
//! logger itself with its registry of providers.

use crate::level::Level;
use crate::level::map_level;
use crate::provider::DEFAULT_KEYWORD;
use crate::provider::ProviderGroup;
use crate::provider::ProviderGroupView;
use crate::provider::ProviderId;
use crate::provider::ProviderWrapper;
use crate::provider::WriteOutcome;
use crate::provider::is_valid_group_name;
use crate::provider::linux_group_name;
use crate::provider::name_guid;
use crate::provider::option_value_ok;
use crate::provider::provider_name_ok;
use crate::provider::record_written;
use crate::record::Record;
use crate::registry::Registry;
use crate::registry::created;
use crate::registry::names_after;
use crate::time::Timestamp;
use crate::trace::TraceContext;
use crossbeam_utils::sync::ShardedLock;
use crossbeam_utils::sync::ShardedLockReadGuard;
use crossbeam_utils::sync::ShardedLockWriteGuard;
use eventheader_dynamic::EventBuilder;
use std::sync::Arc;
use vstd::prelude::*;

verus! {

/// What a logger is made with.
#[derive(Clone, Debug, PartialEq, Eq)]
pub struct ExporterConfig {
    pub default_provider_name: String,
    pub default_provider_id: ProviderId,
    pub default_provider_group: ProviderGroup,
    pub json: bool,
    pub common_schema: bool,
}

/// Why a configuration was refused.
#[derive(Clone, Copy, Debug, PartialEq, Eq, Structural)]
pub enum ConfigError {
    /// The identifier of a Windows provider group is all zeros.
    ZeroGroupId,
    /// The name of a Linux provider group holds something other than ASCII
    /// digits and lower-case ASCII letters.
    InvalidGroupName,
}

/// The fault of a provider group, where it has one.
pub open spec fn group_error(group: ProviderGroupView) -> Option<ConfigError> {
    match group {
        ProviderGroupView::Unset => None,
        ProviderGroupView::Windows(id) => if id.value == 0 {
            Some(ConfigError::ZeroGroupId)
        } else {
            None
        },
        ProviderGroupView::Linux(name) => if option_value_ok(name) {
            None
        } else {
            Some(ConfigError::InvalidGroupName)
        },
    }
}

/// Collects the settings of a logger.
#[derive(Clone, Debug, PartialEq, Eq)]
pub struct ExporterBuilder {
    pub provider_name: String,
    pub provider_id: ProviderId,
    pub provider_group: ProviderGroup,
    pub json: bool,
    pub emit_common_schema_events: bool,
}

/// Starts the settings of a logger whose default provider has the given
/// name. The provider's identifier is the one that the name hashes to; no
/// group is joined, and both payload modes are off.
pub fn new_logger(name: &str) -> (builder: ExporterBuilder)
    ensures
        builder.provider_name@ == name@,
        builder.provider_id.value == name_guid(name@),
        builder.provider_group@ == ProviderGroupView::Unset,
        !builder.json,
        !builder.emit_common_schema_events,
{
    ExporterBuilder {
        provider_name: name.to_owned(),
        provider_id: ProviderId::from_name(name),
        provider_group: ProviderGroup::Unset,
        json: false,
        emit_common_schema_events: false,
    }
}

impl ExporterBuilder {
    /// Gives the default provider an identifier of the caller's choice in
    /// place of the one that its name hashes to.
    pub fn with_provider_id(self, guid: ProviderId) -> (builder: ExporterBuilder)
        ensures
            builder.provider_id == guid,
            builder.provider_name == self.provider_name,
            builder.provider_group == self.provider_group,
            builder.json == self.json,
            builder.emit_common_schema_events == self.emit_common_schema_events,
    {
        let mut builder = self;
        builder.provider_id = guid;
        builder
    }

    /// The identifier that the default provider will have.
    pub fn get_provider_id(&self) -> (guid: ProviderId)
        ensures
            guid == self.provider_id,
    {
        self.provider_id
    }

    /// Writes the key-values of an event as one JSON text in place of one
    /// field per key.
    pub fn with_json_payload(self) -> (builder: ExporterBuilder)
        ensures
            builder.json,
            builder.provider_name == self.provider_name,
            builder.provider_id == self.provider_id,
            builder.provider_group == self.provider_group,
            builder.emit_common_schema_events == self.emit_common_schema_events,
    {
        let mut builder = self;
        builder.json = true;
        builder
    }

    /// Writes Common Schema events.
    pub fn with_common_schema_events(self) -> (builder: ExporterBuilder)
        ensures
            builder.emit_common_schema_events,
            builder.provider_name == self.provider_name,
            builder.provider_id == self.provider_id,
            builder.provider_group == self.provider_group,
            builder.json == self.json,
    {
        let mut builder = self;
        builder.emit_common_schema_events = true;
        builder
    }

    /// Joins the default provider to the Linux provider group of this name.
    pub fn with_provider_group(self, name: &str) -> (builder: ExporterBuilder)
        ensures
            builder.provider_group@ == ProviderGroupView::Linux(name@),
            builder.provider_name == self.provider_name,
            builder.provider_id == self.provider_id,
            builder.json == self.json,
            builder.emit_common_schema_events == self.emit_common_schema_events,
    {
        let mut builder = self;
        builder.provider_group = ProviderGroup::Linux(name.to_owned());
        builder
    }

    /// Joins the default provider to the Windows provider group of this
    /// identifier.
    pub fn with_provider_group_id(self, group_id: ProviderId) -> (builder: ExporterBuilder)
        ensures
            builder.provider_group@ == ProviderGroupView::Windows(group_id),
            builder.provider_name == self.provider_name,
            builder.provider_id == self.provider_id,
            builder.json == self.json,
            builder.emit_common_schema_events == self.emit_common_schema_events,
    {
        let mut builder = self;
        builder.provider_group = ProviderGroup::Windows(group_id);
        builder
    }

    /// The fault of the settings, where they have one: a Windows group with
    /// the identifier of all zeros, or a Linux group whose name is not made
    /// of ASCII digits and lower-case ASCII letters alone.
    pub fn config_fault(&self) -> (fault: Option<ConfigError>)
        ensures
            fault == group_error(self.provider_group@),
    {
        match &self.provider_group {
            ProviderGroup::Unset => None,
            ProviderGroup::Windows(guid) => {
                if guid.is_zero() {
                    Some(ConfigError::ZeroGroupId)
                } else {
                    None
                }
            },
            ProviderGroup::Linux(name) => {
                if is_valid_group_name(name.as_str()) {
                    None
                } else {
                    Some(ConfigError::InvalidGroupName)
                }
            },
        }
    }

    /// Settings with a fault are fatal: they are not to be handed on. What
    /// the fault of given settings is, `config_fault` tells.
    pub fn validate_config(&self)
        requires
            group_error(self.provider_group@) is None,
    {
    }
}

impl ExporterBuilder {
    /// Makes the logger from settings without a fault. Nothing is created
    /// for settings that have one: they are left out here, and a caller
    /// that cannot know asks `config_fault` first.
    pub fn install(self) -> (logger: EtwEventHeaderLogger)
        requires
            group_error(self.provider_group@) is None,
        ensures
            logger.configuration().default_provider_name == self.provider_name,
            logger.configuration().default_provider_id == self.provider_id,
            logger.configuration().default_provider_group == self.provider_group,
            logger.configuration().json == self.json,
            logger.configuration().common_schema == self.emit_common_schema_events,
    {
        self.validate_config();
        EtwEventHeaderLogger::new(
            ExporterConfig {
                default_provider_name: self.provider_name,
                default_provider_id: self.provider_id,
                default_provider_group: self.provider_group,
                json: self.json,
                common_schema: self.emit_common_schema_events,
            },
        )
    }
}

/// `crossbeam_utils::sync::ShardedLock`: a lock for many readers or one
/// writer.
#[verifier::external_type_specification]
#[verifier::external_body]
#[verifier::reject_recursive_types(T)]
pub struct ExShardedLock<T: ?Sized>(ShardedLock<T>);

/// `crossbeam_utils::sync::ShardedLockReadGuard`: shared access to what a
/// lock holds, until it is dropped.
#[verifier::external_type_specification]
#[verifier::external_body]
#[verifier::reject_recursive_types(T)]
pub struct ExShardedLockReadGuard<'a, T: ?Sized>(ShardedLockReadGuard<'a, T>);

/// `crossbeam_utils::sync::ShardedLockWriteGuard`: exclusive access to what
/// a lock holds, until it is dropped.
#[verifier::external_type_specification]
#[verifier::external_body]
#[verifier::reject_recursive_types(T)]
pub struct ExShardedLockWriteGuard<'a, T: ?Sized>(ShardedLockWriteGuard<'a, T>);

/// `ShardedLock::new`: a lock that holds the value.
#[verifier::external_body]
pub(crate) fn lock_new<T>(value: T) -> (lock: ShardedLock<T>)
{
    ShardedLock::new(value)
}

/// `ShardedLock::read`: waits for shared access. A lock that a panicking
/// writer poisoned is read all the same. Other threads may have changed
/// what the lock holds since it was last seen, so nothing is said of it.
#[verifier::external_body]
pub(crate) fn lock_read<'a, T>(lock: &'a ShardedLock<T>) -> (guard: ShardedLockReadGuard<'a, T>)
{
    match lock.read() {
        Ok(guard) => guard,
        Err(poisoned) => poisoned.into_inner(),
    }
}

/// `ShardedLock::write`: waits for exclusive access. A lock that a
/// panicking writer poisoned is taken all the same.
#[verifier::external_body]
pub(crate) fn lock_write<'a, T>(lock: &'a ShardedLock<T>) -> (guard: ShardedLockWriteGuard<'a, T>)
{
    match lock.write() {
        Ok(guard) => guard,
        Err(poisoned) => poisoned.into_inner(),
    }
}

/// `Deref::deref` of a read guard: what the lock holds.
#[verifier::external_body]
pub(crate) fn read_target<'a, 'b, T>(guard: &'b ShardedLockReadGuard<'a, T>) -> (value: &'b T)
{
    &**guard
}

/// `DerefMut::deref_mut` of a write guard: what the lock holds.
#[verifier::external_body]
pub(crate) fn write_target<'a, 'b, T>(guard: &'b mut ShardedLockWriteGuard<'a, T>) -> (value:
    &'b mut T)
{
    &mut **guard
}

/// The logger: a configuration and the providers that were created for it.
/// Any number of threads may use one logger at a time.
pub struct EtwEventHeaderLogger {
    exporter_config: ExporterConfig,
    providers: ShardedLock<Registry>,
}

/// The name of the provider that a target stands for: the target itself,
/// or the default provider's name where the target is empty.
pub open spec fn resolved_name(target: Seq<char>, config: ExporterConfig) -> Seq<char> {
    if target.len() > 0 {
        target
    } else {
        config.default_provider_name@
    }
}

/// The identifier of the provider that a target stands for: the one that
/// the target hashes to, or the default provider's where the target is
/// empty.
pub open spec fn resolved_id(target: Seq<char>, config: ExporterConfig) -> u128 {
    if target.len() > 0 {
        name_guid(target)
    } else {
        config.default_provider_id.value
    }
}

/// The group of the provider that a target stands for: none, or the default
/// provider's where the target is empty.
pub open spec fn resolved_group(target: Seq<char>, config: ExporterConfig) -> ProviderGroupView {
    if target.len() > 0 {
        ProviderGroupView::Unset
    } else {
        config.default_provider_group@
    }
}

/// Whether the provider that a target stands for can be created.
pub open spec fn can_create(target: Seq<char>, config: ExporterConfig) -> bool {
    provider_name_ok(
        resolved_name(target, config),
        linux_group_name(resolved_group(target, config)),
    )
}

impl ExporterConfig {
    /// The name of the provider that a target stands for: a target that is
    /// not empty names its own provider, whatever the default is.
    pub fn provider_name_for<'a>(&'a self, target: &'a str) -> (name: &'a str)
        ensures
            name@ == resolved_name(target@, *self),
    {
        if !target.is_empty() {
            target
        } else {
            self.default_provider_name.as_str()
        }
    }

    /// The identifier that the provider of a target is created with.
    pub fn provider_id_for(&self, target: &str) -> (id: ProviderId)
        ensures
            id.value == resolved_id(target@, *self),
    {
        if !target.is_empty() {
            ProviderId::from_name(target)
        } else {
            self.default_provider_id
        }
    }

    /// The group that the provider of a target is created in.
    pub fn provider_group_for(&self, target: &str) -> (group: ProviderGroup)
        ensures
            group@ == resolved_group(target@, *self),
    {
        if !target.is_empty() {
            ProviderGroup::Unset
        } else {
            self.default_provider_group.duplicate()
        }
    }
}

/// The provider that a target stands for, from a registry: the one of the
/// target's resolved name where the registry holds it, else a new one of
/// that name, created with the identifier and in the group that the target
/// resolves to and added at the end.
pub fn provider_for(registry: &mut Registry, config: &ExporterConfig, target: &str) -> (provider:
    Option<Arc<ProviderWrapper>>)
    ensures
        final(registry).names() == names_after(
            old(registry).names(),
            resolved_name(target@, *config),
            linux_group_name(resolved_group(target@, *config)),
        ),
        final(registry).names().no_duplicates(),
        old(registry).names().contains(resolved_name(target@, *config)) ==> {
            &&& provider is Some
            &&& old(registry).providers().contains(*provider->0)
            &&& final(registry).providers() == old(registry).providers()
        },
        !old(registry).names().contains(resolved_name(target@, *config)) && can_create(
            target@,
            *config,
        ) ==> {
            &&& provider is Some
            &&& final(registry).providers() == old(registry).providers().push(*provider->0)
            &&& provider->0.id.value == resolved_id(target@, *config)
            &&& provider->0.group@ == resolved_group(target@, *config)
        },
        !old(registry).names().contains(resolved_name(target@, *config)) && !can_create(
            target@,
            *config,
        ) ==> provider is None && final(registry).providers() == old(registry).providers(),
        provider matches Some(p) ==> p.name@ == resolved_name(target@, *config) && created(*p),
{
    let name: &str = config.provider_name_for(target);
    let id = config.provider_id_for(target);
    let group = config.provider_group_for(target);
    registry.get_or_create(name, id, &group)
}

impl EtwEventHeaderLogger {
    /// The configuration that the logger was made with.
    pub closed spec fn configuration(self) -> ExporterConfig {
        self.exporter_config
    }

    /// The configuration that the logger was made with.
    pub fn config(&self) -> (config: &ExporterConfig)
        ensures
            *config == self.configuration(),
    {
        &self.exporter_config
    }

    /// A logger with this configuration and no providers yet.
    pub fn new(exporter_config: ExporterConfig) -> (logger: EtwEventHeaderLogger)
        ensures
            logger.configuration() == exporter_config,
    {
        EtwEventHeaderLogger { exporter_config, providers: lock_new(Registry::new()) }
    }

    /// The provider of this name, where it was created already. Only shared
    /// access to the registry is taken.
    pub fn find_provider(&self, name: &str) -> (provider: Option<Arc<ProviderWrapper>>)
        ensures
            provider matches Some(p) ==> p.name@ == name@ && created(*p),
    {
        let guard = lock_read(&self.providers);
        read_target(&guard).find(name)
    }

    /// The number of providers that were created so far.
    pub fn provider_count(&self) -> (count: usize)
    {
        let guard = lock_read(&self.providers);
        read_target(&guard).len()
    }

    /// The provider that a target stands for. It is looked up under shared
    /// access first. Only where it is missing is exclusive access taken, and
    /// there it is looked up once more before it is created, so that of
    /// several threads that miss it at once one creates it and the others
    /// get that one. `None` only for a provider that cannot be created.
    pub fn get_or_create_provider(&self, target: &str) -> (provider: Option<Arc<ProviderWrapper>>)
        ensures
            can_create(target@, self.configuration()) ==> provider is Some,
            provider matches Some(p) ==> {
                &&& p.name@ == resolved_name(target@, self.configuration())
                &&& created(*p)
            },
    {
        let config = &self.exporter_config;
        let name: &str = config.provider_name_for(target);
        match self.find_provider(name) {
            Some(found) => Some(found),
            None => {
                let mut guard = lock_write(&self.providers);
                let registry = write_target(&mut guard);
                provider_for(registry, config, target)
            },
        }
    }

    /// Whether a session listens for records of this level that go to this
    /// target, with the default keyword. The target's provider is created
    /// where it was missing. A target that no provider can stand for is
    /// never enabled.
    pub fn enabled(&self, level: Level, target: &str) -> (enabled: bool)
        ensures
            enabled ==> provider_name_ok(resolved_name(target@, self.configuration()), Seq::empty()),
    {
        match self.get_or_create_provider(target) {
            Some(provider) => {
                provider.enabled(map_level(level), DEFAULT_KEYWORD)
            },
            None => false,
        }
    }

    /// Nothing is buffered, so there is nothing to flush.
    pub fn flush(&self) {
    }

    /// Writes a record through the provider that its target stands for,
    /// which is created where it was missing: its native event and, in
    /// Common Schema mode, its Common Schema event in addition. Nothing is
    /// encoded where nobody listens, where the keyword is not the default
    /// one, for which alone providers hold event sets, or where the target
    /// is a name that no provider can have.
    pub fn log(
        &self,
        builder: &mut EventBuilder,
        timestamp: &Timestamp,
        trace: Option<TraceContext>,
        event_name: &str,
        keyword: u64,
        record: &Record,
    ) -> (outcome: WriteOutcome)
        ensures
            keyword != DEFAULT_KEYWORD ==> outcome is Disabled,
            !provider_name_ok(
                resolved_name(record@.target, self.configuration()),
                Seq::empty(),
            ) ==> outcome is Disabled,
            record_written(
                outcome,
                *old(builder),
                *final(builder),
                *timestamp,
                trace,
                event_name@,
                keyword,
                record@,
                self.configuration().json,
                self.configuration().common_schema,
            ),
    {
        match self.get_or_create_provider(record.target.as_str()) {
            Some(provider) => provider.write_record(
                builder,
                timestamp,
                trace,
                event_name,
                keyword,
                record,
                &self.exporter_config,
            ),
            None => WriteOutcome::Disabled,
        }
    }
}

/// A target that is not empty overrides the default provider: the provider
/// that it stands for has the target's name, the identifier that the target
/// hashes to and no group, whatever the configuration says.
pub proof fn lemma_target_overrides_default(target: Seq<char>, config: ExporterConfig)
    requires
        target.len() > 0,
    ensures
        resolved_name(target, config) == target,
        resolved_id(target, config) == name_guid(target),
        resolved_group(target, config) == ProviderGroupView::Unset,
{
}

/// An empty target stands for the default provider as it was configured.
pub proof fn lemma_empty_target_is_default(config: ExporterConfig)
    ensures
        resolved_name(Seq::empty(), config) == config.default_provider_name@,
        resolved_id(Seq::empty(), config) == config.default_provider_id.value,
        resolved_group(Seq::empty(), config) == config.default_provider_group@,
{
}

} // verus!
