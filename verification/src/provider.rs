//! A provider: the named endpoint through which events reach the kernel.
//!
//! A provider is an `eventheader_dynamic::Provider` with its identity. It
//! is created once, registers one event set per native level for the default
//! keyword, and is never changed after that, so it can be shared freely.
//!
//! A record goes out through the event set of its own level and keyword, as
//! its native event and, in Common Schema mode, as its Common Schema event
//! in addition.

use crate::common_schema::common_schema_event;
use crate::common_schema::encode_common_schema;
use crate::field::Backend;
use crate::field::Event;
use crate::field::EventView;
use crate::field::lemma_ascii_byte_chars;
use crate::field::nul_free;
use crate::fits::lemma_common_schema_event_supported;
use crate::fits::lemma_native_event_supported;
use crate::fits::lemma_short_ascii_fits;
use crate::fits::record_fits;
use crate::fits::text_fits;
use crate::level::NATIVE_ERROR;
use crate::level::NATIVE_VERBOSE;
use crate::level::map_level;
use crate::level::native_level;
use crate::logger::ExporterConfig;
use crate::native::encode_native_user_events;
use crate::native::native_event;
use crate::native::user_events_time_field;
use crate::record::Record;
use crate::record::RecordView;
use crate::sink::builder_fields;
use crate::sink::builder_name;
use crate::sink::builder_opcode;
use crate::sink::event_supported;
use crate::sink::same_event;
use crate::sink::send_event;
use crate::sink::stored_fields;
use crate::time::Timestamp;
use crate::time::utc_rfc3339;
use crate::trace::TraceContext;
use eventheader::Level;
use eventheader_dynamic::EventBuilder;
use eventheader_dynamic::EventSet;
use eventheader_dynamic::Provider;
use tracelogging::Guid;
use std::sync::Arc;
use vstd::prelude::*;
use vstd::utf8::encode_utf8;

verus! {

/// `eventheader_dynamic::Provider`: a connection for writing tracepoints.
/// Nothing inside it is visible here.
#[verifier::external_type_specification]
#[verifier::external_body]
pub struct ExProvider(Provider);

/// The keyword of a call site that supplies none: no restriction.
pub const DEFAULT_KEYWORD: u64 = 0;

/// One more than the most bytes that a provider's name and its group's name
/// can have together.
pub const NAMES_LIMIT: usize = 234;

/// The 128-bit identifier that `tracelogging::Guid::from_name` derives from
/// a provider name, read as a big-endian number. The same name always gives
/// the same identifier.
pub uninterp spec fn name_guid(name: Seq<char>) -> u128;

/// The pairs of level and keyword for which a provider holds an event set.
pub uninterp spec fn provider_sets(provider: Provider) -> Set<(u8, u64)>;

/// The name that a provider was made with and the name of its group, which
/// is empty where it joined none.
pub uninterp spec fn provider_identity(provider: Provider) -> (Seq<char>, Seq<char>);

/// The level and keyword that an event set was made for. An event that is
/// written through the set goes out with them.
pub uninterp spec fn event_set_key(set: EventSet) -> (u8, u64);

/// `tracelogging::Guid::from_name`, its result read through
/// `Guid::to_bytes_be` as one big-endian number. The hash itself is not
/// stated: the contract only gives the result its name.
#[verifier::external_body]
fn guid_from_name(name: &str) -> (id: u128)
    ensures
        id == name_guid(name@),
{
    u128::from_be_bytes(Guid::from_name(name).to_bytes_be())
}

/// `Provider::new`, with the group name set through
/// `ProviderOptions::group_name`. The new provider has the given name and
/// group and holds no event set. The call panics where the two names
/// together have 234 bytes or more, and asserts in debug builds that the
/// provider's name holds no NUL, space or colon and that the group's name is
/// made of digits and lower-case letters.
#[verifier::external_body]
fn provider_new(name: &str, group: &str) -> (provider: Provider)
    requires
        provider_name_ok(name@, group@),
    ensures
        provider_sets(provider) == Set::<(u8, u64)>::empty(),
        provider_identity(provider) == (name@, group@),
{
    let mut options = Provider::new_options();
    options.group_name(group);
    Provider::new(name, &options)
}

/// `Provider::register_set` with `Level::from_int`: the provider holds an
/// event set for the level and keyword from now on, beside those it held,
/// and hands back that set; its name and group stay. Whether the kernel
/// took the registration shows only in the set. For a pair that the
/// provider does not hold yet, the call writes the provider's name and the
/// name of its group into a C string and panics where one of them holds a
/// NUL.
#[verifier::external_body]
fn provider_register_set(provider: &mut Provider, level: u8, keyword: u64) -> (set: Arc<EventSet>)
    requires
        registrable(provider_identity(*old(provider))),
    ensures
        provider_identity(*final(provider)) == provider_identity(*old(provider)),
        provider_sets(*final(provider)) == provider_sets(*old(provider)).insert((level, keyword)),
        event_set_key(*set) == (level, keyword),
{
    provider.register_set(Level::from_int(level), keyword)
}

/// `Provider::find_set` with `Level::from_int`: the event set that was made
/// for the level and keyword, where the provider holds one.
#[verifier::external_body]
fn provider_find_set(provider: &Provider, level: u8, keyword: u64) -> (set: Option<Arc<EventSet>>)
    ensures
        set is Some <==> provider_sets(*provider).contains((level, keyword)),
        set matches Some(found) ==> event_set_key(*found) == (level, keyword),
{
    provider.find_set(Level::from_int(level), keyword)
}

/// `EventSet::enabled`: whether a session is listening to the set right
/// now. The answer belongs to the kernel and can change at any time.
#[verifier::external_body]
fn event_set_enabled(set: &Arc<EventSet>) -> (enabled: bool)
{
    set.enabled()
}

/// A 128-bit provider identifier, as the big-endian number of its bytes.
#[derive(Clone, Copy, Debug, PartialEq, Eq, Structural)]
pub struct ProviderId {
    pub value: u128,
}

impl ProviderId {
    /// The identifier that a provider name hashes to.
    pub fn from_name(name: &str) -> (id: ProviderId)
        ensures
            id.value == name_guid(name@),
    {
        ProviderId { value: guid_from_name(name) }
    }

    /// The identifier of all zeros.
    pub fn zero() -> (id: ProviderId)
        ensures
            id.value == 0,
    {
        ProviderId { value: 0 }
    }

    /// Whether this is the identifier of all zeros.
    pub fn is_zero(&self) -> (zero: bool)
        ensures
            zero == (self.value == 0),
    {
        self.value == 0
    }
}

/// The group that a provider joins.
#[derive(Clone, Debug, PartialEq, Eq)]
pub enum ProviderGroup {
    Unset,
    /// A Windows provider group, by its identifier.
    Windows(ProviderId),
    /// A Linux provider group, by its name.
    Linux(String),
}

/// The mathematical form of a [`ProviderGroup`].
pub enum ProviderGroupView {
    Unset,
    Windows(ProviderId),
    Linux(Seq<char>),
}

impl View for ProviderGroup {
    type V = ProviderGroupView;

    open spec fn view(&self) -> ProviderGroupView {
        match *self {
            ProviderGroup::Unset => ProviderGroupView::Unset,
            ProviderGroup::Windows(id) => ProviderGroupView::Windows(id),
            ProviderGroup::Linux(name) => ProviderGroupView::Linux(name@),
        }
    }
}

impl ProviderGroup {
    /// A group equal to this one.
    pub fn duplicate(&self) -> (group: ProviderGroup)
        ensures
            group@ == self@,
    {
        match self {
            ProviderGroup::Unset => ProviderGroup::Unset,
            ProviderGroup::Windows(id) => ProviderGroup::Windows(*id),
            ProviderGroup::Linux(name) => ProviderGroup::Linux(name.clone()),
        }
    }
}

/// The name of the Linux group that a provider joins; empty where it joins
/// none.
pub open spec fn linux_group_name(group: ProviderGroupView) -> Seq<char> {
    match group {
        ProviderGroupView::Linux(name) => name,
        _ => Seq::empty(),
    }
}

/// Whether event sets can be registered for a provider of this name and
/// group: neither name holds a NUL.
pub open spec fn registrable(identity: (Seq<char>, Seq<char>)) -> bool {
    nul_free(identity.0) && nul_free(identity.1)
}

/// Whether a byte is an ASCII digit or a lower-case ASCII letter.
pub open spec fn is_option_byte(byte: u8) -> bool {
    (0x30 <= byte <= 0x39) || (0x61 <= byte <= 0x7a)
}

/// Whether a text can be a group name: it is made of ASCII digits and
/// lower-case ASCII letters alone.
pub open spec fn option_value_ok(value: Seq<char>) -> bool {
    forall|i: int| 0 <= i < encode_utf8(value).len() ==> is_option_byte(#[trigger] encode_utf8(value)[i])
}

/// Whether a provider can have this name in this group: the two names have
/// under 234 bytes together, the provider's name holds no NUL, space or
/// colon, and the group's name is made of digits and lower-case letters.
pub open spec fn provider_name_ok(name: Seq<char>, group: Seq<char>) -> bool {
    &&& encode_utf8(name).len() + encode_utf8(group).len() < NAMES_LIMIT
    &&& forall|i: int|
        0 <= i < encode_utf8(name).len() ==> {
            let byte = #[trigger] encode_utf8(name)[i];
            byte != 0x00 && byte != 0x20 && byte != 0x3a
        }
    &&& option_value_ok(group)
}

/// Whether a text can be a group name.
pub fn is_valid_group_name(value: &str) -> (valid: bool)
    ensures
        valid == option_value_ok(value@),
{
    let bytes = value.as_bytes();
    let mut i: usize = 0;
    while i < bytes.len()
        invariant
            i <= bytes.len(),
            bytes@ == encode_utf8(value@),
            forall|k: int| 0 <= k < i ==> is_option_byte(#[trigger] bytes@[k]),
        decreases bytes.len() - i,
    {
        let byte: u8 = bytes[i];
        if !((0x30 <= byte && byte <= 0x39) || (0x61 <= byte && byte <= 0x7a)) {
            return false;
        }
        i += 1;
    }
    true
}

/// Whether a provider can have this name in this group.
pub fn is_valid_provider_name(name: &str, group: &str) -> (valid: bool)
    ensures
        valid == provider_name_ok(name@, group@),
{
    let bytes = name.as_bytes();
    let group_bytes = group.as_bytes();
    if bytes.len() >= NAMES_LIMIT || group_bytes.len() >= NAMES_LIMIT - bytes.len() {
        return false;
    }
    let mut i: usize = 0;
    while i < bytes.len()
        invariant
            i <= bytes.len(),
            bytes@ == encode_utf8(name@),
            forall|k: int|
                0 <= k < i ==> {
                    let byte = #[trigger] bytes@[k];
                    byte != 0x00 && byte != 0x20 && byte != 0x3a
                },
        decreases bytes.len() - i,
    {
        let byte: u8 = bytes[i];
        if byte == 0x00 || byte == 0x20 || byte == 0x3a {
            return false;
        }
        i += 1;
    }
    is_valid_group_name(group)
}

/// The event sets that every provider registers when it is created: one
/// per native level from error to one past verbose, for the default keyword.
pub open spec fn default_sets() -> Set<(u8, u64)> {
    Set::new(
        |key: (u8, u64)| NATIVE_ERROR <= key.0 <= NATIVE_VERBOSE + 1 && key.1 == DEFAULT_KEYWORD,
    )
}

/// What became of one event that was to be written.
#[derive(Clone, Copy, Debug, PartialEq, Eq, Structural)]
pub enum Delivery {
    /// The event could not be built: its time has no calendar form, or the
    /// sink cannot write one of its parts. Nothing was sent.
    Refused,
    /// The event was built and handed to the kernel, which answered with
    /// this errno.
    Sent(i32),
}

/// What became of a record that was handed to a provider.
#[derive(Clone, Copy, Debug, PartialEq, Eq, Structural)]
pub enum WriteOutcome {
    /// Nobody listens for the record's level and keyword, or the provider
    /// holds no event set for them: nothing was encoded.
    Disabled,
    /// The record was encoded: first as its native event, and then, where
    /// the configuration asks for it, as its Common Schema event too.
    Written { native: Delivery, common_schema: Option<Delivery> },
}

/// A provider with its identity.
pub struct ProviderWrapper {
    pub name: String,
    pub id: ProviderId,
    pub group: ProviderGroup,
    pub provider: Provider,
}

/// The native event of a record on Linux.
pub open spec fn native_record_event(
    timestamp: Timestamp,
    event_name: Seq<char>,
    keyword: u64,
    record: RecordView,
    json: bool,
) -> EventView {
    native_event(
        Backend::UserEvents,
        user_events_time_field(timestamp.secs),
        event_name,
        keyword,
        record,
        json,
    )
}

/// The Common Schema event of a record on Linux. It needs the time as text
/// and so exists only for a time that has one.
pub open spec fn common_schema_record_event(
    timestamp: Timestamp,
    trace: Option<TraceContext>,
    event_name: Seq<char>,
    keyword: u64,
    record: RecordView,
) -> Option<EventView> {
    match utc_rfc3339(timestamp.secs, timestamp.nanos) {
        Some(text) => Some(
            common_schema_event(Backend::UserEvents, text, trace, event_name, keyword, record),
        ),
        None => None,
    }
}

/// Whether there is an event and the sink can write it.
pub open spec fn sendable(event: Option<EventView>) -> bool {
    event matches Some(e) && event_supported(e)
}

/// Whether a builder holds exactly the given event. The Linux builder holds
/// no level and no keyword: an event goes out with those of the event set
/// that it is written through.
pub open spec fn holds_event(builder: EventBuilder, event: EventView) -> bool {
    &&& builder_name(builder) == event.name
    &&& builder_opcode(builder) == event.opcode
    &&& builder_fields(builder) == stored_fields(event.fields)
}

/// Whether an event set is the one for an event: made for the event's level
/// and keyword.
pub open spec fn set_matches(set: EventSet, level: u8, keyword: u64) -> bool {
    event_set_key(set) == (level, keyword)
}

/// The event that was built last when a record was encoded: its Common
/// Schema event where that was asked for and could be sent, else its native
/// event where that could be sent, else none.
pub open spec fn last_event(
    native: EventView,
    envelope: Option<EventView>,
    common_schema: bool,
) -> Option<EventView> {
    if common_schema && sendable(envelope) {
        envelope
    } else if event_supported(native) {
        Some(native)
    } else {
        None
    }
}

/// What holds of a record that was handed to a provider, by its outcome.
///
/// A disabled record leaves the builder as it was. An encoded record was
/// sent as its native event exactly where the sink can write that event; in
/// Common Schema mode, and only there, its Common Schema event followed,
/// sent exactly where there is one that the sink can write. The builder
/// holds the event that was built last.
pub open spec fn record_written(
    outcome: WriteOutcome,
    before: EventBuilder,
    after: EventBuilder,
    timestamp: Timestamp,
    trace: Option<TraceContext>,
    event_name: Seq<char>,
    keyword: u64,
    record: RecordView,
    json: bool,
    common_schema: bool,
) -> bool {
    let native = native_record_event(timestamp, event_name, keyword, record, json);
    let envelope = common_schema_record_event(timestamp, trace, event_name, keyword, record);
    match outcome {
        WriteOutcome::Disabled => same_event(before, after),
        WriteOutcome::Written { native: first, common_schema: second } => {
            &&& first is Sent <==> event_supported(native)
            &&& second is Some <==> common_schema
            &&& second matches Some(delivery) ==> (delivery is Sent <==> sendable(envelope))
            &&& match last_event(native, envelope, common_schema) {
                Some(event) => holds_event(after, event),
                None => same_event(before, after),
            }
        },
    }
}

/// Builds the native event of a record on Linux.
pub fn encode_native_record(
    timestamp: &Timestamp,
    event_name: &str,
    keyword: u64,
    record: &Record,
    config: &ExporterConfig,
) -> (event: Event)
    ensures
        event@ == native_record_event(*timestamp, event_name@, keyword, record@, config.json),
{
    encode_native_user_events(timestamp.secs, event_name, keyword, record, config.json)
}

/// Builds the Common Schema event of a record on Linux, where its time has
/// a text. The text of a time is short, so it always fits.
pub fn encode_common_schema_record(
    timestamp: &Timestamp,
    trace: Option<TraceContext>,
    event_name: &str,
    keyword: u64,
    record: &Record,
) -> (event: Option<Event>)
    ensures
        event is Some <==> common_schema_record_event(
            *timestamp,
            trace,
            event_name@,
            keyword,
            record@,
        ) is Some,
        event matches Some(e) ==> Some(e@) == common_schema_record_event(
            *timestamp,
            trace,
            event_name@,
            keyword,
            record@,
        ),
        event is Some ==> text_fits(utc_rfc3339(timestamp.secs, timestamp.nanos)->0),
{
    match timestamp.rfc3339() {
        Some(text) => {
            proof {
                lemma_short_ascii_fits(text@);
            }
            Some(
                encode_common_schema(
                    Backend::UserEvents,
                    text.as_str(),
                    trace,
                    event_name,
                    keyword,
                    record,
                ),
            )
        },
        None => None,
    }
}

/// What a provider answers for a level and keyword, given what it found:
/// enabled only where it holds an event set for them and a session listens
/// to that set.
pub fn enabled_from(listening: Option<bool>) -> (enabled: bool)
    ensures
        enabled == (listening == Some(true)),
{
    match listening {
        Some(open) => open,
        None => false,
    }
}

/// Builds one event and hands it to the kernel through the event set of its
/// level and keyword; refused where there is no event or the sink cannot
/// write it, and then the builder keeps what it held.
pub fn deliver(builder: &mut EventBuilder, set: &Arc<EventSet>, event: &Option<Event>) -> (delivery:
    Delivery)
    requires
        event matches Some(e) ==> set_matches(**set, e@.level, e@.keyword),
    ensures
        delivery is Sent <==> (event matches Some(e) && event_supported(e@)),
        delivery is Sent ==> holds_event(*final(builder), event->0@),
        delivery is Refused ==> same_event(*old(builder), *final(builder)),
{
    match event {
        Some(e) => match send_event(builder, set, e) {
            Some(code) => Delivery::Sent(code),
            None => Delivery::Refused,
        },
        None => Delivery::Refused,
    }
}

/// Encodes a record and hands it to the kernel through an event set that is
/// known to be enabled: the native event first and then, in Common Schema
/// mode, the Common Schema event in addition.
pub fn write_enabled_record(
    builder: &mut EventBuilder,
    set: &Arc<EventSet>,
    timestamp: &Timestamp,
    trace: Option<TraceContext>,
    event_name: &str,
    keyword: u64,
    record: &Record,
    config: &ExporterConfig,
) -> (outcome: WriteOutcome)
    requires
        set_matches(**set, native_level(record@.level), keyword),
    ensures
        outcome is Written,
        record_written(
            outcome,
            *old(builder),
            *final(builder),
            *timestamp,
            trace,
            event_name@,
            keyword,
            record@,
            config.json,
            config.common_schema,
        ),
{
    let native = Some(encode_native_record(timestamp, event_name, keyword, record, config));
    let first = deliver(builder, set, &native);
    let second = if config.common_schema {
        let envelope = encode_common_schema_record(timestamp, trace, event_name, keyword, record);
        Some(deliver(builder, set, &envelope))
    } else {
        None
    };
    WriteOutcome::Written { native: first, common_schema: second }
}

/// Writes a record through an event set, given whether a session listens to
/// the set: nothing at all where none does, else the record encoded and
/// handed to the kernel.
pub fn write_record_if_listening(
    builder: &mut EventBuilder,
    set: &Arc<EventSet>,
    listening: bool,
    timestamp: &Timestamp,
    trace: Option<TraceContext>,
    event_name: &str,
    keyword: u64,
    record: &Record,
    config: &ExporterConfig,
) -> (outcome: WriteOutcome)
    requires
        set_matches(**set, native_level(record@.level), keyword),
    ensures
        outcome is Disabled <==> !listening,
        record_written(
            outcome,
            *old(builder),
            *final(builder),
            *timestamp,
            trace,
            event_name@,
            keyword,
            record@,
            config.json,
            config.common_schema,
        ),
{
    if listening {
        write_enabled_record(builder, set, timestamp, trace, event_name, keyword, record, config)
    } else {
        WriteOutcome::Disabled
    }
}

impl ProviderWrapper {
    /// Whether the provider holds an event set for a level and keyword.
    pub open spec fn registered(&self, level: u8, keyword: u64) -> bool {
        provider_sets(self.provider).contains((level, keyword))
    }

    /// Creates a provider of this name, in its Linux group where it has
    /// one, and registers its event sets: one per native level for the
    /// default keyword. `None` for a name that no provider can have in this
    /// group; a Windows group does not count here.
    pub fn new(name: &str, id: ProviderId, group: &ProviderGroup) -> (wrapper: Option<
        ProviderWrapper,
    >)
        ensures
            wrapper is Some <==> provider_name_ok(name@, linux_group_name(group@)),
            wrapper matches Some(w) ==> {
                &&& w.name@ == name@
                &&& w.id == id
                &&& w.group@ == group@
                &&& provider_identity(w.provider) == (name@, linux_group_name(group@))
                &&& provider_sets(w.provider) == default_sets()
            },
    {
        let group_name: &str = match group {
            ProviderGroup::Linux(text) => text.as_str(),
            _ => "",
        };
        proof {
            reveal_strlit("");
            assert(""@ =~= Seq::<char>::empty());
        }
        if !is_valid_provider_name(name, group_name) {
            return None;
        }
        let mut provider = provider_new(name, group_name);
        proof {
            lemma_name_ok_registrable(name@, group_name@);
        }
        let mut level: u8 = NATIVE_ERROR;
        while level <= NATIVE_VERBOSE + 1
            invariant
                NATIVE_ERROR <= level <= NATIVE_VERBOSE + 2,
                provider_identity(provider) == (name@, group_name@),
                registrable((name@, group_name@)),
                provider_sets(provider) == Set::new(
                    |key: (u8, u64)| NATIVE_ERROR <= key.0 < level && key.1 == DEFAULT_KEYWORD,
                ),
            decreases NATIVE_VERBOSE + 2 - level,
        {
            let _ = provider_register_set(&mut provider, level, DEFAULT_KEYWORD);
            assert(provider_sets(provider) =~= Set::new(
                |key: (u8, u64)| NATIVE_ERROR <= key.0 < level + 1 && key.1 == DEFAULT_KEYWORD,
            ));
            level += 1;
        }
        assert(provider_sets(provider) =~= default_sets());
        Some(ProviderWrapper { name: name.to_owned(), id, group: group.duplicate(), provider })
    }

    /// The provider itself.
    pub fn get_provider(&self) -> (provider: &Provider)
        ensures
            *provider == self.provider,
    {
        &self.provider
    }

    /// The event set that was made for a level and keyword, where the
    /// provider holds one.
    pub fn find_set(&self, level: u8, keyword: u64) -> (set: Option<Arc<EventSet>>)
        ensures
            set is Some <==> self.registered(level, keyword),
            set matches Some(found) ==> set_matches(*found, level, keyword),
    {
        provider_find_set(&self.provider, level, keyword)
    }

    /// Registers an event set for a level and keyword and hands it back;
    /// where the provider holds one already, that one. The provider and its
    /// group must have names without a NUL, as every provider has that
    /// `new` made.
    pub fn register_set(&mut self, level: u8, keyword: u64) -> (set: Arc<EventSet>)
        requires
            registrable(provider_identity(old(self).provider)),
        ensures
            provider_identity(final(self).provider) == provider_identity(old(self).provider),
            provider_sets(final(self).provider) == provider_sets(old(self).provider).insert(
                (level, keyword),
            ),
            set_matches(*set, level, keyword),
            final(self).name == old(self).name,
            final(self).id == old(self).id,
            final(self).group == old(self).group,
    {
        provider_register_set(&mut self.provider, level, keyword)
    }

    /// Whether a session listens for events of a level and keyword. A pair
    /// for which the provider holds no event set is never enabled.
    pub fn enabled(&self, level: u8, keyword: u64) -> (enabled: bool)
        ensures
            enabled ==> self.registered(level, keyword),
    {
        let listening: Option<bool> = match self.find_set(level, keyword) {
            Some(set) => Some(event_set_enabled(&set)),
            None => None,
        };
        enabled_from(listening)
    }

    /// Writes a record: nothing at all where nobody listens for its level
    /// and keyword, else its native event and, in Common Schema mode, its
    /// Common Schema event in addition, each built in the builder and handed
    /// to the kernel through the event set of the record's level and
    /// keyword.
    pub fn write_record(
        &self,
        builder: &mut EventBuilder,
        timestamp: &Timestamp,
        trace: Option<TraceContext>,
        event_name: &str,
        keyword: u64,
        record: &Record,
        config: &ExporterConfig,
    ) -> (outcome: WriteOutcome)
        ensures
            !self.registered(native_level(record@.level), keyword) ==> outcome is Disabled,
            record_written(
                outcome,
                *old(builder),
                *final(builder),
                *timestamp,
                trace,
                event_name@,
                keyword,
                record@,
                config.json,
                config.common_schema,
            ),
    {
        let level: u8 = map_level(record.level);
        match self.find_set(level, keyword) {
            Some(set) => {
                let listening: bool = event_set_enabled(&set);
                write_record_if_listening(
                    builder,
                    &set,
                    listening,
                    timestamp,
                    trace,
                    event_name,
                    keyword,
                    record,
                    config,
                )
            },
            None => WriteOutcome::Disabled,
        }
    }
}

/// The native event of a record can be sent where its event name holds no
/// NUL and its texts fit: then nothing but a deaf kernel keeps it from being
/// written.
pub proof fn lemma_native_record_sendable(
    timestamp: Timestamp,
    event_name: Seq<char>,
    keyword: u64,
    record: RecordView,
    json: bool,
)
    requires
        nul_free(event_name),
        record_fits(record, json),
    ensures
        event_supported(native_record_event(timestamp, event_name, keyword, record, json)),
{
    lemma_native_event_supported(timestamp.secs, event_name, keyword, record, json);
}

/// The Common Schema event of a record can be sent where its time has a
/// text and that text, the event name and the message fit, with no NUL in
/// the name.
pub proof fn lemma_common_schema_record_sendable(
    timestamp: Timestamp,
    trace: Option<TraceContext>,
    event_name: Seq<char>,
    keyword: u64,
    record: RecordView,
)
    requires
        nul_free(event_name),
        text_fits(event_name),
        text_fits(record.payload),
        utc_rfc3339(timestamp.secs, timestamp.nanos) matches Some(text) && text_fits(text),
    ensures
        sendable(common_schema_record_event(timestamp, trace, event_name, keyword, record)),
{
    lemma_common_schema_event_supported(
        utc_rfc3339(timestamp.secs, timestamp.nanos)->0,
        trace,
        event_name,
        keyword,
        record,
    );
}

/// In Common Schema mode the native event is written too: a record that was
/// encoded was sent as its native event wherever the sink can write that
/// event, whether or not its Common Schema event could be sent.
pub proof fn lemma_native_event_is_written_in_both_modes(
    outcome: WriteOutcome,
    before: EventBuilder,
    after: EventBuilder,
    timestamp: Timestamp,
    trace: Option<TraceContext>,
    event_name: Seq<char>,
    keyword: u64,
    record: RecordView,
    json: bool,
    common_schema: bool,
)
    requires
        outcome is Written,
        record_written(
            outcome,
            before,
            after,
            timestamp,
            trace,
            event_name,
            keyword,
            record,
            json,
            common_schema,
        ),
        event_supported(native_record_event(timestamp, event_name, keyword, record, json)),
    ensures
        outcome->native is Sent,
        common_schema ==> outcome->common_schema is Some,
        !common_schema ==> outcome->common_schema is None,
{
}

/// A name that a provider can have holds no NUL, no space and no colon.
pub proof fn lemma_provider_name_chars(name: Seq<char>, group: Seq<char>)
    requires
        provider_name_ok(name, group),
    ensures
        !name.contains('\0'),
        !name.contains(' '),
        !name.contains(':'),
{
    lemma_ascii_byte_chars(name, 0x00u8);
    lemma_ascii_byte_chars(name, 0x20u8);
    lemma_ascii_byte_chars(name, 0x3au8);
    let bytes = encode_utf8(name);
    assert(!bytes.contains(0x00u8) && !bytes.contains(0x20u8) && !bytes.contains(0x3au8));
    assert forall|k: int| 0 <= k < name.len() implies name[k] != '\0' && name[k] != ' ' && name[k]
        != ':' by {
        assert(name[k] as u32 != 0x00u8);
        assert(name[k] as u32 != 0x20u8);
        assert(name[k] as u32 != 0x3au8);
    }
}

/// A provider with a name that a provider can have, in a group with a name
/// that a group can have, can register event sets: neither name holds a
/// NUL.
pub proof fn lemma_name_ok_registrable(name: Seq<char>, group: Seq<char>)
    requires
        provider_name_ok(name, group),
    ensures
        registrable((name, group)),
{
    let bytes = encode_utf8(name);
    if bytes.contains(0u8) {
        let i = choose|i: int| 0 <= i < bytes.len() && bytes[i] == 0u8;
        assert(bytes[i] != 0x00);
    }
    let group_bytes = encode_utf8(group);
    if group_bytes.contains(0u8) {
        let i = choose|i: int| 0 <= i < group_bytes.len() && group_bytes[i] == 0u8;
        assert(is_option_byte(group_bytes[i]));
    }
}

} // verus!
