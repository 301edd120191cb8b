//! The Windows sink: an event of the model is written, field by field, into
//! a `tracelogging_dynamic::EventBuilder`.
//!
//! Every kind of value has a method of its own there, so a field is written
//! as the model holds it. A provider is made here from its name, identifier
//! and group. Registering it is left to the caller: that ties the provider
//! to its place in memory, which only the owner of the provider can promise.

use crate::common_schema::common_schema_event;
use crate::common_schema::encode_common_schema;
use crate::field::fields_view;
use crate::field::is_nul_free;
use crate::field::nul_free;
use crate::field::Backend;
use crate::field::Event;
use crate::field::EventView;
use crate::field::Field;
use crate::field::FieldValue;
use crate::field::FieldView;
use crate::field::Format;
use crate::field::ValueView;
use crate::field::COUNT_MAX;
use crate::field::OPCODE_INFO;
use crate::field::STRUCT_FIELDS_MAX;
use crate::level::map_level;
use crate::logger::ExporterConfig;
use crate::provider::ProviderGroup;
use crate::provider::ProviderGroupView;
use crate::provider::ProviderId;
use crate::native::encode_native_etw;
use crate::native::etw_time_field;
use crate::native::native_event;
use crate::record::Record;
use crate::record::RecordView;
use crate::sink::StoredField;
use crate::time::system_time_words;
use crate::time::utc_civil_time;
use crate::time::utc_rfc3339;
use crate::time::Timestamp;
use crate::time::Win32SystemTime;
use crate::trace::TraceContext;
use tracelogging::Guid;
use tracelogging::InType;
use tracelogging::Level;
use tracelogging::Opcode;
use tracelogging::OutType;
use tracelogging_dynamic::EventBuilder;
use tracelogging_dynamic::Provider;
use vstd::prelude::*;
use vstd::utf8::encode_utf8;

verus! {

/// `tracelogging_dynamic::EventBuilder`: the buffer that a Windows event is
/// built in. Nothing inside it is visible here.
#[verifier::external_type_specification]
#[verifier::external_body]
pub struct ExEtwEventBuilder(EventBuilder);

/// `tracelogging_dynamic::Provider`: a connection for writing events to
/// ETW.
#[verifier::external_type_specification]
#[verifier::external_body]
pub struct ExEtwProvider(Provider);

/// What a Windows builder holds of an event beside its fields.
pub struct EtwHeader {
    pub name: Seq<char>,
    pub level: u8,
    pub keyword: u64,
    pub opcode: u8,
}

/// The name, level, keyword and opcode of the event that a builder holds.
pub uninterp spec fn etw_builder_header(builder: EventBuilder) -> EtwHeader;

/// The fields that were added to a builder since its last reset, in the
/// order in which they were added.
pub uninterp spec fn etw_builder_fields(builder: EventBuilder) -> Seq<StoredField>;

/// Whether `after` holds the event of `before` with `field` added at its
/// end.
pub open spec fn etw_appended(before: EventBuilder, after: EventBuilder, field: StoredField) -> bool {
    &&& etw_builder_header(after) == etw_builder_header(before)
    &&& etw_builder_fields(after) == etw_builder_fields(before).push(field)
}

/// Whether two builders hold the same event.
pub open spec fn etw_same_event(before: EventBuilder, after: EventBuilder) -> bool {
    &&& etw_builder_header(after) == etw_builder_header(before)
    &&& etw_builder_fields(after) == etw_builder_fields(before)
}

/// `EventBuilder::reset` with `Level::from_int` and event tag 0: the builder
/// forgets its event and starts one with the given name, level and keyword,
/// the opcode "info" and no fields. The method asserts in debug builds that
/// the name holds no NUL.
#[verifier::external_body]
fn etw_reset(builder: &mut EventBuilder, name: &str, level: u8, keyword: u64)
    requires
        nul_free(name@),
    ensures
        etw_builder_header(*final(builder)) == (EtwHeader {
            name: name@,
            level,
            keyword,
            opcode: OPCODE_INFO,
        }),
        etw_builder_fields(*final(builder)) == Seq::<StoredField>::empty(),
{
    builder.reset(name, Level::from_int(level), keyword, 0);
}

/// `EventBuilder::opcode` with `Opcode::from_int`: sets the opcode and
/// leaves the rest of the event as it is.
#[verifier::external_body]
fn etw_set_opcode(builder: &mut EventBuilder, opcode: u8)
    ensures
        etw_builder_header(*final(builder)) == (EtwHeader {
            opcode,
            ..etw_builder_header(*old(builder))
        }),
        etw_builder_fields(*final(builder)) == etw_builder_fields(*old(builder)),
{
    builder.opcode(Opcode::from_int(opcode));
}

/// `EventBuilder::add_bool32` with field tag 0: adds one boolean field of
/// 32 bits, 1 for true. `OutType::from_int` panics on a code over 127, and
/// the method asserts in debug builds that the name holds no NUL.
#[verifier::external_body]
fn etw_add_bool32(builder: &mut EventBuilder, name: &str, value: bool, out: u8)
    requires
        nul_free(name@),
        out <= 127,
    ensures
        etw_appended(
            *old(builder),
            *final(builder),
            StoredField { name: name@, value: ValueView::Bool32(value), format: out },
        ),
{
    builder.add_bool32(name, value as i32, OutType::from_int(out), 0);
}

/// `EventBuilder::add_u8` with field tag 0: adds one field of one byte.
#[verifier::external_body]
fn etw_add_u8(builder: &mut EventBuilder, name: &str, value: u8, out: u8)
    requires
        nul_free(name@),
        out <= 127,
    ensures
        etw_appended(
            *old(builder),
            *final(builder),
            StoredField { name: name@, value: ValueView::U8(value), format: out },
        ),
{
    builder.add_u8(name, value, OutType::from_int(out), 0);
}

/// `EventBuilder::add_u16` with field tag 0: adds one field of two bytes.
#[verifier::external_body]
fn etw_add_u16(builder: &mut EventBuilder, name: &str, value: u16, out: u8)
    requires
        nul_free(name@),
        out <= 127,
    ensures
        etw_appended(
            *old(builder),
            *final(builder),
            StoredField { name: name@, value: ValueView::U16(value), format: out },
        ),
{
    builder.add_u16(name, value, OutType::from_int(out), 0);
}

/// `EventBuilder::add_u32` with field tag 0: adds one field of four bytes.
#[verifier::external_body]
fn etw_add_u32(builder: &mut EventBuilder, name: &str, value: u32, out: u8)
    requires
        nul_free(name@),
        out <= 127,
    ensures
        etw_appended(
            *old(builder),
            *final(builder),
            StoredField { name: name@, value: ValueView::U32(value), format: out },
        ),
{
    builder.add_u32(name, value, OutType::from_int(out), 0);
}

/// `EventBuilder::add_i32` with field tag 0: adds one signed field of four
/// bytes.
#[verifier::external_body]
fn etw_add_i32(builder: &mut EventBuilder, name: &str, value: i32, out: u8)
    requires
        nul_free(name@),
        out <= 127,
    ensures
        etw_appended(
            *old(builder),
            *final(builder),
            StoredField { name: name@, value: ValueView::I32(value), format: out },
        ),
{
    builder.add_i32(name, value, OutType::from_int(out), 0);
}

/// `EventBuilder::add_u64` with field tag 0: adds one field of eight bytes.
#[verifier::external_body]
fn etw_add_u64(builder: &mut EventBuilder, name: &str, value: u64, out: u8)
    requires
        nul_free(name@),
        out <= 127,
    ensures
        etw_appended(
            *old(builder),
            *final(builder),
            StoredField { name: name@, value: ValueView::U64(value), format: out },
        ),
{
    builder.add_u64(name, value, OutType::from_int(out), 0);
}

/// `EventBuilder::add_i64` with field tag 0: adds one signed field of eight
/// bytes.
#[verifier::external_body]
fn etw_add_i64(builder: &mut EventBuilder, name: &str, value: i64, out: u8)
    requires
        nul_free(name@),
        out <= 127,
    ensures
        etw_appended(
            *old(builder),
            *final(builder),
            StoredField { name: name@, value: ValueView::I64(value), format: out },
        ),
{
    builder.add_i64(name, value, OutType::from_int(out), 0);
}

/// `EventBuilder::raw_add_meta_scalar` with `InType::F64`, and then
/// `EventBuilder::raw_add_data_value` on the eight bytes of the bit pattern:
/// the two calls that the builder's own method for a 64-bit float makes, so
/// one float field is added.
#[verifier::external_body]
fn etw_add_f64_bits(builder: &mut EventBuilder, name: &str, bits: u64, out: u8)
    requires
        nul_free(name@),
        out <= 127,
    ensures
        etw_appended(
            *old(builder),
            *final(builder),
            StoredField { name: name@, value: ValueView::F64Bits(bits), format: out },
        ),
{
    builder.raw_add_meta_scalar(name, InType::F64, OutType::from_int(out), 0).raw_add_data_value(
        &bits,
    );
}

/// `EventBuilder::add_str8` on the UTF-8 bytes of a text, with field tag 0:
/// adds one counted text field. The method keeps only the first 65535 bytes
/// of a longer text, so a longer one is not handed to it.
#[verifier::external_body]
fn etw_add_text(builder: &mut EventBuilder, name: &str, text: &str, out: u8)
    requires
        nul_free(name@),
        out <= 127,
        encode_utf8(text@).len() <= COUNT_MAX,
    ensures
        etw_appended(
            *old(builder),
            *final(builder),
            StoredField { name: name@, value: ValueView::Text(text@), format: out },
        ),
{
    builder.add_str8(name, text.as_bytes(), OutType::from_int(out), 0);
}

/// `EventBuilder::add_u64_sequence` with field tag 0: adds one field that
/// holds the items in order. The method stops after 65535 items, so a longer
/// sequence is not handed to it.
#[verifier::external_body]
fn etw_add_u64_sequence(builder: &mut EventBuilder, name: &str, words: &Vec<u64>, out: u8)
    requires
        nul_free(name@),
        out <= 127,
        words@.len() <= COUNT_MAX,
    ensures
        etw_appended(
            *old(builder),
            *final(builder),
            StoredField { name: name@, value: ValueView::U64Seq(words@), format: out },
        ),
{
    builder.add_u64_sequence(name, words, OutType::from_int(out), 0);
}

/// `EventBuilder::add_systemtime` with field tag 0: adds one field that
/// holds the eight words of a date and time.
#[verifier::external_body]
fn etw_add_systemtime(builder: &mut EventBuilder, name: &str, time: &Win32SystemTime, out: u8)
    requires
        nul_free(name@),
        out <= 127,
    ensures
        etw_appended(
            *old(builder),
            *final(builder),
            StoredField { name: name@, value: ValueView::SystemTime(time.st@), format: out },
        ),
{
    builder.add_systemtime(name, &time.st, OutType::from_int(out), 0);
}

/// `EventBuilder::add_struct` with field tag 0: adds one field that declares
/// the next `count` fields as its own. The method asserts in debug builds
/// that the count is under 128.
#[verifier::external_body]
fn etw_add_struct(builder: &mut EventBuilder, name: &str, count: u8)
    requires
        nul_free(name@),
        1 <= count <= STRUCT_FIELDS_MAX,
    ensures
        etw_appended(
            *old(builder),
            *final(builder),
            StoredField { name: name@, value: ValueView::Struct(count), format: 0 },
        ),
{
    builder.add_struct(name, count, 0);
}

/// `EventBuilder::write` with no activity and no related activity: hands the
/// event to ETW. The method fills in the size of the event's description
/// and changes nothing else of the event. What it returns is an error code
/// for diagnosis; a provider that was not registered sends nothing.
#[verifier::external_body]
fn etw_write(builder: &mut EventBuilder, provider: &Provider) -> (code: u32)
    ensures
        etw_same_event(*old(builder), *final(builder)),
{
    builder.write(provider, None, None)
}

/// The code that Windows has for a format; `None` for the formats that
/// only Linux has.
pub open spec fn out_type_code(format: Format) -> Option<u8> {
    match format {
        Format::Default => Some(0u8),
        Format::String8 => Some(2u8),
        Format::Boolean => Some(3u8),
        Format::Hex => Some(4u8),
        Format::Json => Some(12u8),
        Format::Signed => Some(17u8),
        Format::Unsigned => Some(18u8),
        Format::Utf8 => Some(35u8),
        Format::DateTimeUtc => Some(38u8),
        Format::Float => None,
        Format::Time => None,
    }
}

/// Whether the Windows sink can write a value: a text of at most 65535
/// bytes, a sequence of at most 65535 items, a struct of 1 to 127 fields,
/// and every other value.
pub open spec fn etw_value_supported(value: ValueView) -> bool {
    match value {
        ValueView::Text(text) => encode_utf8(text).len() <= COUNT_MAX,
        ValueView::U64Seq(words) => words.len() <= COUNT_MAX,
        ValueView::Struct(count) => 1 <= count <= STRUCT_FIELDS_MAX,
        _ => true,
    }
}

/// Whether the Windows sink can write a field: its name holds no NUL, its
/// format has a code, and its value can be written.
pub open spec fn etw_field_supported(field: FieldView) -> bool {
    &&& nul_free(field.name)
    &&& out_type_code(field.format) is Some
    &&& etw_value_supported(field.value)
}

/// Whether the Windows sink can write an event: its name holds no NUL and
/// each of its fields can be written.
pub open spec fn etw_event_supported(event: EventView) -> bool {
    &&& nul_free(event.name)
    &&& forall|i: int|
        0 <= i < event.fields.len() ==> etw_field_supported(#[trigger] event.fields[i])
}

/// The field as the builder holds it: as the model does, with the code of
/// its format. A struct field has no format of its own: its code is 0.
pub open spec fn etw_stored_field(field: FieldView) -> StoredField {
    StoredField {
        name: field.name,
        value: field.value,
        format: match field.value {
            ValueView::Struct(_) => 0u8,
            _ => out_type_code(field.format)->0,
        },
    }
}

/// The fields as the builder holds them, in order.
pub open spec fn etw_stored_fields(fields: Seq<FieldView>) -> Seq<StoredField> {
    fields.map_values(|f: FieldView| etw_stored_field(f))
}

/// The header that the builder holds for an event.
pub open spec fn etw_header_of(event: EventView) -> EtwHeader {
    EtwHeader { name: event.name, level: event.level, keyword: event.keyword, opcode: event.opcode }
}

/// Whether a builder holds exactly the given event.
pub open spec fn etw_holds_event(builder: EventBuilder, event: EventView) -> bool {
    &&& etw_builder_header(builder) == etw_header_of(event)
    &&& etw_builder_fields(builder) == etw_stored_fields(event.fields)
}

/// The code that Windows has for a format.
pub fn code_of_out_type(format: Format) -> (code: Option<u8>)
    ensures
        code == out_type_code(format),
        code matches Some(c) ==> c <= 127,
{
    match format {
        Format::Default => Some(0),
        Format::String8 => Some(2),
        Format::Boolean => Some(3),
        Format::Hex => Some(4),
        Format::Json => Some(12),
        Format::Signed => Some(17),
        Format::Unsigned => Some(18),
        Format::Utf8 => Some(35),
        Format::DateTimeUtc => Some(38),
        Format::Float => None,
        Format::Time => None,
    }
}

/// Whether the Windows sink can write a field.
pub fn supports_field(field: &Field) -> (supported: bool)
    ensures
        supported == etw_field_supported(field@),
{
    if !is_nul_free(field.name.as_str()) {
        return false;
    }
    if code_of_out_type(field.format).is_none() {
        return false;
    }
    match &field.value {
        FieldValue::Text(text) => text.as_str().as_bytes().len() <= COUNT_MAX,
        FieldValue::U64Seq(words) => words.len() <= COUNT_MAX,
        FieldValue::Struct(count) => 1 <= *count && *count <= STRUCT_FIELDS_MAX,
        _ => true,
    }
}

/// Whether the Windows sink can write an event.
pub fn supports_event(event: &Event) -> (supported: bool)
    ensures
        supported == etw_event_supported(event@),
{
    if !is_nul_free(event.name.as_str()) {
        return false;
    }
    let mut i: usize = 0;
    while i < event.fields.len()
        invariant
            i <= event.fields.len(),
            forall|k: int| 0 <= k < i ==> etw_field_supported(#[trigger] event@.fields[k]),
        decreases event.fields.len() - i,
    {
        assert(event@.fields[i as int] == event.fields[i as int]@);
        if !supports_field(&event.fields[i]) {
            return false;
        }
        i += 1;
    }
    true
}

/// Adds one field to the builder, by the method that its kind of value has.
fn write_field(builder: &mut EventBuilder, field: &Field)
    requires
        etw_field_supported(field@),
    ensures
        etw_appended(*old(builder), *final(builder), etw_stored_field(field@)),
{
    let name: &str = field.name.as_str();
    let out: u8 = match code_of_out_type(field.format) {
        Some(code) => code,
        None => 0,
    };
    match &field.value {
        FieldValue::Bool32(value) => etw_add_bool32(builder, name, *value, out),
        FieldValue::U8(value) => etw_add_u8(builder, name, *value, out),
        FieldValue::U16(value) => etw_add_u16(builder, name, *value, out),
        FieldValue::U32(value) => etw_add_u32(builder, name, *value, out),
        FieldValue::I32(value) => etw_add_i32(builder, name, *value, out),
        FieldValue::U64(value) => etw_add_u64(builder, name, *value, out),
        FieldValue::I64(value) => etw_add_i64(builder, name, *value, out),
        FieldValue::F64Bits(bits) => etw_add_f64_bits(builder, name, *bits, out),
        FieldValue::Text(text) => etw_add_text(builder, name, text.as_str(), out),
        FieldValue::U64Seq(words) => etw_add_u64_sequence(builder, name, words, out),
        FieldValue::SystemTime(time) => etw_add_systemtime(builder, name, time, out),
        FieldValue::Struct(count) => etw_add_struct(builder, name, *count),
    }
}

/// Adds the fields to the builder, in order.
fn write_fields(builder: &mut EventBuilder, fields: &Vec<Field>)
    requires
        forall|i: int| 0 <= i < fields.len() ==> etw_field_supported(#[trigger] fields[i]@),
    ensures
        etw_builder_header(*final(builder)) == etw_builder_header(*old(builder)),
        etw_builder_fields(*final(builder)) == etw_builder_fields(*old(builder))
            + etw_stored_fields(fields_view(fields@)),
{
    let ghost views = fields_view(fields@);
    let mut i: usize = 0;
    assert(etw_builder_fields(*builder) + etw_stored_fields(views).take(0) =~= etw_builder_fields(
        *builder,
    ));
    while i < fields.len()
        invariant
            i <= fields.len(),
            views == fields_view(fields@),
            forall|k: int| 0 <= k < fields.len() ==> etw_field_supported(#[trigger] fields[k]@),
            etw_builder_header(*builder) == etw_builder_header(*old(builder)),
            etw_builder_fields(*builder) == etw_builder_fields(*old(builder)) + etw_stored_fields(
                views,
            ).take(i as int),
        decreases fields.len() - i,
    {
        write_field(builder, &fields[i]);
        assert(etw_stored_fields(views)[i as int] == etw_stored_field(fields[i as int]@));
        assert(etw_builder_fields(*builder) =~= etw_builder_fields(*old(builder))
            + etw_stored_fields(views).take(i as int + 1));
        i += 1;
    }
    assert(etw_stored_fields(views).take(fields.len() as int) =~= etw_stored_fields(views));
}

/// Builds an event in the builder: resets it to the event's name, level and
/// keyword, sets the opcode and adds the fields in order. An event that the
/// sink cannot write is refused as a whole, and the builder keeps what it
/// held.
pub fn write_event(builder: &mut EventBuilder, event: &Event) -> (written: bool)
    ensures
        written == etw_event_supported(event@),
        written ==> etw_holds_event(*final(builder), event@),
        !written ==> etw_same_event(*old(builder), *final(builder)),
{
    if !supports_event(event) {
        return false;
    }
    assert forall|i: int| 0 <= i < event.fields.len() implies etw_field_supported(
        #[trigger] event.fields[i]@,
    ) by {
        assert(event@.fields[i] == event.fields[i]@);
    }
    etw_reset(builder, event.name.as_str(), event.level, event.keyword);
    etw_set_opcode(builder, event.opcode);
    write_fields(builder, &event.fields);
    assert(etw_builder_fields(*builder) =~= etw_stored_fields(event@.fields));
    true
}

/// Builds an event in the builder and hands it to ETW through a provider.
/// `None` where the sink cannot write the event: then nothing is built and
/// nothing is sent. Else the error code that the write gave, which tells
/// nothing about the event.
pub fn send_event(builder: &mut EventBuilder, provider: &Provider, event: &Event) -> (sent: Option<
    u32,
>)
    ensures
        sent is Some <==> etw_event_supported(event@),
        sent is Some ==> etw_holds_event(*final(builder), event@),
        sent is None ==> etw_same_event(*old(builder), *final(builder)),
{
    if write_event(builder, event) {
        Some(etw_write(builder, provider))
    } else {
        None
    }
}

/// The name, the identifier and the group of a Windows provider. The
/// identifiers are read as the big-endian numbers of their bytes.
pub struct EtwIdentity {
    pub name: Seq<char>,
    pub id: u128,
    pub group: Option<u128>,
}

/// One more than the most bytes that the name of a Windows provider can
/// have.
pub const ETW_NAME_LIMIT: usize = 32768;

/// The name, identifier and group that a Windows provider was made with.
pub uninterp spec fn etw_provider_identity(provider: Provider) -> EtwIdentity;

/// `Provider::new_with_id` with default options and the identifier made by
/// `Guid::from_bytes_be`: a provider of this name and identifier in no
/// group, not registered yet. The call panics on a name of 32768 bytes or
/// more and asserts in debug builds that the name holds no NUL.
#[verifier::external_body]
fn etw_provider_new(name: &str, id: u128) -> (provider: Provider)
    requires
        etw_name_ok(name@),
    ensures
        etw_provider_identity(provider) == (EtwIdentity { name: name@, id, group: None }),
{
    Provider::new_with_id(name, &Provider::options(), &Guid::from_bytes_be(&id.to_be_bytes()))
}

/// `Provider::new_with_id` with the group set through
/// `ProviderOptions::group_id`: a provider of this name and identifier in
/// this group, not registered yet.
#[verifier::external_body]
fn etw_provider_new_in_group(name: &str, id: u128, group: u128) -> (provider: Provider)
    requires
        etw_name_ok(name@),
    ensures
        etw_provider_identity(provider) == (EtwIdentity { name: name@, id, group: Some(group) }),
{
    let mut options = Provider::options();
    options.group_id(&Guid::from_bytes_be(&group.to_be_bytes()));
    Provider::new_with_id(name, &options, &Guid::from_bytes_be(&id.to_be_bytes()))
}

/// Whether a Windows provider can have this name: it holds no NUL and has
/// under 32768 bytes.
pub open spec fn etw_name_ok(name: Seq<char>) -> bool {
    nul_free(name) && encode_utf8(name).len() < ETW_NAME_LIMIT
}

/// The Windows group that a provider joins, where it joins one.
pub open spec fn windows_group_id(group: ProviderGroupView) -> Option<u128> {
    match group {
        ProviderGroupView::Windows(id) => Some(id.value),
        _ => None,
    }
}

/// Makes a Windows provider of this name and identifier, in its Windows
/// group where it has one; a Linux group does not count here. `None` for a
/// name that no Windows provider can have. The provider is not registered:
/// that is left to its owner, who has to pin it first.
pub fn new_provider(name: &str, id: ProviderId, group: &ProviderGroup) -> (provider: Option<
    Provider,
>)
    ensures
        provider is Some <==> etw_name_ok(name@),
        provider matches Some(p) ==> etw_provider_identity(p) == (EtwIdentity {
            name: name@,
            id: id.value,
            group: windows_group_id(group@),
        }),
{
    if !is_nul_free(name) || name.as_bytes().len() >= ETW_NAME_LIMIT {
        return None;
    }
    match group {
        ProviderGroup::Windows(group_id) => Some(
            etw_provider_new_in_group(name, id.value, group_id.value),
        ),
        _ => Some(etw_provider_new(name, id.value)),
    }
}

/// `Provider::enabled` with `Level::from_int`: whether a session listens to
/// the provider for events of this level and keyword. The answer belongs to
/// ETW and can change at any time; a provider that was not registered is
/// never enabled.
#[verifier::external_body]
fn etw_provider_enabled(provider: &Provider, level: u8, keyword: u64) -> (enabled: bool)
{
    provider.enabled(Level::from_int(level), keyword)
}

/// What became of one Windows event that was to be written.
#[derive(Clone, Copy, Debug, PartialEq, Eq, Structural)]
pub enum EtwDelivery {
    /// The event could not be built: its time has no calendar form, or the
    /// sink cannot write one of its parts. Nothing was sent.
    Refused,
    /// The event was built and handed to ETW, which answered with this
    /// error code.
    Sent(u32),
}

/// What became of a record that was handed to a Windows provider.
#[derive(Clone, Copy, Debug, PartialEq, Eq, Structural)]
pub enum EtwOutcome {
    /// Nobody listens for the record's level and keyword: nothing was
    /// encoded.
    Disabled,
    /// The record was encoded: first as its native event, and then, where
    /// the configuration asks for it, as its Common Schema event too.
    Written { native: EtwDelivery, common_schema: Option<EtwDelivery> },
}

/// The native event of a record on Windows. It needs the calendar fields of
/// the time and so exists only for a time that has them.
pub open spec fn etw_native_record_event(
    timestamp: Timestamp,
    event_name: Seq<char>,
    keyword: u64,
    record: RecordView,
    json: bool,
) -> Option<EventView> {
    match utc_civil_time(timestamp.secs, timestamp.nanos) {
        Some(civil) => Some(
            native_event(
                Backend::Etw,
                etw_time_field(system_time_words(civil)),
                event_name,
                keyword,
                record,
                json,
            ),
        ),
        None => None,
    }
}

/// The Common Schema event of a record on Windows. It needs the time as
/// text and so exists only for a time that has one.
pub open spec fn etw_common_schema_record_event(
    timestamp: Timestamp,
    trace: Option<TraceContext>,
    event_name: Seq<char>,
    keyword: u64,
    record: RecordView,
) -> Option<EventView> {
    match utc_rfc3339(timestamp.secs, timestamp.nanos) {
        Some(text) => Some(
            common_schema_event(Backend::Etw, text, trace, event_name, keyword, record),
        ),
        None => None,
    }
}

/// Whether there is an event and the Windows sink can write it.
pub open spec fn etw_sendable(event: Option<EventView>) -> bool {
    event matches Some(e) && etw_event_supported(e)
}

/// The event that was built last when a record was encoded: its Common
/// Schema event where that was asked for and could be sent, else its native
/// event where that could be sent, else none.
pub open spec fn etw_last_event(
    native: Option<EventView>,
    envelope: Option<EventView>,
    common_schema: bool,
) -> Option<EventView> {
    if common_schema && etw_sendable(envelope) {
        envelope
    } else if etw_sendable(native) {
        native
    } else {
        None
    }
}

/// What holds of a record that was handed to a Windows provider, by its
/// outcome.
///
/// A disabled record leaves the builder as it was. An encoded record was
/// sent as its native event exactly where there is one that the sink can
/// write; in Common Schema mode, and only there, its Common Schema event
/// followed, sent exactly where there is one that the sink can write. The
/// builder holds the event that was built last.
pub open spec fn etw_record_written(
    outcome: EtwOutcome,
    before: EventBuilder,
    after: EventBuilder,
    timestamp: Timestamp,
    trace: Option<TraceContext>,
    event_name: Seq<char>,
    keyword: u64,
    record: RecordView,
    json: bool,
    common_schema: bool,
) -> bool {
    let native = etw_native_record_event(timestamp, event_name, keyword, record, json);
    let envelope = etw_common_schema_record_event(timestamp, trace, event_name, keyword, record);
    match outcome {
        EtwOutcome::Disabled => etw_same_event(before, after),
        EtwOutcome::Written { native: first, common_schema: second } => {
            &&& first is Sent <==> etw_sendable(native)
            &&& second is Some <==> common_schema
            &&& second matches Some(delivery) ==> (delivery is Sent <==> etw_sendable(envelope))
            &&& match etw_last_event(native, envelope, common_schema) {
                Some(event) => etw_holds_event(after, event),
                None => etw_same_event(before, after),
            }
        },
    }
}

/// Builds the native event of a record on Windows, where its time has
/// calendar fields.
pub fn encode_native_record(
    timestamp: &Timestamp,
    event_name: &str,
    keyword: u64,
    record: &Record,
    config: &ExporterConfig,
) -> (event: Option<Event>)
    ensures
        event is Some <==> etw_native_record_event(
            *timestamp,
            event_name@,
            keyword,
            record@,
            config.json,
        ) is Some,
        event matches Some(e) ==> Some(e@) == etw_native_record_event(
            *timestamp,
            event_name@,
            keyword,
            record@,
            config.json,
        ),
{
    match Win32SystemTime::from_timestamp(timestamp) {
        Some(time) => Some(encode_native_etw(&time, event_name, keyword, record, config.json)),
        None => None,
    }
}

/// Builds the Common Schema event of a record on Windows, where its time
/// has a text.
pub fn encode_common_schema_record(
    timestamp: &Timestamp,
    trace: Option<TraceContext>,
    event_name: &str,
    keyword: u64,
    record: &Record,
) -> (event: Option<Event>)
    ensures
        event is Some <==> etw_common_schema_record_event(
            *timestamp,
            trace,
            event_name@,
            keyword,
            record@,
        ) is Some,
        event matches Some(e) ==> Some(e@) == etw_common_schema_record_event(
            *timestamp,
            trace,
            event_name@,
            keyword,
            record@,
        ),
{
    match timestamp.rfc3339() {
        Some(text) => Some(
            encode_common_schema(Backend::Etw, text.as_str(), trace, event_name, keyword, record),
        ),
        None => None,
    }
}

/// Builds one event and hands it to ETW through a provider; refused where
/// there is no event or the sink cannot write it, and then the builder keeps
/// what it held.
pub fn deliver(builder: &mut EventBuilder, provider: &Provider, event: &Option<Event>) -> (delivery:
    EtwDelivery)
    ensures
        delivery is Sent <==> (event matches Some(e) && etw_event_supported(e@)),
        delivery is Sent ==> etw_holds_event(*final(builder), event->0@),
        delivery is Refused ==> etw_same_event(*old(builder), *final(builder)),
{
    match event {
        Some(e) => match send_event(builder, provider, e) {
            Some(code) => EtwDelivery::Sent(code),
            None => EtwDelivery::Refused,
        },
        None => EtwDelivery::Refused,
    }
}

/// Encodes a record and hands it to ETW through a provider that is known to
/// be enabled: the native event first and then, in Common Schema mode, the
/// Common Schema event in addition.
pub fn write_enabled_record(
    builder: &mut EventBuilder,
    provider: &Provider,
    timestamp: &Timestamp,
    trace: Option<TraceContext>,
    event_name: &str,
    keyword: u64,
    record: &Record,
    config: &ExporterConfig,
) -> (outcome: EtwOutcome)
    ensures
        outcome is Written,
        etw_record_written(
            outcome,
            *old(builder),
            *final(builder),
            *timestamp,
            trace,
            event_name@,
            keyword,
            record@,
            config.json,
            config.common_schema,
        ),
{
    let native = encode_native_record(timestamp, event_name, keyword, record, config);
    let first = deliver(builder, provider, &native);
    let second = if config.common_schema {
        let envelope = encode_common_schema_record(timestamp, trace, event_name, keyword, record);
        Some(deliver(builder, provider, &envelope))
    } else {
        None
    };
    EtwOutcome::Written { native: first, common_schema: second }
}

/// Writes a record through a Windows provider, given whether a session
/// listens for its level and keyword: nothing at all where none does, else
/// the record encoded and handed to ETW.
pub fn write_record_if_listening(
    provider: &Provider,
    builder: &mut EventBuilder,
    listening: bool,
    timestamp: &Timestamp,
    trace: Option<TraceContext>,
    event_name: &str,
    keyword: u64,
    record: &Record,
    config: &ExporterConfig,
) -> (outcome: EtwOutcome)
    ensures
        outcome is Disabled <==> !listening,
        etw_record_written(
            outcome,
            *old(builder),
            *final(builder),
            *timestamp,
            trace,
            event_name@,
            keyword,
            record@,
            config.json,
            config.common_schema,
        ),
{
    if listening {
        write_enabled_record(builder, provider, timestamp, trace, event_name, keyword, record, config)
    } else {
        EtwOutcome::Disabled
    }
}

/// Writes a record through a Windows provider: nothing at all where nobody
/// listens for its level and keyword, else its native event and, in Common
/// Schema mode, its Common Schema event in addition, each built in the
/// builder with the record's level and the keyword and handed to ETW.
pub fn write_record(
    provider: &Provider,
    builder: &mut EventBuilder,
    timestamp: &Timestamp,
    trace: Option<TraceContext>,
    event_name: &str,
    keyword: u64,
    record: &Record,
    config: &ExporterConfig,
) -> (outcome: EtwOutcome)
    ensures
        etw_record_written(
            outcome,
            *old(builder),
            *final(builder),
            *timestamp,
            trace,
            event_name@,
            keyword,
            record@,
            config.json,
            config.common_schema,
        ),
{
    let level: u8 = map_level(record.level);
    let listening: bool = etw_provider_enabled(provider, level, keyword);
    write_record_if_listening(
        provider,
        builder,
        listening,
        timestamp,
        trace,
        event_name,
        keyword,
        record,
        config,
    )
}

} // verus!
