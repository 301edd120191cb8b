//! The Linux sink: an event of the model is written, field by field, into an
//! `eventheader_dynamic::EventBuilder`.
//!
//! The builder lays down the bytes. What is decided here is which of its
//! methods is called for each field, with which arguments and in which
//! order, and that nothing is handed to it that it would refuse.

use crate::field::COUNT_MAX;
use crate::field::Event;
use crate::field::EventView;
use crate::field::Field;
use crate::field::FieldValue;
use crate::field::FieldView;
use crate::field::Format;
use crate::field::OPCODE_INFO;
use crate::field::STRUCT_FIELDS_MAX;
use crate::value::word_of_i32;
use crate::value::word_of_i64;
use crate::field::ValueView;
use crate::field::fields_view;
use crate::field::is_nul_free;
use crate::field::nul_free;
use eventheader::FieldFormat;
use eventheader::Opcode;
use eventheader_dynamic::EventBuilder;
use eventheader_dynamic::EventSet;
use vstd::prelude::*;
use vstd::utf8::encode_utf8;

verus! {

/// `eventheader_dynamic::EventBuilder`: the buffer that an event is built
/// in. Nothing inside it is visible here.
#[verifier::external_type_specification]
#[verifier::external_body]
pub struct ExEventBuilder(EventBuilder);

/// `eventheader_dynamic::EventSet`: the registration of one level and
/// keyword of a provider with the kernel.
#[verifier::external_type_specification]
#[verifier::external_body]
pub struct ExEventSet(EventSet);

/// A field as the builder holds it: its name, its typed value and the code
/// of its format.
pub struct StoredField {
    pub name: Seq<char>,
    pub value: ValueView,
    pub format: u8,
}

/// The name of the event that a builder holds: the name given at the last
/// reset.
pub uninterp spec fn builder_name(builder: EventBuilder) -> Seq<char>;

/// The opcode of the event that a builder holds.
pub uninterp spec fn builder_opcode(builder: EventBuilder) -> u8;

/// The fields that were added to a builder since its last reset, in the
/// order in which they were added.
pub uninterp spec fn builder_fields(builder: EventBuilder) -> Seq<StoredField>;

/// Whether `after` holds the event of `before` with `field` added at its
/// end.
pub open spec fn appended(before: EventBuilder, after: EventBuilder, field: StoredField) -> bool {
    &&& builder_name(after) == builder_name(before)
    &&& builder_opcode(after) == builder_opcode(before)
    &&& builder_fields(after) == builder_fields(before).push(field)
}

/// Whether two builders hold the same event.
pub open spec fn same_event(before: EventBuilder, after: EventBuilder) -> bool {
    &&& builder_name(after) == builder_name(before)
    &&& builder_opcode(after) == builder_opcode(before)
    &&& builder_fields(after) == builder_fields(before)
}

/// `EventBuilder::reset` with event tag 0: the builder forgets its event and
/// starts one with the given name, the opcode "info" and no fields. The
/// method asserts in debug builds that the name holds no NUL.
#[verifier::external_body]
fn builder_reset(builder: &mut EventBuilder, name: &str)
    requires
        nul_free(name@),
    ensures
        builder_name(*final(builder)) == name@,
        builder_opcode(*final(builder)) == OPCODE_INFO,
        builder_fields(*final(builder)) == Seq::<StoredField>::empty(),
{
    builder.reset(name, 0);
}

/// `EventBuilder::opcode` with `Opcode::from_int`: sets the opcode and
/// leaves the name and the fields as they are.
#[verifier::external_body]
fn builder_set_opcode(builder: &mut EventBuilder, opcode: u8)
    ensures
        builder_name(*final(builder)) == builder_name(*old(builder)),
        builder_opcode(*final(builder)) == opcode,
        builder_fields(*final(builder)) == builder_fields(*old(builder)),
{
    builder.opcode(Opcode::from_int(opcode));
}

/// `EventBuilder::add_value` for a `u8`, with field tag 0: adds one field of
/// one byte. The method asserts in debug builds that the name holds no NUL.
#[verifier::external_body]
fn builder_add_u8(builder: &mut EventBuilder, name: &str, value: u8, format: u8)
    requires
        nul_free(name@),
        format <= 127,
    ensures
        appended(
            *old(builder),
            *final(builder),
            StoredField { name: name@, value: ValueView::U8(value), format },
        ),
{
    builder.add_value(name, value, FieldFormat::from_int(format), 0);
}

/// `EventBuilder::add_value` for a `u32`, with field tag 0: adds one field
/// of four bytes.
#[verifier::external_body]
fn builder_add_u32(builder: &mut EventBuilder, name: &str, value: u32, format: u8)
    requires
        nul_free(name@),
        format <= 127,
    ensures
        appended(
            *old(builder),
            *final(builder),
            StoredField { name: name@, value: ValueView::U32(value), format },
        ),
{
    builder.add_value(name, value, FieldFormat::from_int(format), 0);
}

/// `EventBuilder::add_value` for an `i32`, with field tag 0: adds one field
/// of four bytes. The builder keeps the bytes and not the type, so what it
/// holds is the word of the value's 32 bits, as for a `u32` of those bits.
#[verifier::external_body]
fn builder_add_i32(builder: &mut EventBuilder, name: &str, value: i32, format: u8)
    requires
        nul_free(name@),
        format <= 127,
    ensures
        appended(
            *old(builder),
            *final(builder),
            StoredField { name: name@, value: ValueView::U32(word_of_i32(value)), format },
        ),
{
    builder.add_value(name, value, FieldFormat::from_int(format), 0);
}

/// `EventBuilder::add_value` for a `u64`, with field tag 0: adds one field
/// of eight bytes.
#[verifier::external_body]
fn builder_add_u64(builder: &mut EventBuilder, name: &str, value: u64, format: u8)
    requires
        nul_free(name@),
        format <= 127,
    ensures
        appended(
            *old(builder),
            *final(builder),
            StoredField { name: name@, value: ValueView::U64(value), format },
        ),
{
    builder.add_value(name, value, FieldFormat::from_int(format), 0);
}

/// `EventBuilder::add_value` for an `i64`, with field tag 0: adds one field
/// of eight bytes. The builder keeps the bytes and not the type, so what it
/// holds is the word of the value's 64 bits, as for a `u64` of those bits.
#[verifier::external_body]
fn builder_add_i64(builder: &mut EventBuilder, name: &str, value: i64, format: u8)
    requires
        nul_free(name@),
        format <= 127,
    ensures
        appended(
            *old(builder),
            *final(builder),
            StoredField { name: name@, value: ValueView::U64(word_of_i64(value)), format },
        ),
{
    builder.add_value(name, value, FieldFormat::from_int(format), 0);
}

/// `EventBuilder::add_str` on the UTF-8 bytes of a text, with field tag 0:
/// adds one counted text field. The method keeps only the first 65535 bytes
/// of a longer text, so a longer one is not handed to it.
#[verifier::external_body]
fn builder_add_text(builder: &mut EventBuilder, name: &str, text: &str, format: u8)
    requires
        nul_free(name@),
        format <= 127,
        encode_utf8(text@).len() <= COUNT_MAX,
    ensures
        appended(
            *old(builder),
            *final(builder),
            StoredField { name: name@, value: ValueView::Text(text@), format },
        ),
{
    builder.add_str(name, text.as_bytes(), FieldFormat::from_int(format), 0);
}

/// `EventBuilder::add_value_sequence` for `u64` items, with field tag 0:
/// adds one field that holds the items in order. The method stops after
/// 65535 items, so a longer sequence is not handed to it.
#[verifier::external_body]
fn builder_add_u64_sequence(builder: &mut EventBuilder, name: &str, words: &Vec<u64>, format: u8)
    requires
        nul_free(name@),
        format <= 127,
        words@.len() <= COUNT_MAX,
    ensures
        appended(
            *old(builder),
            *final(builder),
            StoredField { name: name@, value: ValueView::U64Seq(words@), format },
        ),
{
    builder.add_value_sequence(name, words, FieldFormat::from_int(format), 0);
}

/// `EventBuilder::add_struct` with field tag 0: adds one field that declares
/// the next `count` fields as its own. The method panics on a count of 0 and
/// asserts in debug builds that the count is under 128.
#[verifier::external_body]
fn builder_add_struct(builder: &mut EventBuilder, name: &str, count: u8)
    requires
        nul_free(name@),
        1 <= count <= STRUCT_FIELDS_MAX,
    ensures
        appended(
            *old(builder),
            *final(builder),
            StoredField { name: name@, value: ValueView::Struct(count), format: 0 },
        ),
{
    builder.add_struct(name, count, 0);
}

/// `EventBuilder::write` with no activity and no related activity: hands the
/// event to the kernel. What it returns is an errno for diagnosis; whether
/// anyone listens, and so whether anything was sent, is not known here.
#[verifier::external_body]
fn builder_write(builder: &EventBuilder, set: &EventSet) -> (code: i32)
{
    builder.write(set, None, None)
}

/// The code that the Linux encoding has for a format; `None` for the one
/// format that only Windows has.
pub open spec fn format_code(format: Format) -> Option<u8> {
    match format {
        Format::Default => Some(0u8),
        Format::Unsigned => Some(1u8),
        Format::Signed => Some(2u8),
        Format::Hex => Some(3u8),
        Format::Time => Some(6u8),
        Format::Boolean => Some(7u8),
        Format::Float => Some(8u8),
        Format::String8 => Some(10u8),
        Format::Utf8 => Some(11u8),
        Format::Json => Some(14u8),
        Format::DateTimeUtc => None,
    }
}

/// The value as the Linux encoding holds it. The encoding keeps the bytes
/// of a value and their number, not its type: a signed integer is held as
/// the unsigned word of its bits, a boolean as the 32-bit word 1 or 0, a
/// float as the 64-bit word of its pattern. Whether a word is shown as
/// signed, as a boolean or as a float is said by the field's format.
pub open spec fn stored_value(value: ValueView) -> ValueView {
    match value {
        ValueView::Bool32(b) => ValueView::U32(
            if b {
                1u32
            } else {
                0u32
            },
        ),
        ValueView::I32(v) => ValueView::U32(word_of_i32(v)),
        ValueView::I64(v) => ValueView::U64(word_of_i64(v)),
        ValueView::F64Bits(bits) => ValueView::U64(bits),
        other => other,
    }
}

/// Whether the Linux sink can write a value: every kind but a 16-bit
/// integer and an eight-word date, which only Windows events hold; a text of
/// at most 65535 bytes; a sequence of at most 65535 items; a struct of 1 to
/// 127 fields.
pub open spec fn value_supported(value: ValueView) -> bool {
    match value {
        ValueView::U16(_) => false,
        ValueView::SystemTime(_) => false,
        ValueView::Text(text) => encode_utf8(text).len() <= COUNT_MAX,
        ValueView::U64Seq(words) => words.len() <= COUNT_MAX,
        ValueView::Struct(count) => 1 <= count <= STRUCT_FIELDS_MAX,
        _ => true,
    }
}

/// Whether the Linux sink can write a field: its name holds no NUL, its
/// format has a code, and its value can be written.
pub open spec fn field_supported(field: FieldView) -> bool {
    &&& nul_free(field.name)
    &&& format_code(field.format) is Some
    &&& value_supported(field.value)
}

/// Whether the Linux sink can write an event: its name holds no NUL and
/// each of its fields can be written.
pub open spec fn event_supported(event: EventView) -> bool {
    &&& nul_free(event.name)
    &&& forall|i: int| 0 <= i < event.fields.len() ==> field_supported(#[trigger] event.fields[i])
}

/// The field as the builder holds it. A struct field has no format of its
/// own: its code is 0.
pub open spec fn stored_field(field: FieldView) -> StoredField {
    StoredField {
        name: field.name,
        value: stored_value(field.value),
        format: match field.value {
            ValueView::Struct(_) => 0u8,
            _ => format_code(field.format)->0,
        },
    }
}

/// The fields as the builder holds them, in order.
pub open spec fn stored_fields(fields: Seq<FieldView>) -> Seq<StoredField> {
    fields.map_values(|f: FieldView| stored_field(f))
}

/// The code that the Linux encoding has for a format.
pub fn code_of_format(format: Format) -> (code: Option<u8>)
    ensures
        code == format_code(format),
        code matches Some(c) ==> c <= 127,
{
    match format {
        Format::Default => Some(0),
        Format::Unsigned => Some(1),
        Format::Signed => Some(2),
        Format::Hex => Some(3),
        Format::Time => Some(6),
        Format::Boolean => Some(7),
        Format::Float => Some(8),
        Format::String8 => Some(10),
        Format::Utf8 => Some(11),
        Format::Json => Some(14),
        Format::DateTimeUtc => None,
    }
}

/// Whether the Linux sink can write a field.
pub fn supports_field(field: &Field) -> (supported: bool)
    ensures
        supported == field_supported(field@),
{
    if !is_nul_free(field.name.as_str()) {
        return false;
    }
    if code_of_format(field.format).is_none() {
        return false;
    }
    match &field.value {
        FieldValue::U16(_) => false,
        FieldValue::SystemTime(_) => false,
        FieldValue::Text(text) => text.as_str().as_bytes().len() <= COUNT_MAX,
        FieldValue::U64Seq(words) => words.len() <= COUNT_MAX,
        FieldValue::Struct(count) => 1 <= *count && *count <= STRUCT_FIELDS_MAX,
        _ => true,
    }
}

/// Whether the Linux sink can write an event.
pub fn supports_event(event: &Event) -> (supported: bool)
    ensures
        supported == event_supported(event@),
{
    if !is_nul_free(event.name.as_str()) {
        return false;
    }
    let mut i: usize = 0;
    while i < event.fields.len()
        invariant
            i <= event.fields.len(),
            forall|k: int| 0 <= k < i ==> field_supported(#[trigger] event@.fields[k]),
        decreases event.fields.len() - i,
    {
        if !supports_field(&event.fields[i]) {
            assert(event@.fields[i as int] == event.fields[i as int]@);
            return false;
        }
        assert(event@.fields[i as int] == event.fields[i as int]@);
        i += 1;
    }
    true
}

/// Adds one field to the builder, by the method that its kind of value
/// calls for.
fn write_field(builder: &mut EventBuilder, field: &Field)
    requires
        field_supported(field@),
    ensures
        appended(*old(builder), *final(builder), stored_field(field@)),
{
    let name: &str = field.name.as_str();
    let code: u8 = match code_of_format(field.format) {
        Some(c) => c,
        None => 0,
    };
    match &field.value {
        FieldValue::Bool32(b) => {
            let flag: i32 = if *b {
                1
            } else {
                0
            };
            builder_add_i32(builder, name, flag, code);
        },
        FieldValue::U8(v) => {
            builder_add_u8(builder, name, *v, code);
        },
        FieldValue::U16(_) => {},
        FieldValue::U32(v) => {
            builder_add_u32(builder, name, *v, code);
        },
        FieldValue::I32(v) => {
            builder_add_i32(builder, name, *v, code);
        },
        FieldValue::U64(v) => {
            builder_add_u64(builder, name, *v, code);
        },
        FieldValue::I64(v) => {
            builder_add_i64(builder, name, *v, code);
        },
        FieldValue::F64Bits(bits) => {
            builder_add_u64(builder, name, *bits, code);
        },
        FieldValue::Text(text) => {
            builder_add_text(builder, name, text.as_str(), code);
        },
        FieldValue::U64Seq(words) => {
            builder_add_u64_sequence(builder, name, words, code);
        },
        FieldValue::SystemTime(_) => {},
        FieldValue::Struct(count) => {
            builder_add_struct(builder, name, *count);
        },
    }
}

/// Adds the fields to the builder, in order.
fn write_fields(builder: &mut EventBuilder, fields: &Vec<Field>)
    requires
        forall|i: int| 0 <= i < fields.len() ==> field_supported(#[trigger] fields[i]@),
    ensures
        builder_name(*final(builder)) == builder_name(*old(builder)),
        builder_opcode(*final(builder)) == builder_opcode(*old(builder)),
        builder_fields(*final(builder)) == builder_fields(*old(builder)) + stored_fields(
            fields_view(fields@),
        ),
{
    let ghost views = fields_view(fields@);
    let mut i: usize = 0;
    assert(builder_fields(*builder) + stored_fields(views).take(0) =~= builder_fields(*builder));
    while i < fields.len()
        invariant
            i <= fields.len(),
            views == fields_view(fields@),
            forall|k: int| 0 <= k < fields.len() ==> field_supported(#[trigger] fields[k]@),
            builder_name(*builder) == builder_name(*old(builder)),
            builder_opcode(*builder) == builder_opcode(*old(builder)),
            builder_fields(*builder) == builder_fields(*old(builder)) + stored_fields(views).take(
                i as int,
            ),
        decreases fields.len() - i,
    {
        write_field(builder, &fields[i]);
        assert(stored_fields(views)[i as int] == stored_field(fields[i as int]@));
        assert(builder_fields(*builder) =~= builder_fields(*old(builder)) + stored_fields(
            views,
        ).take(i as int + 1));
        i += 1;
    }
    assert(stored_fields(views).take(fields.len() as int) =~= stored_fields(views));
}

/// Builds an event in the builder: resets it to the event's name, sets the
/// opcode and adds the fields in order. An event that the sink cannot write
/// is refused as a whole, and the builder keeps what it held.
pub fn write_event(builder: &mut EventBuilder, event: &Event) -> (written: bool)
    ensures
        written == event_supported(event@),
        written ==> builder_name(*final(builder)) == event@.name,
        written ==> builder_opcode(*final(builder)) == event@.opcode,
        written ==> builder_fields(*final(builder)) == stored_fields(event@.fields),
        !written ==> same_event(*old(builder), *final(builder)),
{
    if !supports_event(event) {
        return false;
    }
    assert forall|i: int| 0 <= i < event.fields.len() implies field_supported(
        #[trigger] event.fields[i]@,
    ) by {
        assert(event@.fields[i] == event.fields[i]@);
    }
    builder_reset(builder, event.name.as_str());
    builder_set_opcode(builder, event.opcode);
    write_fields(builder, &event.fields);
    assert(builder_fields(*builder) =~= stored_fields(event@.fields));
    true
}

/// Builds an event in the builder and hands it to the kernel through the
/// event set that was made for the event's level and keyword, with which it
/// goes out. `None` where the sink cannot write the event: then nothing is
/// built and nothing is sent. Else the errno that the kernel write gave,
/// which tells nothing about the event.
pub fn send_event(builder: &mut EventBuilder, set: &EventSet, event: &Event) -> (sent: Option<i32>)
    requires
        crate::provider::set_matches(*set, event@.level, event@.keyword),
    ensures
        sent is Some <==> event_supported(event@),
        sent is Some ==> builder_name(*final(builder)) == event@.name,
        sent is Some ==> builder_opcode(*final(builder)) == event@.opcode,
        sent is Some ==> builder_fields(*final(builder)) == stored_fields(event@.fields),
        sent is None ==> same_event(*old(builder), *final(builder)),
{
    if write_event(builder, event) {
        Some(builder_write(builder, set))
    } else {
        None
    }
}

/// The builder cannot tell a signed integer from the unsigned one of the
/// same bits, nor a boolean from the 32-bit word 1 or 0, nor a float from
/// the 64-bit word of its pattern: each pair is stored alike, and only the
/// format of the field says which was meant.
pub proof fn lemma_stored_by_bits(small: i32, large: i64, flag: bool, bits: u64)
    ensures
        stored_value(ValueView::I32(small)) == stored_value(ValueView::U32(word_of_i32(small))),
        stored_value(ValueView::I64(large)) == stored_value(ValueView::U64(word_of_i64(large))),
        stored_value(ValueView::Bool32(flag)) == stored_value(
            ValueView::U32(
                if flag {
                    1u32
                } else {
                    0u32
                },
            ),
        ),
        stored_value(ValueView::F64Bits(bits)) == stored_value(ValueView::U64(bits)),
{
}

} // verus!
