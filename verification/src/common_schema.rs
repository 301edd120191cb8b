//! The Common Schema event of a record: a second, versioned envelope for
//! consumers that read the same shape on every platform.
//!
//! The envelope has three groups. `PartA` holds the time and, where a valid
//! span is active, the trace identifiers. `PartB` holds the log's name, time
//! and severity. `PartC` holds the message. Each group declares how many
//! fields belong to it before they are written. Key-values are not part of
//! this event.

use crate::field::Backend;
use crate::field::Event;
use crate::field::EventView;
use crate::field::Field;
use crate::field::FieldValue;
use crate::field::FieldView;
use crate::field::Format;
use crate::field::OPCODE_INFO;
use crate::field::ValueView;
use crate::field::end_of_run;
use crate::field::fields_view;
use crate::field::struct_field;
use crate::field::text_field;
use crate::field::well_nested;
use crate::level::Level;
use crate::level::map_level;
use crate::level::native_level;
use crate::level::severity_number;
use crate::level::severity_text;
use crate::native::lemma_fields_view_push;
use crate::native::unsigned_format;
use crate::native::unsigned_format_of;
use crate::native::utf8_format;
use crate::native::utf8_format_of;
use crate::record::Record;
use crate::record::RecordView;
use crate::trace::TraceContext;
use crate::trace::has_valid_span;
use crate::trace::span_id_text;
use crate::trace::trace_id_text;
use vstd::prelude::*;

verus! {

/// The version of the schema: 4.1.
pub const SCHEMA_VERSION: u16 = 0x0401;

/// The number of fields in `PartB`.
pub const PART_B_FIELDS: u8 = 5;

/// The number of fields in `PartC`.
pub const PART_C_FIELDS: u8 = 1;

/// The version field. Windows writes it in 16 bits, Linux in 32.
pub open spec fn version_field(backend: Backend) -> FieldView {
    match backend {
        Backend::Etw => FieldView {
            name: "__csver__"@,
            value: ValueView::U16(SCHEMA_VERSION),
            format: Format::Signed,
        },
        Backend::UserEvents => FieldView {
            name: "__csver__"@,
            value: ValueView::I32(SCHEMA_VERSION as i32),
            format: Format::Signed,
        },
    }
}

/// The number of fields that `PartA` declares: the time, and the trace
/// extension where a valid span is active.
pub open spec fn part_a_count(trace: Option<TraceContext>) -> u8 {
    if has_valid_span(trace) {
        2
    } else {
        1
    }
}

/// The trace extension of `PartA`: the group `ext_dt` with the trace and span
/// identifiers in hex. Without a valid active span there is none.
pub open spec fn extension_part(backend: Backend, trace: Option<TraceContext>) -> Seq<FieldView> {
    if has_valid_span(trace) {
        seq![
            struct_field("ext_dt"@, 2),
            text_field("traceId"@, trace_id_text(trace->0.trace_id), utf8_format(backend)),
            text_field("spanId"@, span_id_text(trace->0.span_id), utf8_format(backend)),
        ]
    } else {
        Seq::empty()
    }
}

/// `PartA`: the group, its time, and the trace extension where there is one.
pub open spec fn part_a(backend: Backend, time_text: Seq<char>, trace: Option<TraceContext>) -> Seq<
    FieldView,
> {
    seq![
        struct_field("PartA"@, part_a_count(trace)),
        text_field("time"@, time_text, utf8_format(backend)),
    ] + extension_part(backend, trace)
}

/// The severity number field.
pub open spec fn severity_number_field(backend: Backend, level: Level) -> FieldView {
    FieldView {
        name: "severityNumber"@,
        value: ValueView::U8(severity_number(level)),
        format: unsigned_format(backend),
    }
}

/// `PartB`: the group and its five fields.
pub open spec fn part_b(
    backend: Backend,
    time_text: Seq<char>,
    event_name: Seq<char>,
    level: Level,
) -> Seq<FieldView> {
    seq![
        struct_field("PartB"@, PART_B_FIELDS),
        text_field("_typeName"@, "Log"@, utf8_format(backend)),
        text_field("name"@, event_name, utf8_format(backend)),
        text_field("eventTime"@, time_text, utf8_format(backend)),
        severity_number_field(backend, level),
        text_field("severityText"@, severity_text(level), utf8_format(backend)),
    ]
}

/// `PartC`: the group and the message.
pub open spec fn part_c(backend: Backend, payload: Seq<char>) -> Seq<FieldView> {
    seq![
        struct_field("PartC"@, PART_C_FIELDS),
        text_field("Payload"@, payload, utf8_format(backend)),
    ]
}

/// The fields of the Common Schema event of a record.
pub open spec fn common_schema_fields(
    backend: Backend,
    time_text: Seq<char>,
    trace: Option<TraceContext>,
    event_name: Seq<char>,
    record: RecordView,
) -> Seq<FieldView> {
    seq![version_field(backend)] + part_a(backend, time_text, trace) + part_b(
        backend,
        time_text,
        event_name,
        record.level,
    ) + part_c(backend, record.payload)
}

/// The Common Schema event of a record.
pub open spec fn common_schema_event(
    backend: Backend,
    time_text: Seq<char>,
    trace: Option<TraceContext>,
    event_name: Seq<char>,
    keyword: u64,
    record: RecordView,
) -> EventView {
    EventView {
        name: event_name,
        level: native_level(record.level),
        keyword,
        opcode: OPCODE_INFO,
        fields: common_schema_fields(backend, time_text, trace, event_name, record),
    }
}

fn version_field_of(backend: Backend) -> (field: Field)
    ensures
        field@ == version_field(backend),
{
    match backend {
        Backend::Etw => Field::new("__csver__", FieldValue::U16(SCHEMA_VERSION), Format::Signed),
        Backend::UserEvents => Field::new(
            "__csver__",
            FieldValue::I32(SCHEMA_VERSION as i32),
            Format::Signed,
        ),
    }
}

/// Appends `field` to `fields`.
fn push_field(fields: &mut Vec<Field>, field: Field)
    ensures
        fields_view(final(fields)@) == fields_view(old(fields)@).push(field@),
{
    proof {
        lemma_fields_view_push(fields@, field);
    }
    fields.push(field);
}

/// Builds the Common Schema event of a record. `time_text` is the time of
/// the log call as RFC 3339 text; it is written twice, as `time` in `PartA`
/// and as `eventTime` in `PartB`.
pub fn encode_common_schema(
    backend: Backend,
    time_text: &str,
    trace: Option<TraceContext>,
    event_name: &str,
    keyword: u64,
    record: &Record,
) -> (event: Event)
    ensures
        event@ == common_schema_event(
            backend,
            time_text@,
            trace,
            event_name@,
            keyword,
            record@,
        ),
{
    let text_format = utf8_format_of(backend);
    let mut fields: Vec<Field> = Vec::new();
    assert(fields_view(fields@) =~= Seq::<FieldView>::empty());
    push_field(&mut fields, version_field_of(backend));

    let span: Option<TraceContext> = match trace {
        Some(t) => if t.valid() {
            Some(t)
        } else {
            None
        },
        None => None,
    };
    match span {
        Some(t) => {
            push_field(&mut fields, Field::group("PartA", 2));
            push_field(&mut fields, Field::text("time", time_text, text_format));
            push_field(&mut fields, Field::group("ext_dt", 2));
            push_field(
                &mut fields,
                Field::text("traceId", t.trace_id_hex().as_str(), text_format),
            );
            push_field(&mut fields, Field::text("spanId", t.span_id_hex().as_str(), text_format));
        },
        None => {
            push_field(&mut fields, Field::group("PartA", 1));
            push_field(&mut fields, Field::text("time", time_text, text_format));
        },
    }
    assert(fields_view(fields@) =~= seq![version_field(backend)] + part_a(
        backend,
        time_text@,
        trace,
    ));
    let ghost with_a = fields_view(fields@);

    push_field(&mut fields, Field::group("PartB", PART_B_FIELDS));
    push_field(&mut fields, Field::text("_typeName", "Log", text_format));
    push_field(&mut fields, Field::text("name", event_name, text_format));
    push_field(&mut fields, Field::text("eventTime", time_text, text_format));
    push_field(
        &mut fields,
        Field::new(
            "severityNumber",
            FieldValue::U8(record.level.number()),
            unsigned_format_of(backend),
        ),
    );
    push_field(&mut fields, Field::text("severityText", record.level.as_str(), text_format));
    assert(fields_view(fields@) =~= with_a + part_b(
        backend,
        time_text@,
        event_name@,
        record@.level,
    ));
    let ghost with_b = fields_view(fields@);

    push_field(&mut fields, Field::group("PartC", PART_C_FIELDS));
    push_field(&mut fields, Field::text("Payload", record.payload.as_str(), text_format));
    assert(fields_view(fields@) =~= with_b + part_c(backend, record@.payload));

    Event {
        name: event_name.to_owned(),
        level: map_level(record.level),
        keyword,
        opcode: OPCODE_INFO,
        fields,
    }
}

/// `PartA` declares one field where no valid span is active, and two where
/// one is. The declaration is the second field of the event, after the
/// version.
pub proof fn lemma_part_a_count(
    backend: Backend,
    time_text: Seq<char>,
    trace: Option<TraceContext>,
    event_name: Seq<char>,
    record: RecordView,
)
    ensures
        common_schema_fields(backend, time_text, trace, event_name, record)[1] == struct_field(
            "PartA"@,
            part_a_count(trace),
        ),
        has_valid_span(trace) ==> part_a_count(trace) == 2,
        !has_valid_span(trace) ==> part_a_count(trace) == 1,
{
}

/// The trace extension is written for a valid span and for nothing else: a
/// call without a span, or with a span whose identifier is zero, gets no
/// group and no identifiers, zeroed or otherwise.
pub proof fn lemma_extension_only_for_valid_span(backend: Backend, trace: Option<TraceContext>)
    ensures
        extension_part(backend, trace).len() == (if has_valid_span(trace) {
            3int
        } else {
            0int
        }),
        (trace matches Some(t) && t.span_id == 0) ==> extension_part(backend, trace).len() == 0,
        trace is None ==> extension_part(backend, trace).len() == 0,
{
}

/// `time` in `PartA` and `eventTime` in `PartB` hold the same text.
pub proof fn lemma_times_agree(
    backend: Backend,
    time_text: Seq<char>,
    trace: Option<TraceContext>,
    event_name: Seq<char>,
    record: RecordView,
)
    ensures
        part_a(backend, time_text, trace)[1].value == ValueView::Text(time_text),
        part_b(backend, time_text, event_name, record.level)[3].value == ValueView::Text(
            time_text,
        ),
{
}

/// The Common Schema event does not depend on the record's key-values,
/// module path, file or line.
pub proof fn lemma_common_schema_ignores_key_values(
    backend: Backend,
    time_text: Seq<char>,
    trace: Option<TraceContext>,
    event_name: Seq<char>,
    a: RecordView,
    b: RecordView,
)
    requires
        a.level == b.level,
        a.payload == b.payload,
    ensures
        common_schema_fields(backend, time_text, trace, event_name, a) == common_schema_fields(
            backend,
            time_text,
            trace,
            event_name,
            b,
        ),
{
}

/// The declared counts of a Common Schema event are exact: the event is four
/// whole fields, the version and the three parts, and every group is
/// followed by just the fields that it declares.
pub proof fn lemma_common_schema_well_nested(
    backend: Backend,
    time_text: Seq<char>,
    trace: Option<TraceContext>,
    event_name: Seq<char>,
    record: RecordView,
)
    ensures
        well_nested(common_schema_fields(backend, time_text, trace, event_name, record), 4),
{
    let fields = common_schema_fields(backend, time_text, trace, event_name, record);
    let n = fields.len() as int;
    if has_valid_span(trace) {
        assert(n == 14);
        assert(end_of_run(fields, 14, 0) == Some(14int));
        assert(end_of_run(fields, 13, 1) == Some(14int));
        assert(end_of_run(fields, 12, 1) == Some(14int));
        assert(end_of_run(fields, 12, 0) == Some(12int));
        assert(end_of_run(fields, 11, 1) == Some(12int));
        assert(end_of_run(fields, 10, 2) == Some(12int));
        assert(end_of_run(fields, 9, 3) == Some(12int));
        assert(end_of_run(fields, 8, 4) == Some(12int));
        assert(end_of_run(fields, 7, 5) == Some(12int));
        assert(end_of_run(fields, 6, 2) == Some(14int));
        assert(end_of_run(fields, 6, 0) == Some(6int));
        assert(end_of_run(fields, 5, 1) == Some(6int));
        assert(end_of_run(fields, 4, 2) == Some(6int));
        assert(end_of_run(fields, 3, 1) == Some(6int));
        assert(end_of_run(fields, 2, 2) == Some(6int));
        assert(end_of_run(fields, 1, 3) == Some(14int));
        assert(end_of_run(fields, 0, 4) == Some(14int));
    } else {
        assert(n == 11);
        assert(end_of_run(fields, 11, 0) == Some(11int));
        assert(end_of_run(fields, 10, 1) == Some(11int));
        assert(end_of_run(fields, 9, 1) == Some(11int));
        assert(end_of_run(fields, 9, 0) == Some(9int));
        assert(end_of_run(fields, 8, 1) == Some(9int));
        assert(end_of_run(fields, 7, 2) == Some(9int));
        assert(end_of_run(fields, 6, 3) == Some(9int));
        assert(end_of_run(fields, 5, 4) == Some(9int));
        assert(end_of_run(fields, 4, 5) == Some(9int));
        assert(end_of_run(fields, 3, 2) == Some(11int));
        assert(end_of_run(fields, 3, 0) == Some(3int));
        assert(end_of_run(fields, 2, 1) == Some(3int));
        assert(end_of_run(fields, 1, 3) == Some(11int));
        assert(end_of_run(fields, 0, 4) == Some(11int));
    }
}

} // verus!
