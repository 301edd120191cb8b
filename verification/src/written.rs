//! What the Linux builder holds after a record was written, said for every
//! record of a kind: the laws of the layouts, carried through the sink.

use crate::common_schema::common_schema_fields;
use crate::common_schema::part_a_count;
use crate::common_schema::part_b;
use crate::common_schema::part_c;
use crate::common_schema::version_field;
use crate::field::nul_free;
use crate::field::struct_field;
use crate::field::text_field;
use crate::field::Backend;
use crate::field::Format;
use crate::field::ValueView;
use crate::fits::lemma_native_event_supported;
use crate::fits::record_fits;
use crate::native::kv_field;
use crate::native::lemma_bare_record_fields;
use crate::native::lemma_file_with_line;
use crate::native::lemma_file_without_line;
use crate::native::line_field;
use crate::native::native_fields;
use crate::native::user_events_time_field;
use crate::provider::common_schema_record_event;
use crate::provider::native_record_event;
use crate::provider::record_written;
use crate::provider::sendable;
use crate::provider::WriteOutcome;
use crate::record::RecordView;
use crate::sink::builder_fields;
use crate::sink::event_supported;
use crate::sink::stored_field;
use crate::sink::stored_fields;
use crate::sink::StoredField;
use crate::time::utc_rfc3339;
use crate::time::Timestamp;
use crate::trace::has_valid_span;
use crate::trace::TraceContext;
use crate::value::lemma_words_round_trip;
use crate::value::twos_complement;
use crate::value::value_of_words;
use crate::value::words_of;
use crate::value::KeyValueView;
use crate::value::KvValueView;
use eventheader_dynamic::EventBuilder;
use vstd::prelude::*;

verus! {

/// A record without key-values, module path and file that was written
/// outside Common Schema mode went out as one event, and the builder holds
/// exactly its two fields: `time` and then `Payload`.
pub proof fn lemma_written_bare_record(
    outcome: WriteOutcome,
    before: EventBuilder,
    after: EventBuilder,
    timestamp: Timestamp,
    trace: Option<TraceContext>,
    event_name: Seq<char>,
    keyword: u64,
    record: RecordView,
    json: bool,
)
    requires
        outcome is Written,
        record_written(
            outcome,
            before,
            after,
            timestamp,
            trace,
            event_name,
            keyword,
            record,
            json,
            false,
        ),
        nul_free(event_name),
        record_fits(record, json),
        record.key_values.len() == 0,
        record.module is None,
        record.file is None,
        json ==> record.key_values_json is None,
    ensures
        outcome->native is Sent,
        outcome->common_schema is None,
        builder_fields(after) == stored_fields(
            seq![
                user_events_time_field(timestamp.secs),
                text_field("Payload"@, record.payload, Format::Default),
            ],
        ),
        builder_fields(after).len() == 2,
        builder_fields(after)[0].name == "time"@,
        builder_fields(after)[1].name == "Payload"@,
        builder_fields(after)[1].value == ValueView::Text(record.payload),
{
    lemma_native_event_supported(timestamp.secs, event_name, keyword, record, json);
    lemma_bare_record_fields(
        Backend::UserEvents,
        user_events_time_field(timestamp.secs),
        record,
        json,
    );
}

/// A record with a file and no line that was written outside Common Schema
/// mode ends, in the builder, with its `File` field: no `Line` follows.
pub proof fn lemma_written_file_without_line(
    outcome: WriteOutcome,
    before: EventBuilder,
    after: EventBuilder,
    timestamp: Timestamp,
    trace: Option<TraceContext>,
    event_name: Seq<char>,
    keyword: u64,
    record: RecordView,
    json: bool,
)
    requires
        outcome is Written,
        record_written(
            outcome,
            before,
            after,
            timestamp,
            trace,
            event_name,
            keyword,
            record,
            json,
            false,
        ),
        event_supported(native_record_event(timestamp, event_name, keyword, record, json)),
        record.file is Some,
        record.line is None,
    ensures
        outcome->native is Sent,
        builder_fields(after).len() >= 3,
        builder_fields(after).last() == stored_field(
            text_field("File"@, record.file->0, Format::Default),
        ),
        builder_fields(after).last().name == "File"@,
{
    let fields = native_fields(
        Backend::UserEvents,
        user_events_time_field(timestamp.secs),
        record,
        json,
    );
    lemma_file_without_line(
        Backend::UserEvents,
        user_events_time_field(timestamp.secs),
        record,
        json,
    );
    assert(stored_fields(fields).last() == stored_field(fields.last()));
}

/// A record with a file and a line that was written outside Common Schema
/// mode ends, in the builder, with its `File` field and then its `Line`
/// field, an unsigned word of 32 bits.
pub proof fn lemma_written_file_with_line(
    outcome: WriteOutcome,
    before: EventBuilder,
    after: EventBuilder,
    timestamp: Timestamp,
    trace: Option<TraceContext>,
    event_name: Seq<char>,
    keyword: u64,
    record: RecordView,
    json: bool,
)
    requires
        outcome is Written,
        record_written(
            outcome,
            before,
            after,
            timestamp,
            trace,
            event_name,
            keyword,
            record,
            json,
            false,
        ),
        event_supported(native_record_event(timestamp, event_name, keyword, record, json)),
        record.file is Some,
        record.line is Some,
    ensures
        outcome->native is Sent,
        builder_fields(after).len() >= 4,
        builder_fields(after)[builder_fields(after).len() - 2] == stored_field(
            text_field("File"@, record.file->0, Format::Default),
        ),
        builder_fields(after).last() == (StoredField {
            name: "Line"@,
            value: ValueView::U32(record.line->0),
            format: 0,
        }),
{
    let fields = native_fields(
        Backend::UserEvents,
        user_events_time_field(timestamp.secs),
        record,
        json,
    );
    lemma_file_with_line(Backend::UserEvents, user_events_time_field(timestamp.secs), record, json);
    assert(stored_fields(fields).last() == stored_field(fields.last()));
    assert(stored_fields(fields)[fields.len() - 2] == stored_field(fields[fields.len() - 2]));
    assert(fields.last() == line_field(Backend::UserEvents, record.line->0));
}

/// A key with a 128-bit value is stored as a hex sequence of exactly two
/// words, low word first, and the words give the value back; a signed value
/// goes by its bits.
pub proof fn lemma_stored_wide_value(key: Seq<char>, unsigned: u128, signed: i128)
    requires
        nul_free(key),
    ensures
        stored_field(
            kv_field(
                Backend::UserEvents,
                KeyValueView { key, value: KvValueView::U128(unsigned) },
            )->0,
        ) == (StoredField { name: key, value: ValueView::U64Seq(words_of(unsigned)), format: 3 }),
        stored_field(
            kv_field(Backend::UserEvents, KeyValueView { key, value: KvValueView::I128(signed) })->0,
        ) == (StoredField {
            name: key,
            value: ValueView::U64Seq(words_of(twos_complement(signed))),
            format: 3,
        }),
        words_of(unsigned).len() == 2,
        value_of_words(words_of(unsigned)[0], words_of(unsigned)[1]) == unsigned,
        value_of_words(words_of(twos_complement(signed))[0], words_of(twos_complement(signed))[1])
            == twos_complement(signed),
{
    lemma_words_round_trip(unsigned);
    lemma_words_round_trip(twos_complement(signed));
}

/// A record that was written in Common Schema mode without a valid active
/// span left, in the builder, an envelope of eleven fields whose `PartA`
/// declares one field, `time`, and is followed at once by `PartB`: no trace
/// extension and no identifiers, zeroed or otherwise.
pub proof fn lemma_written_without_span(
    outcome: WriteOutcome,
    before: EventBuilder,
    after: EventBuilder,
    timestamp: Timestamp,
    trace: Option<TraceContext>,
    event_name: Seq<char>,
    keyword: u64,
    record: RecordView,
    json: bool,
)
    requires
        outcome is Written,
        record_written(
            outcome,
            before,
            after,
            timestamp,
            trace,
            event_name,
            keyword,
            record,
            json,
            true,
        ),
        sendable(common_schema_record_event(timestamp, trace, event_name, keyword, record)),
        !has_valid_span(trace),
    ensures
        outcome->common_schema matches Some(delivery) && delivery is Sent,
        builder_fields(after).len() == 11,
        builder_fields(after)[1] == stored_field(struct_field("PartA"@, 1)),
        builder_fields(after)[2].name == "time"@,
        builder_fields(after)[3] == stored_field(struct_field("PartB"@, 5)),
        builder_fields(after) == stored_fields(
            seq![version_field(Backend::UserEvents)] + seq![
                struct_field("PartA"@, 1),
                text_field("time"@, utc_rfc3339(timestamp.secs, timestamp.nanos)->0, Format::Default),
            ] + part_b(
                Backend::UserEvents,
                utc_rfc3339(timestamp.secs, timestamp.nanos)->0,
                event_name,
                record.level,
            ) + part_c(Backend::UserEvents, record.payload),
        ),
{
    let text = utc_rfc3339(timestamp.secs, timestamp.nanos)->0;
    let fields = common_schema_fields(Backend::UserEvents, text, trace, event_name, record);
    assert(part_a_count(trace) == 1);
    let flat = seq![version_field(Backend::UserEvents)] + seq![
        struct_field("PartA"@, 1),
        text_field("time"@, text, Format::Default),
    ] + part_b(Backend::UserEvents, text, event_name, record.level) + part_c(
        Backend::UserEvents,
        record.payload,
    );
    assert(fields =~= flat);
    assert(fields.len() == 11);
    assert(stored_fields(fields)[1] == stored_field(fields[1]));
    assert(stored_fields(fields)[2] == stored_field(fields[2]));
    assert(stored_fields(fields)[3] == stored_field(fields[3]));
}

} // verus!
