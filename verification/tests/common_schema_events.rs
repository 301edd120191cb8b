use etw_eventheader_log::common_schema::encode_common_schema;
use etw_eventheader_log::field::Backend;
use etw_eventheader_log::field::Field;
use etw_eventheader_log::field::FieldValue;
use etw_eventheader_log::field::Format;
use etw_eventheader_log::level::Level;
use etw_eventheader_log::record::Record;
use etw_eventheader_log::trace::TraceContext;
use etw_eventheader_log::value::KeyValue;
use etw_eventheader_log::value::KvValue;

const TIME: &str = "2023-11-14T22:13:20+00:00";

fn text(name: &str, value: &str, format: Format) -> Field {
    Field { name: name.to_string(), value: FieldValue::Text(value.to_string()), format }
}

fn group(name: &str, count: u8) -> Field {
    Field { name: name.to_string(), value: FieldValue::Struct(count), format: Format::Default }
}

#[test]
fn part_a_declares_one_field_without_a_span() {
    let record = Record::new(Level::Warn, "App", "careful");
    let event = encode_common_schema(Backend::UserEvents, TIME, None, "Log1", 0, &record);
    assert_eq!(event.fields[1], group("PartA", 1));
    assert_eq!(event.fields.len(), 11);
}

#[test]
fn part_a_declares_two_fields_with_a_valid_span() {
    let record = Record::new(Level::Warn, "App", "careful");
    let trace = TraceContext { trace_id: 0xabc, span_id: 0xdef };
    let event = encode_common_schema(Backend::UserEvents, TIME, Some(trace), "Log1", 0, &record);
    assert_eq!(event.fields[1], group("PartA", 2));
    assert_eq!(event.fields.len(), 14);
}

#[test]
fn a_span_with_a_zero_identifier_is_left_out() {
    let record = Record::new(Level::Warn, "App", "careful");
    let trace = TraceContext { trace_id: 0xabc, span_id: 0 };
    let with_zero = encode_common_schema(Backend::UserEvents, TIME, Some(trace), "Log1", 0, &record);
    let without = encode_common_schema(Backend::UserEvents, TIME, None, "Log1", 0, &record);
    assert_eq!(with_zero, without);
    assert!(with_zero.fields.iter().all(|f| f.name != "ext_dt" && f.name != "traceId" && f.name != "spanId"));
}

#[test]
fn the_whole_envelope_on_linux_without_a_span() {
    let record = Record::new(Level::Warn, "App", "careful");
    let event = encode_common_schema(Backend::UserEvents, TIME, None, "Log1", 0, &record);
    let d = Format::Default;
    assert_eq!(
        event.fields,
        vec![
            Field { name: "__csver__".to_string(), value: FieldValue::I32(0x0401), format: Format::Signed },
            group("PartA", 1),
            text("time", TIME, d),
            group("PartB", 5),
            text("_typeName", "Log", d),
            text("name", "Log1", d),
            text("eventTime", TIME, d),
            Field { name: "severityNumber".to_string(), value: FieldValue::U8(2), format: d },
            text("severityText", "WARN", d),
            group("PartC", 1),
            text("Payload", "careful", d),
        ]
    );
    assert_eq!(event.name, "Log1");
    assert_eq!(event.level, 3);
    assert_eq!(event.opcode, 0);
}

#[test]
fn the_whole_envelope_on_windows_with_a_span() {
    let record = Record::new(Level::Trace, "App", "details");
    let trace = TraceContext { trace_id: 0x4bf92f3577b34da6a3ce929d0e0e4736, span_id: 0x00f067aa0ba902b7 };
    let event = encode_common_schema(Backend::Etw, TIME, Some(trace), "Log2", 0x20, &record);
    let u = Format::Utf8;
    assert_eq!(
        event.fields,
        vec![
            Field { name: "__csver__".to_string(), value: FieldValue::U16(0x0401), format: Format::Signed },
            group("PartA", 2),
            text("time", TIME, u),
            group("ext_dt", 2),
            text("traceId", "4bf92f3577b34da6a3ce929d0e0e4736", u),
            text("spanId", "00f067aa0ba902b7", u),
            group("PartB", 5),
            text("_typeName", "Log", u),
            text("name", "Log2", u),
            text("eventTime", TIME, u),
            Field { name: "severityNumber".to_string(), value: FieldValue::U8(5), format: Format::Unsigned },
            text("severityText", "TRACE", u),
            group("PartC", 1),
            text("Payload", "details", u),
        ]
    );
    assert_eq!(event.level, 6);
    assert_eq!(event.keyword, 0x20);
}

#[test]
fn key_values_are_not_part_of_the_envelope() {
    let bare = Record::new(Level::Info, "App", "m");
    let mut full = Record::new(Level::Info, "App", "m");
    full.key_values = vec![KeyValue { key: "a".to_string(), value: KvValue::U64(1) }];
    full.key_values_json = Some("{\"a\":1}".to_string());
    full.module = Some("app".to_string());
    full.file = Some("app.rs".to_string());
    full.line = Some(3);
    assert_eq!(
        encode_common_schema(Backend::UserEvents, TIME, None, "E", 0, &bare),
        encode_common_schema(Backend::UserEvents, TIME, None, "E", 0, &full)
    );
}

#[test]
fn declared_counts_match_what_follows() {
    let record = Record::new(Level::Warn, "App", "careful");
    let trace = TraceContext { trace_id: 1, span_id: 2 };
    let event = encode_common_schema(Backend::UserEvents, TIME, Some(trace), "Log1", 0, &record);
    fn skip(fields: &[Field], at: usize) -> usize {
        match fields[at].value {
            FieldValue::Struct(count) => {
                let mut next = at + 1;
                for _ in 0..count {
                    next = skip(fields, next);
                }
                next
            }
            _ => at + 1,
        }
    }
    let mut at = 0;
    let mut top = 0;
    while at < event.fields.len() {
        at = skip(&event.fields, at);
        top += 1;
    }
    assert_eq!(at, event.fields.len());
    assert_eq!(top, 4);
}
