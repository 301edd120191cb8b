use etw_eventheader_log::etw::code_of_out_type;
use etw_eventheader_log::etw::deliver;
use etw_eventheader_log::etw::encode_common_schema_record;
use etw_eventheader_log::etw::encode_native_record;
use etw_eventheader_log::etw::new_provider;
use etw_eventheader_log::etw::EtwDelivery;
use etw_eventheader_log::etw::write_enabled_record;
use etw_eventheader_log::etw::write_record;
use etw_eventheader_log::etw::write_record_if_listening;
use etw_eventheader_log::etw::EtwOutcome;
use etw_eventheader_log::etw_registry::EtwProviders;
use etw_eventheader_log::etw_registry::EtwRegistry;
use etw_eventheader_log::logger::ExporterConfig;
use etw_eventheader_log::provider::ProviderGroup;
use etw_eventheader_log::provider::ProviderId;
use etw_eventheader_log::time::Timestamp;
use etw_eventheader_log::etw::send_event;
use etw_eventheader_log::etw::supports_event;
use etw_eventheader_log::etw::supports_field;
use etw_eventheader_log::etw::write_event;
use etw_eventheader_log::common_schema::encode_common_schema;
use etw_eventheader_log::field::Backend;
use etw_eventheader_log::field::Event;
use etw_eventheader_log::field::Field;
use etw_eventheader_log::field::FieldValue;
use etw_eventheader_log::field::Format;
use etw_eventheader_log::level::Level;
use etw_eventheader_log::native::encode_native_etw;
use etw_eventheader_log::record::Record;
use etw_eventheader_log::time::Win32SystemTime;
use etw_eventheader_log::value::KeyValue;
use etw_eventheader_log::value::KvValue;
use tracelogging_dynamic::EventBuilder;
use tracelogging_dynamic::Provider;

fn event(name: &str, fields: Vec<Field>) -> Event {
    Event { name: name.to_string(), level: 4, keyword: 1, opcode: 0, fields }
}

fn field(name: &str, value: FieldValue, format: Format) -> Field {
    Field { name: name.to_string(), value, format }
}

/// The description of the event after the three bytes that every event
/// starts with, and then the values, as the builder holds them.
fn expect(builder: &EventBuilder, meta: &[u8], data: &[u8]) {
    let text = format!("{:?}", builder);
    let mut whole: Vec<u8> = vec![0, 0, 0];
    whole.extend_from_slice(meta);
    let wanted = format!("meta: {:?}, data: {:?},", whole, data);
    assert!(text.contains(&wanted), "{} does not hold {}", text, wanted);
}

fn written(fields: Vec<Field>) -> EventBuilder {
    let mut builder = EventBuilder::new();
    assert!(write_event(&mut builder, &event("Ev", fields)));
    builder
}

#[test]
fn a_windows_event_holds_its_name_level_and_keyword() {
    let mut builder = EventBuilder::new();
    let mut e = event("Ev", vec![]);
    e.level = 3;
    e.keyword = 0x20;
    assert!(write_event(&mut builder, &e));
    expect(&builder, &[69, 118, 0], &[]);
    let text = format!("{:?}", builder);
    assert!(text.contains("keyword: 32"), "{}", text);
    assert!(text.contains("level: Warning") || text.contains("level: Level(3)"), "{}", text);
    assert!(text.contains("opcode: Info") || text.contains("opcode: Opcode(0)"), "{}", text);
}

#[test]
fn windows_scalar_fields() {
    let builder = written(vec![field("a", FieldValue::U8(7), Format::Default)]);
    expect(&builder, &[69, 118, 0, 97, 0, 4], &[7]);
    let builder = written(vec![field("a", FieldValue::U8(0x41), Format::String8)]);
    expect(&builder, &[69, 118, 0, 97, 0, 0x84, 2], &[0x41]);
    let builder = written(vec![field("a", FieldValue::U16(0x0401), Format::Signed)]);
    expect(&builder, &[69, 118, 0, 97, 0, 0x86, 17], &0x0401u16.to_ne_bytes());
    let builder = written(vec![field("a", FieldValue::U32(42), Format::Unsigned)]);
    expect(&builder, &[69, 118, 0, 97, 0, 0x88, 18], &42u32.to_ne_bytes());
    let builder = written(vec![field("a", FieldValue::I32(-42), Format::Signed)]);
    expect(&builder, &[69, 118, 0, 97, 0, 0x87, 17], &(-42i32).to_ne_bytes());
    let builder = written(vec![field("a", FieldValue::U64(9), Format::Unsigned)]);
    expect(&builder, &[69, 118, 0, 97, 0, 0x8a, 18], &9u64.to_ne_bytes());
    let builder = written(vec![field("a", FieldValue::I64(-9), Format::Signed)]);
    expect(&builder, &[69, 118, 0, 97, 0, 0x89, 17], &(-9i64).to_ne_bytes());
}

#[test]
fn a_windows_boolean_is_written_in_32_bits() {
    let builder = written(vec![
        field("t", FieldValue::Bool32(true), Format::Boolean),
        field("f", FieldValue::Bool32(false), Format::Boolean),
    ]);
    let mut data: Vec<u8> = 1i32.to_ne_bytes().to_vec();
    data.extend_from_slice(&0i32.to_ne_bytes());
    expect(&builder, &[69, 118, 0, 116, 0, 0x8d, 3, 102, 0, 0x8d, 3], &data);
}

#[test]
fn a_windows_float_is_written_as_the_builder_writes_floats() {
    let builder = written(vec![field("x", FieldValue::F64Bits(1.5f64.to_bits()), Format::Signed)]);
    let mut direct = EventBuilder::new();
    direct.reset("Ev", tracelogging::Level::from_int(4), 1, 0);
    direct.add_f64("x", 1.5, tracelogging::OutType::Signed, 0);
    assert_eq!(format!("{:?}", builder), format!("{:?}", direct));
    expect(&builder, &[69, 118, 0, 120, 0, 0x8c, 17], &1.5f64.to_ne_bytes());
}

#[test]
fn a_windows_text_field_is_counted() {
    let builder = written(vec![field("t", FieldValue::Text("hi".to_string()), Format::Utf8)]);
    let mut data: Vec<u8> = 2u16.to_ne_bytes().to_vec();
    data.extend_from_slice(b"hi");
    expect(&builder, &[69, 118, 0, 116, 0, 0x80 | 23, 35], &data);
}

#[test]
fn a_windows_sequence_of_words() {
    let builder = written(vec![field("w", FieldValue::U64Seq(vec![1, 2]), Format::Hex)]);
    let mut data: Vec<u8> = 2u16.to_ne_bytes().to_vec();
    data.extend_from_slice(&1u64.to_ne_bytes());
    data.extend_from_slice(&2u64.to_ne_bytes());
    expect(&builder, &[69, 118, 0, 119, 0, 0x80 | 0x40 | 10, 4], &data);
}

#[test]
fn a_windows_date_and_time() {
    let time = Win32SystemTime { st: [2023, 11, 0, 14, 22, 13, 20, 123] };
    let builder = written(vec![field("time", FieldValue::SystemTime(time), Format::DateTimeUtc)]);
    let mut data: Vec<u8> = Vec::new();
    for word in time.st {
        data.extend_from_slice(&word.to_ne_bytes());
    }
    expect(&builder, &[69, 118, 0, 116, 105, 109, 101, 0, 0x80 | 18, 38], &data);
}

#[test]
fn a_windows_struct_declares_its_fields() {
    let builder = written(vec![
        field("S", FieldValue::Struct(2), Format::Default),
        field("a", FieldValue::U8(1), Format::Default),
        field("b", FieldValue::U8(2), Format::Default),
    ]);
    expect(&builder, &[69, 118, 0, 83, 0, 0x80 | 24, 2, 97, 0, 4, 98, 0, 4], &[1, 2]);
}

#[test]
fn the_windows_opcode_is_set() {
    let mut builder = EventBuilder::new();
    let mut e = event("Ev", vec![]);
    e.opcode = 1;
    assert!(write_event(&mut builder, &e));
    let text = format!("{:?}", builder);
    assert!(text.contains("opcode: ActivityStart") || text.contains("opcode: Opcode(1)"), "{}", text);
}

#[test]
fn a_windows_event_that_cannot_be_written_leaves_the_builder_alone() {
    let mut builder = written(vec![field("a", FieldValue::U8(7), Format::Default)]);
    let before = format!("{:?}", builder);
    assert!(!write_event(&mut builder, &event("E\0v", vec![])));
    assert_eq!(format!("{:?}", builder), before);
    let linux = event("L", vec![field("time", FieldValue::I64(5), Format::Time)]);
    assert!(!write_event(&mut builder, &linux));
    assert_eq!(format!("{:?}", builder), before);
    let late = event(
        "L",
        vec![
            field("ok", FieldValue::U8(1), Format::Default),
            field("S", FieldValue::Struct(0), Format::Default),
        ],
    );
    assert!(!write_event(&mut builder, &late));
    assert_eq!(format!("{:?}", builder), before);
}

#[test]
fn what_the_windows_sink_can_write() {
    assert!(supports_field(&field("a", FieldValue::U16(1), Format::Signed)));
    assert!(supports_field(&field("a", FieldValue::Struct(127), Format::Default)));
    assert!(!supports_field(&field("a", FieldValue::Struct(128), Format::Default)));
    assert!(!supports_field(&field("a", FieldValue::Struct(0), Format::Default)));
    assert!(!supports_field(&field("a", FieldValue::U64(1), Format::Float)));
    assert!(!supports_field(&field("a", FieldValue::U64(1), Format::Time)));
    assert!(!supports_field(&field("a\0", FieldValue::U64(1), Format::Default)));
    assert!(supports_field(&field("a", FieldValue::Text("x".repeat(65535)), Format::Utf8)));
    assert!(!supports_field(&field("a", FieldValue::Text("x".repeat(65536)), Format::Utf8)));
    assert!(!supports_field(&field("a", FieldValue::U64Seq(vec![0; 65536]), Format::Hex)));
    assert!(supports_event(&event("Ev", vec![])));
    assert!(!supports_event(&event("\0", vec![])));
}

#[test]
fn windows_format_codes() {
    assert_eq!(code_of_out_type(Format::Default), Some(tracelogging::OutType::Default.as_int()));
    assert_eq!(code_of_out_type(Format::String8), Some(tracelogging::OutType::String.as_int()));
    assert_eq!(code_of_out_type(Format::Boolean), Some(tracelogging::OutType::Boolean.as_int()));
    assert_eq!(code_of_out_type(Format::Hex), Some(tracelogging::OutType::Hex.as_int()));
    assert_eq!(code_of_out_type(Format::Json), Some(tracelogging::OutType::Json.as_int()));
    assert_eq!(code_of_out_type(Format::Signed), Some(tracelogging::OutType::Signed.as_int()));
    assert_eq!(code_of_out_type(Format::Unsigned), Some(tracelogging::OutType::Unsigned.as_int()));
    assert_eq!(code_of_out_type(Format::Utf8), Some(tracelogging::OutType::Utf8.as_int()));
    assert_eq!(
        code_of_out_type(Format::DateTimeUtc),
        Some(tracelogging::OutType::DateTimeUtc.as_int())
    );
    assert_eq!(code_of_out_type(Format::Float), None);
    assert_eq!(code_of_out_type(Format::Time), None);
    assert_eq!(code_of_out_type(Format::Signed), Some(17));
    assert_eq!(code_of_out_type(Format::Utf8), Some(35));
}

#[test]
fn the_windows_layouts_can_be_written() {
    let mut record = Record::new(Level::Warn, "App", "careful");
    record.key_values = vec![
        KeyValue { key: "a".to_string(), value: KvValue::F64Bits(2.5f64.to_bits()) },
        KeyValue { key: "b".to_string(), value: KvValue::U128(7) },
        KeyValue { key: "c".to_string(), value: KvValue::Char('x') },
    ];
    record.file = Some("app.rs".to_string());
    record.line = Some(3);
    let time = Win32SystemTime { st: [2023, 11, 0, 14, 22, 13, 20, 123] };
    let native = encode_native_etw(&time, "Ev", 1, &record, false);
    let mut builder = EventBuilder::new();
    assert!(write_event(&mut builder, &native));
    let envelope =
        encode_common_schema(Backend::Etw, "2023-11-14T22:13:20+00:00", None, "Ev", 1, &record);
    assert!(write_event(&mut builder, &envelope));
}

#[test]
fn sending_a_windows_event_builds_it_first() {
    let provider = Provider::new("MyProvider", &Provider::options());
    let mut builder = EventBuilder::new();
    let sent = send_event(&mut builder, &provider, &event("Ev", vec![field("a", FieldValue::U8(7), Format::Default)]));
    assert!(sent.is_some());
    let text = format!("{:?}", builder);
    assert!(text.contains("69, 118, 0, 97, 0, 4], data: [7],"), "{}", text);
    let before = format!("{:?}", builder);
    assert_eq!(send_event(&mut builder, &provider, &event("E\0", vec![])), None);
    assert_eq!(format!("{:?}", builder), before);
}

fn config(json: bool, common_schema: bool) -> ExporterConfig {
    ExporterConfig {
        default_provider_name: "App".to_string(),
        default_provider_id: ProviderId::from_name("App"),
        default_provider_group: ProviderGroup::Unset,
        json,
        common_schema,
    }
}

#[test]
fn a_windows_record_gets_its_date_and_time() {
    let record = Record::new(Level::Warn, "App", "careful");
    let ts = Timestamp { secs: 1_700_000_000, nanos: 123_456_789 };
    let event = encode_native_record(&ts, "Ev", 1, &record, &config(false, false)).expect("in range");
    assert_eq!(
        event.fields[0],
        field(
            "time",
            FieldValue::SystemTime(Win32SystemTime { st: [2023, 11, 0, 14, 22, 13, 20, 123] }),
            Format::DateTimeUtc
        )
    );
    assert_eq!(event.fields[1], field("Payload", FieldValue::Text("careful".to_string()), Format::Utf8));
    assert_eq!(event.fields.len(), 2);
    assert_eq!(event.level, 3);
    assert_eq!(event.keyword, 1);
    let envelope = encode_common_schema_record(&ts, None, "Ev", 1, &record).expect("in range");
    assert_eq!(
        envelope.fields[2],
        field("time", FieldValue::Text("2023-11-14T22:13:20.123456789+00:00".to_string()), Format::Utf8)
    );
    let late = Timestamp { secs: i64::MAX, nanos: 0 };
    assert_eq!(encode_native_record(&late, "Ev", 1, &record, &config(false, false)), None);
    assert_eq!(encode_common_schema_record(&late, None, "Ev", 1, &record), None);
}

const NATIVE_META: &str =
    "69, 118, 0, 116, 105, 109, 101, 0, 146, 38, 80, 97, 121, 108, 111, 97, 100, 0, 151, 35]";

#[test]
fn a_windows_record_that_nobody_listens_for_encodes_nothing() {
    let provider = Provider::new("MyProvider", &Provider::options());
    let mut builder = EventBuilder::new();
    let before = format!("{:?}", builder);
    let record = Record::new(Level::Warn, "App", "careful");
    let ts = Timestamp { secs: 1_700_000_000, nanos: 0 };
    let outcome = write_record(&provider, &mut builder, &ts, None, "Ev", 1, &record, &config(false, false));
    assert_eq!(outcome, EtwOutcome::Disabled);
    assert_eq!(format!("{:?}", builder), before);
}

#[test]
fn a_windows_record_is_built_or_refused() {
    let provider = Provider::new("MyProvider", &Provider::options());
    let mut builder = EventBuilder::new();
    let record = Record::new(Level::Warn, "App", "careful");
    let ts = Timestamp { secs: 1_700_000_000, nanos: 0 };
    let outcome =
        write_enabled_record(&mut builder, &provider, &ts, None, "Ev", 1, &record, &config(false, false));
    assert!(matches!(outcome, EtwOutcome::Written { native: EtwDelivery::Sent(_), common_schema: None }));
    let text = format!("{:?}", builder);
    assert!(text.contains(NATIVE_META), "{}", text);
    assert!(text.contains("level: Warning") || text.contains("level: Level(3)"), "{}", text);
    assert!(text.contains("keyword: 1"), "{}", text);
    let before = format!("{:?}", builder);
    let late = Timestamp { secs: i64::MAX, nanos: 0 };
    let outcome =
        write_enabled_record(&mut builder, &provider, &late, None, "Ev", 1, &record, &config(false, false));
    assert_eq!(outcome, EtwOutcome::Written { native: EtwDelivery::Refused, common_schema: None });
    assert_eq!(format!("{:?}", builder), before);
    let outcome =
        write_enabled_record(&mut builder, &provider, &ts, None, "E\0v", 1, &record, &config(false, true));
    assert_eq!(
        outcome,
        EtwOutcome::Written { native: EtwDelivery::Refused, common_schema: Some(EtwDelivery::Refused) }
    );
    assert_eq!(format!("{:?}", builder), before);
}

#[test]
fn windows_common_schema_mode_writes_the_native_event_too() {
    let provider = Provider::new("MyProvider", &Provider::options());
    let mut builder = EventBuilder::new();
    let record = Record::new(Level::Warn, "App", "careful");
    let ts = Timestamp { secs: 1_700_000_000, nanos: 0 };
    let outcome =
        write_enabled_record(&mut builder, &provider, &ts, None, "Ev", 1, &record, &config(false, true));
    assert!(matches!(
        outcome,
        EtwOutcome::Written { native: EtwDelivery::Sent(_), common_schema: Some(EtwDelivery::Sent(_)) }
    ));
    let text = format!("{:?}", builder);
    assert!(text.contains("69, 118, 0, 95, 95, 99, 115, 118, 101, 114, 95, 95, 0, 134, 17,"), "{}", text);
    let mut direct = EventBuilder::new();
    let native = encode_native_record(&ts, "Ev", 1, &record, &config(false, true));
    assert!(matches!(deliver(&mut direct, &provider, &native), EtwDelivery::Sent(_)));
    assert!(format!("{:?}", direct).contains(NATIVE_META));
    assert_eq!(deliver(&mut direct, &provider, &None), EtwDelivery::Refused);
}

#[test]
fn listening_decides_whether_a_windows_record_is_written() {
    let provider = Provider::new("MyProvider", &Provider::options());
    let mut builder = EventBuilder::new();
    let before = format!("{:?}", builder);
    let record = Record::new(Level::Warn, "App", "careful");
    let ts = Timestamp { secs: 1_700_000_000, nanos: 0 };
    let cfg = config(false, false);
    let outcome =
        write_record_if_listening(&provider, &mut builder, false, &ts, None, "Ev", 1, &record, &cfg);
    assert_eq!(outcome, EtwOutcome::Disabled);
    assert_eq!(format!("{:?}", builder), before);
    let outcome =
        write_record_if_listening(&provider, &mut builder, true, &ts, None, "Ev", 1, &record, &cfg);
    assert!(matches!(outcome, EtwOutcome::Written { native: EtwDelivery::Sent(_), common_schema: None }));
    assert_ne!(format!("{:?}", builder), before);
    let before = format!("{:?}", builder);
    let late = Timestamp { secs: i64::MAX, nanos: 0 };
    let outcome =
        write_record_if_listening(&provider, &mut builder, true, &late, None, "Ev", 1, &record, &cfg);
    assert_eq!(outcome, EtwOutcome::Written { native: EtwDelivery::Refused, common_schema: None });
    assert_eq!(format!("{:?}", builder), before);
}

#[test]
fn a_windows_provider_is_made_from_its_identity() {
    let id = ProviderId::from_name("MyProvider");
    let provider = new_provider("MyProvider", id, &ProviderGroup::Unset).expect("the name is fine");
    assert_eq!(provider.name(), "MyProvider");
    assert_eq!(*provider.id(), tracelogging::Guid::from_name("MyProvider"));
    assert_eq!(u128::from_be_bytes(provider.id().to_bytes_be()), id.value);
    let plain = format!("{:?}", provider);
    let group = ProviderGroup::Windows(ProviderId { value: 0x0102030405060708090a0b0c0d0e0f10 });
    let grouped = new_provider("MyProvider", ProviderId { value: 7 }, &group).expect("fine");
    assert_eq!(u128::from_be_bytes(grouped.id().to_bytes_be()), 7);
    assert_ne!(format!("{:?}", grouped), plain);
    let linux = ProviderGroup::Linux("mygroup".to_string());
    let other = new_provider("MyProvider", id, &linux).expect("fine");
    assert_eq!(format!("{:?}", other), plain);
    assert!(new_provider("My\0Provider", id, &ProviderGroup::Unset).is_none());
    assert!(new_provider(&"a".repeat(32768), id, &ProviderGroup::Unset).is_none());
    assert!(new_provider(&"a".repeat(32767), id, &ProviderGroup::Unset).is_some());
    assert!(new_provider("app::net", id, &ProviderGroup::Unset).is_some());
}

#[test]
fn a_windows_provider_is_made_once() {
    let mut registry = EtwRegistry::new();
    assert_eq!(registry.len(), 0);
    assert!(registry.find("App").is_none());
    let id = ProviderId::from_name("App");
    let first = registry.get_or_create("App", id, &ProviderGroup::Unset).expect("fine");
    assert!(first.is_new);
    assert_eq!(first.provider.name, "App");
    assert_eq!(first.provider.id, id);
    assert_eq!(first.provider.provider.name(), "App");
    let second = registry.get_or_create("App", ProviderId::zero(), &ProviderGroup::Unset).expect("fine");
    assert!(!second.is_new);
    assert!(std::sync::Arc::ptr_eq(&first.provider, &second.provider));
    assert_eq!(second.provider.id, id);
    assert_eq!(registry.len(), 1);
    let other = registry.get_or_create("Other", id, &ProviderGroup::Unset).expect("fine");
    assert!(other.is_new);
    assert_eq!(registry.len(), 2);
    assert!(registry.get_or_create("a\0b", id, &ProviderGroup::Unset).is_none());
    assert_eq!(registry.len(), 2);
    let found = registry.find("Other").expect("made");
    assert!(std::sync::Arc::ptr_eq(&found, &other.provider));
}

#[test]
fn windows_providers_are_shared_by_target() {
    let providers = EtwProviders::new();
    let cfg = ExporterConfig {
        default_provider_name: "App".to_string(),
        default_provider_id: ProviderId { value: 77 },
        default_provider_group: ProviderGroup::Windows(ProviderId { value: 5 }),
        json: false,
        common_schema: false,
    };
    assert!(providers.find("Real").is_none());
    let mut news = 0;
    let mut handed = Vec::new();
    for _ in 0..8 {
        let lookup = providers.get_or_create(&cfg, "Real").expect("fine");
        if lookup.is_new {
            news += 1;
        }
        handed.push(lookup.provider);
    }
    assert_eq!(news, 1);
    for provider in &handed {
        assert!(std::sync::Arc::ptr_eq(provider, &handed[0]));
    }
    assert_eq!(handed[0].id, ProviderId::from_name("Real"));
    assert_eq!(handed[0].group, ProviderGroup::Unset);
    let default = providers.get_or_create(&cfg, "").expect("fine");
    assert!(default.is_new);
    assert_eq!(default.provider.name, "App");
    assert_eq!(default.provider.id, ProviderId { value: 77 });
    assert_eq!(default.provider.group, ProviderGroup::Windows(ProviderId { value: 5 }));
    assert!(providers.find("App").is_some());
    assert!(providers.get_or_create(&cfg, "a\0b").is_none());
}
