use etw_eventheader_log::field::Backend;
use etw_eventheader_log::field::Field;
use etw_eventheader_log::field::FieldValue;
use etw_eventheader_log::field::Format;
use etw_eventheader_log::level::Level;
use etw_eventheader_log::native::encode_native_etw;
use etw_eventheader_log::native::encode_native_user_events;
use etw_eventheader_log::native::visit_key_value;
use etw_eventheader_log::record::Record;
use etw_eventheader_log::time::Win32SystemTime;
use etw_eventheader_log::value::KeyValue;
use etw_eventheader_log::value::KvValue;

fn text(name: &str, value: &str, format: Format) -> Field {
    Field { name: name.to_string(), value: FieldValue::Text(value.to_string()), format }
}

fn kv(key: &str, value: KvValue) -> KeyValue {
    KeyValue { key: key.to_string(), value }
}

fn names(fields: &[Field]) -> Vec<String> {
    fields.iter().map(|f| f.name.clone()).collect()
}

#[test]
fn a_bare_record_gives_time_and_payload() {
    let record = Record::new(Level::Info, "App", "hello");
    let event = encode_native_user_events(1_700_000_000, "Greeting", 0, &record, false);
    assert_eq!(
        event.fields,
        vec![
            Field { name: "time".to_string(), value: FieldValue::I64(1_700_000_000), format: Format::Time },
            text("Payload", "hello", Format::Default),
        ]
    );
    assert_eq!(event.name, "Greeting");
    assert_eq!(event.level, 4);
    assert_eq!(event.keyword, 0);
    assert_eq!(event.opcode, 0);
}

#[test]
fn a_bare_record_gives_time_and_payload_on_windows() {
    let record = Record::new(Level::Error, "App", "hello");
    let time = Win32SystemTime { st: [2023, 11, 0, 14, 22, 13, 20, 123] };
    let event = encode_native_etw(&time, "Greeting", 0x10, &record, false);
    assert_eq!(
        event.fields,
        vec![
            Field { name: "time".to_string(), value: FieldValue::SystemTime(time), format: Format::DateTimeUtc },
            text("Payload", "hello", Format::Utf8),
        ]
    );
    assert_eq!(event.level, 2);
    assert_eq!(event.keyword, 0x10);
    assert_eq!(event.opcode, 0);
}

#[test]
fn a_bare_record_in_json_mode_without_json_text_gives_time_and_payload() {
    let record = Record::new(Level::Info, "App", "hello");
    let event = encode_native_user_events(5, "E", 0, &record, true);
    assert_eq!(names(&event.fields), vec!["time", "Payload"]);
}

#[test]
fn a_file_without_a_line_ends_with_file() {
    let mut record = Record::new(Level::Info, "App", "hello");
    record.file = Some("src/main.rs".to_string());
    let event = encode_native_user_events(5, "E", 0, &record, false);
    assert_eq!(names(&event.fields), vec!["time", "Payload", "File"]);
    assert_eq!(event.fields[2], text("File", "src/main.rs", Format::Default));
}

#[test]
fn a_file_with_a_line_ends_with_file_and_line() {
    let mut record = Record::new(Level::Info, "App", "hello");
    record.file = Some("src/main.rs".to_string());
    record.line = Some(42);
    let event = encode_native_user_events(5, "E", 0, &record, false);
    assert_eq!(names(&event.fields), vec!["time", "Payload", "File", "Line"]);
    assert_eq!(
        event.fields[3],
        Field { name: "Line".to_string(), value: FieldValue::U32(42), format: Format::Default }
    );
    let time = Win32SystemTime { st: [2023, 11, 0, 14, 22, 13, 20, 123] };
    let event = encode_native_etw(&time, "E", 0, &record, false);
    assert_eq!(event.fields[2], text("File", "src/main.rs", Format::Utf8));
    assert_eq!(
        event.fields[3],
        Field { name: "Line".to_string(), value: FieldValue::U32(42), format: Format::Unsigned }
    );
}

#[test]
fn a_line_without_a_file_is_not_written() {
    let mut record = Record::new(Level::Info, "App", "hello");
    record.line = Some(42);
    let event = encode_native_user_events(5, "E", 0, &record, false);
    assert_eq!(names(&event.fields), vec!["time", "Payload"]);
}

#[test]
fn the_field_order_is_fixed() {
    let mut record = Record::new(Level::Debug, "App", "hello");
    record.key_values = vec![kv("b", KvValue::U64(2)), kv("a", KvValue::Bool(true))];
    record.module = Some("app::net".to_string());
    record.file = Some("net.rs".to_string());
    record.line = Some(7);
    let event = encode_native_user_events(5, "E", 0, &record, false);
    assert_eq!(names(&event.fields), vec!["time", "Payload", "b", "a", "Module Path", "File", "Line"]);
    assert_eq!(event.fields[4], text("Module Path", "app::net", Format::Default));
    assert_eq!(event.level, 5);
}

#[test]
fn each_kind_of_value_has_its_field_on_linux() {
    let b = Backend::UserEvents;
    let field = |value: KvValue| visit_key_value(b, &kv("k", value)).map(|f| (f.value, f.format));
    assert_eq!(field(KvValue::Bool(true)), Some((FieldValue::Bool32(true), Format::Boolean)));
    assert_eq!(field(KvValue::U64(9)), Some((FieldValue::U64(9), Format::Default)));
    assert_eq!(field(KvValue::I64(-9)), Some((FieldValue::I64(-9), Format::Signed)));
    assert_eq!(
        field(KvValue::F64Bits(1.5f64.to_bits())),
        Some((FieldValue::F64Bits(0x3ff8_0000_0000_0000), Format::Float))
    );
    assert_eq!(
        field(KvValue::Str("s".to_string())),
        Some((FieldValue::Text("s".to_string()), Format::Default))
    );
    assert_eq!(field(KvValue::Char('\u{20ac}')), Some((FieldValue::U8(0xac), Format::String8)));
    assert_eq!(
        field(KvValue::U128(1u128 << 64)),
        Some((FieldValue::U64Seq(vec![0, 1]), Format::Hex))
    );
    assert_eq!(
        field(KvValue::I128(-1)),
        Some((FieldValue::U64Seq(vec![u64::MAX, u64::MAX]), Format::Hex))
    );
    assert_eq!(
        field(KvValue::Other("Some(3)".to_string())),
        Some((FieldValue::Text("Some(3)".to_string()), Format::Default))
    );
    assert_eq!(field(KvValue::Failed), None);
}

#[test]
fn each_kind_of_value_has_its_field_on_windows() {
    let b = Backend::Etw;
    let field = |value: KvValue| visit_key_value(b, &kv("k", value)).map(|f| (f.value, f.format));
    assert_eq!(field(KvValue::Bool(false)), Some((FieldValue::Bool32(false), Format::Boolean)));
    assert_eq!(field(KvValue::U64(9)), Some((FieldValue::U64(9), Format::Unsigned)));
    assert_eq!(field(KvValue::I64(-9)), Some((FieldValue::I64(-9), Format::Signed)));
    assert_eq!(field(KvValue::F64Bits(7)), Some((FieldValue::F64Bits(7), Format::Signed)));
    assert_eq!(
        field(KvValue::Str("s".to_string())),
        Some((FieldValue::Text("s".to_string()), Format::String8))
    );
    assert_eq!(field(KvValue::Char('A')), Some((FieldValue::U8(0x41), Format::String8)));
    assert_eq!(field(KvValue::U128(u128::MAX)), Some((FieldValue::U64Seq(vec![u64::MAX, u64::MAX]), Format::Hex)));
    assert_eq!(
        field(KvValue::Other("x".to_string())),
        Some((FieldValue::Text("x".to_string()), Format::String8))
    );
}

#[test]
fn a_field_carries_the_name_of_its_key() {
    let field = visit_key_value(Backend::UserEvents, &kv("user.id", KvValue::U64(3)));
    assert_eq!(field.map(|f| f.name), Some("user.id".to_string()));
}

#[test]
fn a_value_that_could_not_be_read_is_dropped_and_the_rest_ships() {
    let mut record = Record::new(Level::Info, "App", "hello");
    record.key_values =
        vec![kv("a", KvValue::U64(1)), kv("broken", KvValue::Failed), kv("c", KvValue::U64(3))];
    let event = encode_native_user_events(5, "E", 0, &record, false);
    assert_eq!(names(&event.fields), vec!["time", "Payload", "a", "c"]);
}

#[test]
fn a_key_with_a_nul_is_dropped_and_the_rest_ships() {
    let mut record = Record::new(Level::Info, "App", "hello");
    record.key_values = vec![kv("a\0b", KvValue::U64(1)), kv("c", KvValue::U64(3))];
    let event = encode_native_user_events(5, "E", 0, &record, false);
    assert_eq!(names(&event.fields), vec!["time", "Payload", "c"]);
    assert_eq!(visit_key_value(Backend::Etw, &kv("\0", KvValue::Bool(true))), None);
}

#[test]
fn json_mode_writes_one_combined_field() {
    let mut record = Record::new(Level::Info, "App", "hello");
    record.key_values = vec![kv("a", KvValue::U64(1)), kv("b", KvValue::U64(2))];
    record.key_values_json = Some("{\"a\":1,\"b\":2}".to_string());
    let event = encode_native_user_events(5, "E", 0, &record, true);
    assert_eq!(names(&event.fields), vec!["time", "Payload", "Keys / Values"]);
    assert_eq!(event.fields[2], text("Keys / Values", "{\"a\":1,\"b\":2}", Format::Default));
    let time = Win32SystemTime { st: [2023, 11, 0, 14, 22, 13, 20, 123] };
    let event = encode_native_etw(&time, "E", 0, &record, true);
    assert_eq!(event.fields[2], text("Keys / Values", "{\"a\":1,\"b\":2}", Format::Json));
}

#[test]
fn json_text_is_ignored_outside_json_mode() {
    let mut record = Record::new(Level::Info, "App", "hello");
    record.key_values = vec![kv("a", KvValue::U64(1))];
    record.key_values_json = Some("{\"a\":1}".to_string());
    let event = encode_native_user_events(5, "E", 0, &record, false);
    assert_eq!(names(&event.fields), vec!["time", "Payload", "a"]);
}

#[test]
fn json_mode_without_json_text_writes_no_key_values() {
    let mut record = Record::new(Level::Info, "App", "hello");
    record.key_values = vec![kv("a", KvValue::U64(1))];
    let event = encode_native_user_events(5, "E", 0, &record, true);
    assert_eq!(names(&event.fields), vec!["time", "Payload"]);
}

#[test]
fn the_payload_is_the_message() {
    let message = format!("My error message: {}", "hi");
    let record = Record::new(Level::Error, "App", &message);
    let event = encode_native_user_events(-3, "E", 0, &record, false);
    assert_eq!(event.fields[1], text("Payload", "My error message: hi", Format::Default));
    assert_eq!(
        event.fields[0],
        Field { name: "time".to_string(), value: FieldValue::I64(-3), format: Format::Time }
    );
}
