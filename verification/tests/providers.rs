use etw_eventheader_log::event::meta;
use etw_eventheader_log::level::Level;
use etw_eventheader_log::logger::ExporterConfig;
use etw_eventheader_log::provider::enabled_from;
use etw_eventheader_log::provider::deliver;
use etw_eventheader_log::provider::encode_common_schema_record;
use etw_eventheader_log::provider::encode_native_record;
use etw_eventheader_log::provider::is_valid_group_name;
use etw_eventheader_log::provider::is_valid_provider_name;
use etw_eventheader_log::provider::write_enabled_record;
use etw_eventheader_log::provider::write_record_if_listening;
use etw_eventheader_log::provider::ProviderGroup;
use etw_eventheader_log::provider::ProviderId;
use etw_eventheader_log::provider::ProviderWrapper;
use etw_eventheader_log::provider::Delivery;
use etw_eventheader_log::provider::WriteOutcome;
use etw_eventheader_log::record::Record;
use etw_eventheader_log::registry::Registry;
use etw_eventheader_log::time::Timestamp;
use etw_eventheader_log::trace::TraceContext;
use eventheader_dynamic::EventBuilder;
use eventheader_dynamic::Provider;
use std::sync::Arc;

fn config(json: bool, common_schema: bool) -> ExporterConfig {
    ExporterConfig {
        default_provider_name: "App".to_string(),
        default_provider_id: ProviderId::from_name("App"),
        default_provider_group: ProviderGroup::Unset,
        json,
        common_schema,
    }
}

fn names(outcome: &Option<etw_eventheader_log::field::Event>) -> Vec<String> {
    match outcome {
        Some(event) => event.fields.iter().map(|f| f.name.clone()).collect(),
        None => Vec::new(),
    }
}

#[test]
fn a_name_hashes_to_its_identifier() {
    assert_eq!(ProviderId::from_name("MyProvider").value, 0xb3864c38_4273_58c5_545b_8b3608343471);
    assert_eq!(ProviderId::from_name("myprovider"), ProviderId::from_name("MYPROVIDER"));
    assert_ne!(ProviderId::from_name("MyProvider"), ProviderId::from_name("MyProvider2"));
    assert!(!ProviderId::from_name("").is_zero());
}

#[test]
fn the_zero_identifier() {
    assert!(ProviderId::zero().is_zero());
    assert_eq!(ProviderId::zero().value, 0);
    assert!(!ProviderId { value: 1 }.is_zero());
}

#[test]
fn group_names_are_digits_and_lower_case_letters() {
    assert!(is_valid_group_name(""));
    assert!(is_valid_group_name("my9group"));
    assert!(is_valid_group_name("0az9"));
    assert!(!is_valid_group_name("MyGroup"));
    assert!(!is_valid_group_name("my_group"));
    assert!(!is_valid_group_name("my group"));
    assert!(!is_valid_group_name("gr\u{fc}n"));
    assert!(!is_valid_group_name("a/"));
    assert!(!is_valid_group_name("a:"));
    assert!(!is_valid_group_name("a`"));
    assert!(!is_valid_group_name("a{"));
    assert_eq!(
        is_valid_group_name("my9group"),
        eventheader_dynamic::ProviderOptions::is_valid_option_value("my9group")
    );
    assert_eq!(
        is_valid_group_name("My"),
        eventheader_dynamic::ProviderOptions::is_valid_option_value("My")
    );
}

#[test]
fn provider_names_have_their_limits() {
    assert!(is_valid_provider_name("MyCompany_MyComponent", ""));
    assert!(is_valid_provider_name("MyCompany_MyComponent", "mygroup"));
    assert!(is_valid_provider_name("", ""));
    assert!(!is_valid_provider_name("My Provider", ""));
    assert!(!is_valid_provider_name("My:Provider", ""));
    assert!(!is_valid_provider_name("My\0Provider", ""));
    assert!(!is_valid_provider_name("app::net", ""));
    assert!(!is_valid_provider_name("MyProvider", "MyGroup"));
    assert!(is_valid_provider_name(&"a".repeat(233), ""));
    assert!(!is_valid_provider_name(&"a".repeat(234), ""));
    assert!(is_valid_provider_name(&"a".repeat(200), &"b".repeat(33)));
    assert!(!is_valid_provider_name(&"a".repeat(200), &"b".repeat(34)));
    assert!(!is_valid_provider_name("", &"b".repeat(234)));
}

#[test]
fn a_new_provider_holds_one_set_per_level() {
    let provider = ProviderWrapper::new("MyProvider", ProviderId::from_name("MyProvider"), &ProviderGroup::Unset);
    let provider = provider.expect("the name is fine");
    assert_eq!(provider.get_provider().options(), "");
    assert_eq!(provider.name, "MyProvider");
    assert_eq!(provider.id, ProviderId::from_name("MyProvider"));
    assert_eq!(provider.group, ProviderGroup::Unset);
    assert_eq!(provider.get_provider().name(), "MyProvider");
    for level in 2u8..=6 {
        assert!(provider.find_set(level, 0).is_some());
        assert!(provider.find_set(level, 1).is_none());
    }
    assert!(provider.find_set(0, 0).is_none());
    assert!(provider.find_set(1, 0).is_none());
    assert!(provider.find_set(7, 0).is_none());
}

#[test]
fn a_provider_joins_its_linux_group() {
    let group = ProviderGroup::Linux("mygroup".to_string());
    let provider = ProviderWrapper::new("MyProvider", ProviderId::zero(), &group).expect("fine");
    assert_eq!(provider.get_provider().options(), "Gmygroup");
    assert_eq!(provider.group, group);
    let windows = ProviderGroup::Windows(ProviderId { value: 5 });
    let provider = ProviderWrapper::new("MyProvider", ProviderId::zero(), &windows).expect("fine");
    assert_eq!(provider.get_provider().options(), "");
    assert_eq!(provider.group.duplicate(), windows);
}

#[test]
fn a_provider_with_a_bad_name_is_not_created() {
    assert!(ProviderWrapper::new("app::net", ProviderId::zero(), &ProviderGroup::Unset).is_none());
    assert!(ProviderWrapper::new("a b", ProviderId::zero(), &ProviderGroup::Unset).is_none());
    assert!(ProviderWrapper::new(&"a".repeat(234), ProviderId::zero(), &ProviderGroup::Unset).is_none());
    let group = ProviderGroup::Linux("Bad Group".to_string());
    assert!(ProviderWrapper::new("MyProvider", ProviderId::zero(), &group).is_none());
}

#[test]
fn a_set_can_be_registered_later() {
    let mut provider =
        ProviderWrapper::new("MyProvider", ProviderId::zero(), &ProviderGroup::Unset).expect("fine");
    assert!(provider.find_set(4, 0x10).is_none());
    let set = provider.register_set(4, 0x10);
    let found = provider.find_set(4, 0x10).expect("registered");
    assert!(Arc::ptr_eq(&set, &found));
    assert!(provider.find_set(4, 0).is_some());
    assert!(!provider.enabled(4, 0x10));
}

#[test]
fn nothing_is_enabled_without_a_set() {
    let provider =
        ProviderWrapper::new("MyProvider", ProviderId::zero(), &ProviderGroup::Unset).expect("fine");
    assert!(!provider.enabled(4, 0x20));
    assert!(!provider.enabled(1, 0));
    assert!(!enabled_from(None));
    assert!(!enabled_from(Some(false)));
    assert!(enabled_from(Some(true)));
}

#[test]
fn a_disabled_record_encodes_nothing() {
    let provider =
        ProviderWrapper::new("MyProvider", ProviderId::zero(), &ProviderGroup::Unset).expect("fine");
    let mut builder = EventBuilder::new();
    let before = format!("{:?}", builder);
    let record = Record::new(Level::Warn, "MyProvider", "My warning message");
    let ts = Timestamp { secs: 1_700_000_000, nanos: 0 };
    let outcome = provider.write_record(&mut builder, &ts, None, "Ev", 0x40, &record, &config(false, false));
    assert_eq!(outcome, WriteOutcome::Disabled);
    assert_eq!(format!("{:?}", builder), before);
}

fn sent(delivery: Delivery) -> bool {
    matches!(delivery, Delivery::Sent(_))
}

fn native_bytes(name: &str, secs: i64, payload: &str) -> String {
    let mut meta_bytes: Vec<u8> = name.as_bytes().to_vec();
    meta_bytes.extend_from_slice(b"\0time\0");
    meta_bytes.extend_from_slice(&[0x85, 6]);
    meta_bytes.extend_from_slice(b"Payload\0");
    meta_bytes.push(10);
    let mut data: Vec<u8> = secs.to_ne_bytes().to_vec();
    data.extend_from_slice(&(payload.len() as u16).to_ne_bytes());
    data.extend_from_slice(payload.as_bytes());
    format!("meta: {:?}, data: {:?},", meta_bytes, data)
}

#[test]
fn an_enabled_record_is_encoded_and_sent() {
    let mut inner = Provider::new("MyProvider", &Provider::new_options());
    inner.create_unregistered(true, eventheader::Level::Warning, 0);
    let provider = ProviderWrapper {
        name: "MyProvider".to_string(),
        id: ProviderId::zero(),
        group: ProviderGroup::Unset,
        provider: inner,
    };
    assert!(provider.enabled(3, 0));
    assert!(!provider.enabled(4, 0));
    let mut builder = EventBuilder::new();
    let before = format!("{:?}", builder);
    let ts = Timestamp { secs: 16, nanos: 0 };

    let info = Record::new(Level::Info, "MyProvider", "not heard");
    let outcome = provider.write_record(&mut builder, &ts, None, "Ev", 0, &info, &config(false, false));
    assert_eq!(outcome, WriteOutcome::Disabled);
    assert_eq!(format!("{:?}", builder), before);

    let warn = Record::new(Level::Warn, "MyProvider", "hi");
    let outcome = provider.write_record(&mut builder, &ts, None, "Ev", 0, &warn, &config(false, false));
    match outcome {
        WriteOutcome::Written { native, common_schema } => {
            assert!(sent(native));
            assert_eq!(common_schema, None);
        }
        WriteOutcome::Disabled => panic!("the set is enabled"),
    }
    let wanted = native_bytes("Ev", 16, "hi");
    assert!(format!("{:?}", builder).contains(&wanted), "{:?} does not hold {}", builder, wanted);
}

#[test]
fn common_schema_mode_writes_the_native_event_too() {
    let mut inner = Provider::new("MyProvider", &Provider::new_options());
    let set = inner.create_unregistered(true, eventheader::Level::Warning, 0);
    let mut builder = EventBuilder::new();
    let warn = Record::new(Level::Warn, "MyProvider", "hi");
    let now = Timestamp { secs: 16, nanos: 0 };
    let outcome =
        write_enabled_record(&mut builder, &set, &now, None, "Ev", 0, &warn, &config(false, true));
    match outcome {
        WriteOutcome::Written { native, common_schema } => {
            assert!(sent(native));
            assert!(matches!(common_schema, Some(Delivery::Sent(_))));
        }
        WriteOutcome::Disabled => panic!("the set is enabled"),
    }
    let text = format!("{:?}", builder);
    let csver: Vec<u8> = b"Ev\0__csver__\0".to_vec();
    let wanted = format!("{:?}", csver);
    assert!(text.contains(&wanted[..wanted.len() - 1]), "{} does not start with {}", text, wanted);

    let late = Timestamp { secs: i64::MAX, nanos: 0 };
    let outcome =
        write_enabled_record(&mut builder, &set, &late, None, "Ev", 0, &warn, &config(false, true));
    assert!(matches!(
        outcome,
        WriteOutcome::Written { native: Delivery::Sent(_), common_schema: Some(Delivery::Refused) }
    ));
    let wanted = native_bytes("Ev", i64::MAX, "hi");
    assert!(format!("{:?}", builder).contains(&wanted), "{:?} does not hold {}", builder, wanted);
}

#[test]
fn an_event_is_delivered_or_refused() {
    let mut inner = Provider::new("MyProvider", &Provider::new_options());
    let set = inner.create_unregistered(true, eventheader::Level::Warning, 0);
    let mut builder = EventBuilder::new();
    let before = format!("{:?}", builder);
    let warn = Record::new(Level::Warn, "MyProvider", "hi");
    let now = Timestamp { secs: 16, nanos: 0 };
    assert_eq!(deliver(&mut builder, &set, &None), Delivery::Refused);
    assert_eq!(format!("{:?}", builder), before);
    let event = encode_native_record(&now, "Ev", 0, &warn, &config(false, false));
    assert!(sent(deliver(&mut builder, &set, &Some(event))));
    assert!(format!("{:?}", builder).contains(&native_bytes("Ev", 16, "hi")));
    let before = format!("{:?}", builder);
    let bad = encode_native_record(&now, "E\0v", 0, &warn, &config(false, false));
    assert_eq!(deliver(&mut builder, &set, &Some(bad)), Delivery::Refused);
    assert_eq!(format!("{:?}", builder), before);
}

#[test]
fn a_record_that_cannot_be_built_is_refused() {
    let mut inner = Provider::new("MyProvider", &Provider::new_options());
    let set = inner.create_unregistered(true, eventheader::Level::Warning, 0);
    let mut builder = EventBuilder::new();
    let before = format!("{:?}", builder);
    let warn = Record::new(Level::Warn, "MyProvider", "hi");
    let now = Timestamp { secs: 16, nanos: 0 };
    let outcome =
        write_enabled_record(&mut builder, &set, &now, None, "E\0v", 0, &warn, &config(false, false));
    assert_eq!(outcome, WriteOutcome::Written { native: Delivery::Refused, common_schema: None });
    assert_eq!(format!("{:?}", builder), before);
    let outcome =
        write_enabled_record(&mut builder, &set, &now, None, "E\0v", 0, &warn, &config(false, true));
    assert_eq!(
        outcome,
        WriteOutcome::Written { native: Delivery::Refused, common_schema: Some(Delivery::Refused) }
    );
    assert_eq!(format!("{:?}", builder), before);
    let big = Record::new(Level::Warn, "MyProvider", &"x".repeat(70_000));
    let outcome =
        write_enabled_record(&mut builder, &set, &now, None, "Ev", 0, &big, &config(false, false));
    assert_eq!(outcome, WriteOutcome::Written { native: Delivery::Refused, common_schema: None });
    assert_eq!(format!("{:?}", builder), before);
}

#[test]
fn the_two_events_of_a_record() {
    let record = Record::new(Level::Warn, "MyProvider", "hi");
    let ts = Timestamp { secs: 0, nanos: 0 };
    let native = Some(encode_native_record(&ts, "Ev", 0, &record, &config(false, false)));
    assert_eq!(names(&native), vec!["time", "Payload"]);
    let trace = TraceContext { trace_id: 1, span_id: 2 };
    let envelope = encode_common_schema_record(&ts, Some(trace), "Ev", 0, &record);
    assert_eq!(
        names(&envelope),
        vec![
            "__csver__",
            "PartA",
            "time",
            "ext_dt",
            "traceId",
            "spanId",
            "PartB",
            "_typeName",
            "name",
            "eventTime",
            "severityNumber",
            "severityText",
            "PartC",
            "Payload"
        ]
    );
    let event = envelope.expect("the epoch has its text");
    assert_eq!(
        event.fields[2].value,
        etw_eventheader_log::field::FieldValue::Text("1970-01-01T00:00:00+00:00".to_string())
    );
    assert_eq!(event.fields[2].value, event.fields[9].value);
    assert_eq!(event.level, 3);
    let late = Timestamp { secs: i64::MAX, nanos: 0 };
    assert_eq!(encode_common_schema_record(&late, None, "Ev", 0, &record), None);
    let late_native = encode_native_record(&late, "Ev", 0, &record, &config(false, false));
    assert_eq!(late_native.level, 3);
    assert_eq!(late_native.keyword, 0);
}

#[test]
fn an_empty_registry() {
    let registry = Registry::new();
    assert_eq!(registry.len(), 0);
    assert!(!registry.contains("App"));
    assert!(registry.find("App").is_none());
}

#[test]
fn a_provider_is_created_once() {
    let mut registry = Registry::new();
    let id = ProviderId::from_name("App");
    let first = registry.get_or_create("App", id, &ProviderGroup::Unset).expect("fine");
    let second = registry.get_or_create("App", ProviderId::zero(), &ProviderGroup::Unset).expect("fine");
    assert!(Arc::ptr_eq(&first, &second));
    assert_eq!(second.id, id);
    assert_eq!(registry.len(), 1);
    assert!(registry.contains("App"));
    let found = registry.find("App").expect("created");
    assert!(Arc::ptr_eq(&first, &found));
}

#[test]
fn providers_are_kept_by_name() {
    let mut registry = Registry::new();
    let a = registry.get_or_create("A", ProviderId::zero(), &ProviderGroup::Unset).expect("fine");
    let b = registry.get_or_create("B", ProviderId::zero(), &ProviderGroup::Unset).expect("fine");
    assert!(!Arc::ptr_eq(&a, &b));
    assert_eq!(a.name, "A");
    assert_eq!(b.name, "B");
    assert_eq!(registry.len(), 2);
    assert!(registry.find("a").is_none());
    for _ in 0..10 {
        let again = registry.get_or_create("A", ProviderId::zero(), &ProviderGroup::Unset).expect("fine");
        assert!(Arc::ptr_eq(&a, &again));
    }
    assert_eq!(registry.len(), 2);
}

#[test]
fn a_bad_name_leaves_the_registry_alone() {
    let mut registry = Registry::new();
    assert!(registry.get_or_create("app::net", ProviderId::zero(), &ProviderGroup::Unset).is_none());
    assert_eq!(registry.len(), 0);
    assert!(!registry.contains("app::net"));
}

#[test]
fn a_call_site_names_its_event() {
    let m = meta { provider: "MyProvider", event_name: "Started", keyword: 0x10 };
    let copy = m;
    assert_eq!(copy.provider, "MyProvider");
    assert_eq!(copy.event_name, "Started");
    assert_eq!(copy.keyword, 0x10);
}

#[test]
fn listening_decides_whether_a_record_is_written() {
    let mut inner = Provider::new("MyProvider", &Provider::new_options());
    let set = inner.create_unregistered(false, eventheader::Level::Warning, 0);
    let mut builder = EventBuilder::new();
    let before = format!("{:?}", builder);
    let warn = Record::new(Level::Warn, "MyProvider", "hi");
    let now = Timestamp { secs: 16, nanos: 0 };
    let cfg = config(false, false);
    let outcome = write_record_if_listening(&mut builder, &set, false, &now, None, "Ev", 0, &warn, &cfg);
    assert_eq!(outcome, WriteOutcome::Disabled);
    assert_eq!(format!("{:?}", builder), before);
    let outcome = write_record_if_listening(&mut builder, &set, true, &now, None, "Ev", 0, &warn, &cfg);
    assert!(matches!(outcome, WriteOutcome::Written { native: Delivery::Sent(_), common_schema: None }));
    assert_ne!(format!("{:?}", builder), before);
    let before = format!("{:?}", builder);
    let outcome = write_record_if_listening(&mut builder, &set, true, &now, None, "E\0", 0, &warn, &cfg);
    assert_eq!(outcome, WriteOutcome::Written { native: Delivery::Refused, common_schema: None });
    assert_eq!(format!("{:?}", builder), before);
    let outcome = write_record_if_listening(&mut builder, &set, false, &now, None, "E\0", 0, &warn, &cfg);
    assert_eq!(outcome, WriteOutcome::Disabled);
    assert_eq!(format!("{:?}", builder), before);
}
