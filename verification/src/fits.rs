//! Which records the sinks can always write.
//!
//! A sink refuses an event with a NUL in a name or with a text of more
//! than 65535 bytes. The names that the layouts choose are fine, so what is
//! left to ask is stated here over the caller's own values: the event name
//! and the texts of the record.

use crate::common_schema::common_schema_event;
use crate::common_schema::common_schema_fields;
use crate::common_schema::extension_part;
use crate::common_schema::part_a;
use crate::common_schema::part_b;
use crate::common_schema::part_c;
use crate::common_schema::version_field;
use crate::field::Backend;
use crate::field::COUNT_MAX;
use crate::etw::etw_event_supported;
use crate::etw::etw_field_supported;
use crate::field::nul_free;
use crate::level::Level;
use crate::level::severity_text;
use crate::native::etw_time_field;
use crate::native::key_value_part;
use crate::native::kv_field;
use crate::native::kv_fields;
use crate::native::location_part;
use crate::native::module_part;
use crate::native::native_event;
use crate::native::native_fields;
use crate::native::optional_field;
use crate::native::user_events_time_field;
use crate::record::RecordView;
use crate::sink::event_supported;
use crate::sink::field_supported;
use crate::trace::TraceContext;
use crate::trace::has_valid_span;
use crate::trace::hex_char;
use crate::trace::hex_text;
use crate::value::KeyValueView;
use crate::value::KvValueView;
use vstd::prelude::*;
use vstd::utf8::encode_utf8;
use vstd::utf8::is_ascii_chars;
use vstd::utf8::is_ascii_chars_encode_utf8;

verus! {

/// Whether a text has at most 65535 bytes in UTF-8.
pub open spec fn text_fits(text: Seq<char>) -> bool {
    encode_utf8(text).len() <= COUNT_MAX
}

/// Whether a text, where there is one, has at most 65535 bytes in UTF-8.
pub open spec fn optional_text_fits(text: Option<Seq<char>>) -> bool {
    text matches Some(t) ==> text_fits(t)
}

/// Whether the text of a key-value, where its value is one, fits.
pub open spec fn kv_fits(kv: KeyValueView) -> bool {
    match kv.value {
        KvValueView::Str(s) => text_fits(s),
        KvValueView::Other(s) => text_fits(s),
        _ => true,
    }
}

/// Whether every text of a record that a native event would hold fits.
pub open spec fn record_fits(record: RecordView, json: bool) -> bool {
    &&& text_fits(record.payload)
    &&& optional_text_fits(record.module)
    &&& optional_text_fits(record.file)
    &&& if json {
        optional_text_fits(record.key_values_json)
    } else {
        forall|i: int| 0 <= i < record.key_values.len() ==> kv_fits(#[trigger] record.key_values[i])
    }
}

/// A text of ASCII characters other than NUL holds no NUL, and its UTF-8
/// form has one byte per character: the character's code.
pub proof fn lemma_ascii_text(text: Seq<char>)
    requires
        forall|i: int| 0 <= i < text.len() ==> '\u{1}' <= #[trigger] text[i] <= '\u{7f}',
    ensures
        nul_free(text),
        encode_utf8(text).len() == text.len(),
        forall|i: int| 0 <= i < text.len() ==> #[trigger] encode_utf8(text)[i] == text[i] as u8,
{
    assert(is_ascii_chars(text));
    is_ascii_chars_encode_utf8(text);
    let bytes = encode_utf8(text);
    assert forall|i: int| 0 <= i < bytes.len() implies bytes[i] != 0u8 by {
        assert(text[i] as u8 == bytes[i]);
        assert('\u{1}' <= text[i] <= '\u{7f}');
    }
}

/// A text of at most 65535 ASCII characters fits: it has one byte per
/// character. The RFC 3339 text of a time is such a text.
pub proof fn lemma_short_ascii_fits(text: Seq<char>)
    requires
        is_ascii_chars(text),
        text.len() <= COUNT_MAX,
    ensures
        text_fits(text),
{
    is_ascii_chars_encode_utf8(text);
}

/// The names of the fields of a native event hold no NUL.
proof fn lemma_native_names()
    ensures
        nul_free("time"@),
        nul_free("Payload"@),
        nul_free("Keys / Values"@),
        nul_free("Module Path"@),
        nul_free("File"@),
        nul_free("Line"@),
{
    reveal_strlit("time");
    reveal_strlit("Payload");
    reveal_strlit("Keys / Values");
    reveal_strlit("Module Path");
    reveal_strlit("File");
    reveal_strlit("Line");
    lemma_ascii_text("time"@);
    lemma_ascii_text("Payload"@);
    lemma_ascii_text("Keys / Values"@);
    lemma_ascii_text("Module Path"@);
    lemma_ascii_text("File"@);
    lemma_ascii_text("Line"@);
}

/// What a key-value gives can be written, where its text fits.
proof fn lemma_kv_field_supported(kv: KeyValueView)
    requires
        kv_fits(kv),
    ensures
        kv_field(Backend::UserEvents, kv) matches Some(f) ==> field_supported(f),
{
}

/// The fields of key-values whose texts fit can all be written.
proof fn lemma_kv_fields_supported(kvs: Seq<KeyValueView>)
    requires
        forall|i: int| 0 <= i < kvs.len() ==> kv_fits(#[trigger] kvs[i]),
    ensures
        forall|i: int|
            0 <= i < kv_fields(Backend::UserEvents, kvs).len() ==> field_supported(
                #[trigger] kv_fields(Backend::UserEvents, kvs)[i],
            ),
    decreases kvs.len(),
{
    if kvs.len() > 0 {
        let front = kvs.drop_last();
        assert forall|i: int| 0 <= i < front.len() implies kv_fits(#[trigger] front[i]) by {
            assert(front[i] == kvs[i]);
        }
        lemma_kv_fields_supported(front);
        assert(kv_fits(kvs.last()));
        lemma_kv_field_supported(kvs.last());
        let all = kv_fields(Backend::UserEvents, kvs);
        let head = kv_fields(Backend::UserEvents, front);
        let tail = optional_field(kv_field(Backend::UserEvents, kvs.last()));
        assert(all == head + tail);
        assert forall|i: int| 0 <= i < all.len() implies field_supported(#[trigger] all[i]) by {
            if i < head.len() {
                assert(all[i] == head[i]);
            } else {
                assert(all[i] == tail[i - head.len()]);
            }
        }
    }
}

/// A native Linux event can be written where its name holds no NUL and the
/// texts of its record fit. So a record is refused only for its event name
/// or for a text of more than 65535 bytes.
pub proof fn lemma_native_event_supported(
    secs: i64,
    event_name: Seq<char>,
    keyword: u64,
    record: RecordView,
    json: bool,
)
    requires
        nul_free(event_name),
        record_fits(record, json),
    ensures
        event_supported(
            native_event(
                Backend::UserEvents,
                user_events_time_field(secs),
                event_name,
                keyword,
                record,
                json,
            ),
        ),
{
    let backend = Backend::UserEvents;
    let time = user_events_time_field(secs);
    let fields = native_fields(backend, time, record, json);
    lemma_native_names();
    if !json {
        lemma_kv_fields_supported(record.key_values);
    }
    let kvs = key_value_part(backend, record, json);
    let module = module_part(backend, record.module);
    let location = location_part(backend, record.file, record.line);
    assert forall|i: int| 0 <= i < kvs.len() implies field_supported(#[trigger] kvs[i]) by {}
    assert forall|i: int| 0 <= i < module.len() implies field_supported(#[trigger] module[i]) by {}
    assert forall|i: int| 0 <= i < location.len() implies field_supported(
        #[trigger] location[i],
    ) by {}
    assert forall|i: int| 0 <= i < fields.len() implies field_supported(#[trigger] fields[i]) by {
        if i < 2 {
        } else if i < 2 + kvs.len() {
            assert(fields[i] == kvs[i - 2]);
        } else if i < 2 + kvs.len() + module.len() {
            assert(fields[i] == module[i - 2 - kvs.len()]);
        } else {
            assert(fields[i] == location[i - 2 - kvs.len() - module.len()]);
        }
    }
}

/// A hex text is made of the characters `0` to `9` and `a` to `f`.
proof fn lemma_hex_text_ascii(value: nat, width: nat)
    ensures
        hex_text(value, width).len() == width,
        forall|i: int|
            0 <= i < hex_text(value, width).len() ==> '\u{1}' <= #[trigger] hex_text(value, width)[i]
                <= '\u{7f}',
    decreases width,
{
    if width > 0 {
        lemma_hex_text_ascii(value / 16, (width - 1) as nat);
        let c = hex_char((value % 16) as int);
        assert('\u{1}' <= c <= '\u{7f}');
    }
}

/// The names and the fixed texts of a Common Schema event hold no NUL and
/// fit.
proof fn lemma_common_schema_names()
    ensures
        nul_free("__csver__"@),
        nul_free("PartA"@),
        nul_free("time"@),
        nul_free("ext_dt"@),
        nul_free("traceId"@),
        nul_free("spanId"@),
        nul_free("PartB"@),
        nul_free("_typeName"@),
        nul_free("name"@),
        nul_free("eventTime"@),
        nul_free("severityNumber"@),
        nul_free("severityText"@),
        nul_free("PartC"@),
        nul_free("Payload"@),
        text_fits("Log"@),
        forall|level: Level| text_fits(#[trigger] severity_text(level)),
{
    reveal_strlit("__csver__");
    reveal_strlit("PartA");
    reveal_strlit("time");
    reveal_strlit("ext_dt");
    reveal_strlit("traceId");
    reveal_strlit("spanId");
    reveal_strlit("PartB");
    reveal_strlit("_typeName");
    reveal_strlit("name");
    reveal_strlit("eventTime");
    reveal_strlit("severityNumber");
    reveal_strlit("severityText");
    reveal_strlit("PartC");
    reveal_strlit("Payload");
    reveal_strlit("Log");
    reveal_strlit("ERROR");
    reveal_strlit("WARN");
    reveal_strlit("INFO");
    reveal_strlit("DEBUG");
    reveal_strlit("TRACE");
    lemma_ascii_text("__csver__"@);
    lemma_ascii_text("PartA"@);
    lemma_ascii_text("time"@);
    lemma_ascii_text("ext_dt"@);
    lemma_ascii_text("traceId"@);
    lemma_ascii_text("spanId"@);
    lemma_ascii_text("PartB"@);
    lemma_ascii_text("_typeName"@);
    lemma_ascii_text("name"@);
    lemma_ascii_text("eventTime"@);
    lemma_ascii_text("severityNumber"@);
    lemma_ascii_text("severityText"@);
    lemma_ascii_text("PartC"@);
    lemma_ascii_text("Payload"@);
    lemma_ascii_text("Log"@);
    lemma_ascii_text("ERROR"@);
    lemma_ascii_text("WARN"@);
    lemma_ascii_text("INFO"@);
    lemma_ascii_text("DEBUG"@);
    lemma_ascii_text("TRACE"@);
}

/// A Common Schema Linux event can be written where its name holds no NUL
/// and its name, its time text and its message fit.
pub proof fn lemma_common_schema_event_supported(
    time_text: Seq<char>,
    trace: Option<TraceContext>,
    event_name: Seq<char>,
    keyword: u64,
    record: RecordView,
)
    requires
        nul_free(event_name),
        text_fits(event_name),
        text_fits(time_text),
        text_fits(record.payload),
    ensures
        event_supported(
            common_schema_event(
                Backend::UserEvents,
                time_text,
                trace,
                event_name,
                keyword,
                record,
            ),
        ),
{
    let backend = Backend::UserEvents;
    lemma_common_schema_names();
    if has_valid_span(trace) {
        lemma_hex_text_ascii(trace->0.trace_id as nat, 32);
        lemma_hex_text_ascii(trace->0.span_id as nat, 16);
        lemma_ascii_text(hex_text(trace->0.trace_id as nat, 32));
        lemma_ascii_text(hex_text(trace->0.span_id as nat, 16));
    }
    let a = part_a(backend, time_text, trace);
    let ext = extension_part(backend, trace);
    let b = part_b(backend, time_text, event_name, record.level);
    let c = part_c(backend, record.payload);
    let fields = common_schema_fields(backend, time_text, trace, event_name, record);
    assert(field_supported(version_field(backend)));
    assert forall|i: int| 0 <= i < ext.len() implies field_supported(#[trigger] ext[i]) by {}
    assert forall|i: int| 0 <= i < a.len() implies field_supported(#[trigger] a[i]) by {
        if i >= 2 {
            assert(a[i] == ext[i - 2]);
        }
    }
    assert(text_fits(severity_text(record.level)));
    assert forall|i: int| 0 <= i < b.len() implies field_supported(#[trigger] b[i]) by {}
    assert forall|i: int| 0 <= i < c.len() implies field_supported(#[trigger] c[i]) by {}
    assert forall|i: int| 0 <= i < fields.len() implies field_supported(#[trigger] fields[i]) by {
        if i < 1 {
        } else if i < 1 + a.len() {
            assert(fields[i] == a[i - 1]);
        } else if i < 1 + a.len() + b.len() {
            assert(fields[i] == b[i - 1 - a.len()]);
        } else {
            assert(fields[i] == c[i - 1 - a.len() - b.len()]);
        }
    }
}

/// What a key-value gives can be written on Windows, where its text fits.
proof fn lemma_etw_kv_fields_supported(kvs: Seq<KeyValueView>)
    requires
        forall|i: int| 0 <= i < kvs.len() ==> kv_fits(#[trigger] kvs[i]),
    ensures
        forall|i: int|
            0 <= i < kv_fields(Backend::Etw, kvs).len() ==> etw_field_supported(
                #[trigger] kv_fields(Backend::Etw, kvs)[i],
            ),
    decreases kvs.len(),
{
    if kvs.len() > 0 {
        let front = kvs.drop_last();
        assert forall|i: int| 0 <= i < front.len() implies kv_fits(#[trigger] front[i]) by {
            assert(front[i] == kvs[i]);
        }
        lemma_etw_kv_fields_supported(front);
        assert(kv_fits(kvs.last()));
        let all = kv_fields(Backend::Etw, kvs);
        let head = kv_fields(Backend::Etw, front);
        let tail = optional_field(kv_field(Backend::Etw, kvs.last()));
        assert(all == head + tail);
        assert forall|i: int| 0 <= i < all.len() implies etw_field_supported(#[trigger] all[i]) by {
            if i < head.len() {
                assert(all[i] == head[i]);
            } else {
                assert(all[i] == tail[i - head.len()]);
            }
        }
    }
}

/// A native Windows event can be written where its name holds no NUL and
/// the texts of its record fit.
pub proof fn lemma_etw_native_event_supported(
    words: Seq<u16>,
    event_name: Seq<char>,
    keyword: u64,
    record: RecordView,
    json: bool,
)
    requires
        nul_free(event_name),
        record_fits(record, json),
    ensures
        etw_event_supported(
            native_event(Backend::Etw, etw_time_field(words), event_name, keyword, record, json),
        ),
{
    let backend = Backend::Etw;
    let time = etw_time_field(words);
    let fields = native_fields(backend, time, record, json);
    lemma_native_names();
    if !json {
        lemma_etw_kv_fields_supported(record.key_values);
    }
    let kvs = key_value_part(backend, record, json);
    let module = module_part(backend, record.module);
    let location = location_part(backend, record.file, record.line);
    assert forall|i: int| 0 <= i < kvs.len() implies etw_field_supported(#[trigger] kvs[i]) by {}
    assert forall|i: int| 0 <= i < module.len() implies etw_field_supported(
        #[trigger] module[i],
    ) by {}
    assert forall|i: int| 0 <= i < location.len() implies etw_field_supported(
        #[trigger] location[i],
    ) by {}
    assert forall|i: int| 0 <= i < fields.len() implies etw_field_supported(
        #[trigger] fields[i],
    ) by {
        if i < 2 {
        } else if i < 2 + kvs.len() {
            assert(fields[i] == kvs[i - 2]);
        } else if i < 2 + kvs.len() + module.len() {
            assert(fields[i] == module[i - 2 - kvs.len()]);
        } else {
            assert(fields[i] == location[i - 2 - kvs.len() - module.len()]);
        }
    }
}

/// A Common Schema Windows event can be written where its name holds no NUL
/// and its name, its time text and its message fit.
pub proof fn lemma_etw_common_schema_event_supported(
    time_text: Seq<char>,
    trace: Option<TraceContext>,
    event_name: Seq<char>,
    keyword: u64,
    record: RecordView,
)
    requires
        nul_free(event_name),
        text_fits(event_name),
        text_fits(time_text),
        text_fits(record.payload),
    ensures
        etw_event_supported(
            common_schema_event(Backend::Etw, time_text, trace, event_name, keyword, record),
        ),
{
    let backend = Backend::Etw;
    lemma_common_schema_names();
    if has_valid_span(trace) {
        lemma_hex_text_ascii(trace->0.trace_id as nat, 32);
        lemma_hex_text_ascii(trace->0.span_id as nat, 16);
        lemma_ascii_text(hex_text(trace->0.trace_id as nat, 32));
        lemma_ascii_text(hex_text(trace->0.span_id as nat, 16));
    }
    let a = part_a(backend, time_text, trace);
    let ext = extension_part(backend, trace);
    let b = part_b(backend, time_text, event_name, record.level);
    let c = part_c(backend, record.payload);
    let fields = common_schema_fields(backend, time_text, trace, event_name, record);
    assert(etw_field_supported(version_field(backend)));
    assert forall|i: int| 0 <= i < ext.len() implies etw_field_supported(#[trigger] ext[i]) by {}
    assert forall|i: int| 0 <= i < a.len() implies etw_field_supported(#[trigger] a[i]) by {
        if i >= 2 {
            assert(a[i] == ext[i - 2]);
        }
    }
    assert(text_fits(severity_text(record.level)));
    assert forall|i: int| 0 <= i < b.len() implies etw_field_supported(#[trigger] b[i]) by {}
    assert forall|i: int| 0 <= i < c.len() implies etw_field_supported(#[trigger] c[i]) by {}
    assert forall|i: int| 0 <= i < fields.len() implies etw_field_supported(
        #[trigger] fields[i],
    ) by {
        if i < 1 {
        } else if i < 1 + a.len() {
            assert(fields[i] == a[i - 1]);
        } else if i < 1 + a.len() + b.len() {
            assert(fields[i] == b[i - 1 - a.len()]);
        } else {
            assert(fields[i] == c[i - 1 - a.len() - b.len()]);
        }
    }
}

} // verus!
