//! The native event of a record: which fields it holds, in which order and
//! with which type and format tags.
//!
//! The order is fixed: `time`, `Payload`, the key-values, `Module Path`,
//! `File`, `Line`. A field that the record does not have is left out:
//! nothing is written in its place.

use crate::field::Backend;
use crate::field::Event;
use crate::field::EventView;
use crate::field::Field;
use crate::field::FieldValue;
use crate::field::FieldView;
use crate::field::Format;
use crate::field::OPCODE_INFO;
use crate::field::ValueView;
use crate::field::fields_view;
use crate::field::is_nul_free;
use crate::field::lemma_flat_run;
use crate::field::nul_free;
use crate::field::text_field;
use crate::field::well_nested;
use crate::level::map_level;
use crate::level::native_level;
use crate::record::Record;
use crate::record::RecordView;
use crate::time::Win32SystemTime;
use crate::value::KeyValue;
use crate::value::KeyValueView;
use crate::value::KvValue;
use crate::value::KvValueView;
use crate::value::bits_of_i128;
use crate::value::low_byte;
use crate::value::narrow_char;
use crate::value::split_u128;
use crate::value::twos_complement;
use crate::value::words_of;
use vstd::prelude::*;

verus! {

/// The format of UTF-8 text: the message, the module path, the file.
pub open spec fn utf8_format(backend: Backend) -> Format {
    match backend {
        Backend::Etw => Format::Utf8,
        Backend::UserEvents => Format::Default,
    }
}

/// The format of the text of a key-value.
pub open spec fn plain_text_format(backend: Backend) -> Format {
    match backend {
        Backend::Etw => Format::String8,
        Backend::UserEvents => Format::Default,
    }
}

/// The format of the combined JSON field.
pub open spec fn json_format(backend: Backend) -> Format {
    match backend {
        Backend::Etw => Format::Json,
        Backend::UserEvents => Format::Default,
    }
}

/// The format of an unsigned integer.
pub open spec fn unsigned_format(backend: Backend) -> Format {
    match backend {
        Backend::Etw => Format::Unsigned,
        Backend::UserEvents => Format::Default,
    }
}

/// The format of a float.
pub open spec fn float_format(backend: Backend) -> Format {
    match backend {
        Backend::Etw => Format::Signed,
        Backend::UserEvents => Format::Float,
    }
}

/// The `time` field of a Windows event: eight words, shown as a UTC date.
pub open spec fn etw_time_field(words: Seq<u16>) -> FieldView {
    FieldView { name: "time"@, value: ValueView::SystemTime(words), format: Format::DateTimeUtc }
}

/// The `time` field of a Linux event: seconds since the epoch.
pub open spec fn user_events_time_field(secs: i64) -> FieldView {
    FieldView { name: "time"@, value: ValueView::I64(secs), format: Format::Time }
}

/// The one field that a key-value becomes, by the kind of its value; `None`
/// for a value that could not be read and for a key that holds a NUL
/// character, which no field name can.
pub open spec fn kv_field(backend: Backend, kv: KeyValueView) -> Option<FieldView> {
    if !nul_free(kv.key) {
        None
    } else {
        match kv.value {
            KvValueView::Bool(b) => Some(
                FieldView { name: kv.key, value: ValueView::Bool32(b), format: Format::Boolean },
            ),
            KvValueView::U64(v) => Some(
                FieldView { name: kv.key, value: ValueView::U64(v), format: unsigned_format(backend) },
            ),
            KvValueView::I64(v) => Some(
                FieldView { name: kv.key, value: ValueView::I64(v), format: Format::Signed },
            ),
            KvValueView::F64Bits(bits) => Some(
                FieldView { name: kv.key, value: ValueView::F64Bits(bits), format: float_format(backend) },
            ),
            KvValueView::Str(s) => Some(text_field(kv.key, s, plain_text_format(backend))),
            KvValueView::Char(c) => Some(
                FieldView { name: kv.key, value: ValueView::U8(low_byte(c)), format: Format::String8 },
            ),
            KvValueView::U128(v) => Some(
                FieldView { name: kv.key, value: ValueView::U64Seq(words_of(v)), format: Format::Hex },
            ),
            KvValueView::I128(v) => Some(
                FieldView {
                    name: kv.key,
                    value: ValueView::U64Seq(words_of(twos_complement(v))),
                    format: Format::Hex,
                },
            ),
            KvValueView::Other(s) => Some(text_field(kv.key, s, plain_text_format(backend))),
            KvValueView::Failed => None,
        }
    }
}

/// Zero or one field, as a sequence.
pub open spec fn optional_field(field: Option<FieldView>) -> Seq<FieldView> {
    match field {
        Some(f) => seq![f],
        None => Seq::empty(),
    }
}

/// The fields of a sequence of key-values: one per key, in order, with the
/// keys that give no field left out.
pub open spec fn kv_fields(backend: Backend, kvs: Seq<KeyValueView>) -> Seq<FieldView>
    decreases kvs.len(),
{
    if kvs.len() == 0 {
        Seq::empty()
    } else {
        kv_fields(backend, kvs.drop_last()) + optional_field(kv_field(backend, kvs.last()))
    }
}

/// The key-value part of a native event. In JSON payload mode it is the one
/// field `Keys / Values` with the JSON text, where there is one; otherwise
/// it is one field per key.
pub open spec fn key_value_part(backend: Backend, record: RecordView, json: bool) -> Seq<FieldView> {
    if json {
        match record.key_values_json {
            Some(text) => seq![text_field("Keys / Values"@, text, json_format(backend))],
            None => Seq::empty(),
        }
    } else {
        kv_fields(backend, record.key_values)
    }
}

/// The `Module Path` field, where the record has a module path.
pub open spec fn module_part(backend: Backend, module: Option<Seq<char>>) -> Seq<FieldView> {
    match module {
        Some(path) => seq![text_field("Module Path"@, path, utf8_format(backend))],
        None => Seq::empty(),
    }
}

/// The `Line` field.
pub open spec fn line_field(backend: Backend, line: u32) -> FieldView {
    FieldView { name: "Line"@, value: ValueView::U32(line), format: unsigned_format(backend) }
}

/// The `File` field, where the record has a file, followed by the `Line`
/// field, where it has a line too. A line without a file is not written.
pub open spec fn location_part(backend: Backend, file: Option<Seq<char>>, line: Option<u32>) -> Seq<
    FieldView,
> {
    match file {
        Some(path) => seq![text_field("File"@, path, utf8_format(backend))] + match line {
            Some(n) => seq![line_field(backend, n)],
            None => Seq::empty(),
        },
        None => Seq::empty(),
    }
}

/// The fields of the native event of a record, given its `time` field.
pub open spec fn native_fields(backend: Backend, time: FieldView, record: RecordView, json: bool) -> Seq<
    FieldView,
> {
    seq![time, text_field("Payload"@, record.payload, utf8_format(backend))] + key_value_part(
        backend,
        record,
        json,
    ) + module_part(backend, record.module) + location_part(backend, record.file, record.line)
}

/// The native event of a record, given its `time` field.
pub open spec fn native_event(
    backend: Backend,
    time: FieldView,
    event_name: Seq<char>,
    keyword: u64,
    record: RecordView,
    json: bool,
) -> EventView {
    EventView {
        name: event_name,
        level: native_level(record.level),
        keyword,
        opcode: OPCODE_INFO,
        fields: native_fields(backend, time, record, json),
    }
}

/// The format of UTF-8 text on a backend.
pub fn utf8_format_of(backend: Backend) -> (format: Format)
    ensures
        format == utf8_format(backend),
{
    match backend {
        Backend::Etw => Format::Utf8,
        Backend::UserEvents => Format::Default,
    }
}

/// The format of the text of a key-value on a backend.
pub fn plain_text_format_of(backend: Backend) -> (format: Format)
    ensures
        format == plain_text_format(backend),
{
    match backend {
        Backend::Etw => Format::String8,
        Backend::UserEvents => Format::Default,
    }
}

/// The format of the combined JSON field on a backend.
pub fn json_format_of(backend: Backend) -> (format: Format)
    ensures
        format == json_format(backend),
{
    match backend {
        Backend::Etw => Format::Json,
        Backend::UserEvents => Format::Default,
    }
}

/// The format of an unsigned integer on a backend.
pub fn unsigned_format_of(backend: Backend) -> (format: Format)
    ensures
        format == unsigned_format(backend),
{
    match backend {
        Backend::Etw => Format::Unsigned,
        Backend::UserEvents => Format::Default,
    }
}

/// The format of a float on a backend.
pub fn float_format_of(backend: Backend) -> (format: Format)
    ensures
        format == float_format(backend),
{
    match backend {
        Backend::Etw => Format::Signed,
        Backend::UserEvents => Format::Float,
    }
}

/// Turns one key-value into the one field that stands for it, by the kind of
/// its value. A value that could not be read gives no field, and neither does
/// a key that holds a NUL character.
pub fn visit_key_value(backend: Backend, kv: &KeyValue) -> (field: Option<Field>)
    ensures
        field is Some <==> kv_field(backend, kv@) is Some,
        field matches Some(f) ==> kv_field(backend, kv@) == Some(f@),
{
    if !is_nul_free(kv.key.as_str()) {
        return None;
    }
    let key: &str = kv.key.as_str();
    match &kv.value {
        KvValue::Bool(b) => Some(Field::new(key, FieldValue::Bool32(*b), Format::Boolean)),
        KvValue::U64(v) => Some(Field::new(key, FieldValue::U64(*v), unsigned_format_of(backend))),
        KvValue::I64(v) => Some(Field::new(key, FieldValue::I64(*v), Format::Signed)),
        KvValue::F64Bits(bits) => Some(
            Field::new(key, FieldValue::F64Bits(*bits), float_format_of(backend)),
        ),
        KvValue::Str(s) => Some(Field::text(key, s.as_str(), plain_text_format_of(backend))),
        KvValue::Char(c) => Some(Field::new(key, FieldValue::U8(narrow_char(*c)), Format::String8)),
        KvValue::U128(v) => Some(Field::new(key, FieldValue::U64Seq(split_u128(*v)), Format::Hex)),
        KvValue::I128(v) => Some(
            Field::new(key, FieldValue::U64Seq(split_u128(bits_of_i128(*v))), Format::Hex),
        ),
        KvValue::Other(s) => Some(Field::text(key, s.as_str(), plain_text_format_of(backend))),
        KvValue::Failed => None,
    }
}

/// Adding a field to a sequence adds its view to the views.
pub proof fn lemma_fields_view_push(fields: Seq<Field>, field: Field)
    ensures
        fields_view(fields.push(field)) == fields_view(fields).push(field@),
{
    assert(fields_view(fields.push(field)) =~= fields_view(fields).push(field@));
}

/// The fields of the first `n + 1` key-values are those of the first `n`
/// followed by what key-value `n` gives.
pub proof fn lemma_kv_fields_step(backend: Backend, kvs: Seq<KeyValueView>, n: int)
    requires
        0 <= n < kvs.len(),
    ensures
        kv_fields(backend, kvs.take(n + 1)) == kv_fields(backend, kvs.take(n)) + optional_field(
            kv_field(backend, kvs[n]),
        ),
{
    let head = kvs.take(n + 1);
    assert(head.drop_last() =~= kvs.take(n));
    assert(head.last() == kvs[n]);
}

/// Appends the fields of a record's key-values to `fields`, one per key.
fn push_key_values(backend: Backend, fields: &mut Vec<Field>, kvs: &Vec<KeyValue>)
    ensures
        fields_view(final(fields)@) == fields_view(old(fields)@) + kv_fields(
            backend,
            crate::value::key_values_view(kvs@),
        ),
{
    let ghost views = crate::value::key_values_view(kvs@);
    let mut i: usize = 0;
    assert(kv_fields(backend, views.take(0)) =~= Seq::<FieldView>::empty());
    assert(fields_view(fields@) + Seq::<FieldView>::empty() =~= fields_view(fields@));
    while i < kvs.len()
        invariant
            i <= kvs.len(),
            views == crate::value::key_values_view(kvs@),
            fields_view(fields@) == fields_view(old(fields)@) + kv_fields(
                backend,
                views.take(i as int),
            ),
        decreases kvs.len() - i,
    {
        let ghost before = fields@;
        proof {
            lemma_kv_fields_step(backend, views, i as int);
            assert(views[i as int] == kvs@[i as int]@);
        }
        match visit_key_value(backend, &kvs[i]) {
            Some(field) => {
                proof {
                    lemma_fields_view_push(before, field);
                }
                fields.push(field);
                assert(fields_view(fields@) =~= fields_view(old(fields)@) + kv_fields(
                    backend,
                    views.take(i as int + 1),
                ));
            },
            None => {
                assert(fields_view(fields@) =~= fields_view(old(fields)@) + kv_fields(
                    backend,
                    views.take(i as int + 1),
                ));
            },
        }
        i += 1;
    }
    assert(views.take(kvs.len() as int) =~= views);
}

/// Builds the native event of a record from its `time` field.
fn encode_native(
    backend: Backend,
    time: Field,
    event_name: &str,
    keyword: u64,
    record: &Record,
    json: bool,
) -> (event: Event)
    ensures
        event@ == native_event(backend, time@, event_name@, keyword, record@, json),
{
    let mut fields: Vec<Field> = Vec::new();
    fields.push(time);
    fields.push(Field::text("Payload", record.payload.as_str(), utf8_format_of(backend)));
    assert(fields_view(fields@) =~= seq![
        time@,
        text_field("Payload"@, record@.payload, utf8_format(backend)),
    ]);
    let ghost head = fields_view(fields@);

    if json {
        match &record.key_values_json {
            Some(text) => {
                let field = Field::text("Keys / Values", text.as_str(), json_format_of(backend));
                proof {
                    lemma_fields_view_push(fields@, field);
                }
                fields.push(field);
            },
            None => {},
        }
    } else {
        push_key_values(backend, &mut fields, &record.key_values);
    }
    assert(fields_view(fields@) =~= head + key_value_part(backend, record@, json));
    let ghost with_kvs = fields_view(fields@);

    match &record.module {
        Some(path) => {
            let field = Field::text("Module Path", path.as_str(), utf8_format_of(backend));
            proof {
                lemma_fields_view_push(fields@, field);
            }
            fields.push(field);
        },
        None => {},
    }
    assert(fields_view(fields@) =~= with_kvs + module_part(backend, record@.module));
    let ghost with_module = fields_view(fields@);

    match &record.file {
        Some(path) => {
            let field = Field::text("File", path.as_str(), utf8_format_of(backend));
            proof {
                lemma_fields_view_push(fields@, field);
            }
            fields.push(field);
            match record.line {
                Some(n) => {
                    let field = Field::new("Line", FieldValue::U32(n), unsigned_format_of(backend));
                    proof {
                        lemma_fields_view_push(fields@, field);
                    }
                    fields.push(field);
                },
                None => {},
            }
        },
        None => {},
    }
    assert(fields_view(fields@) =~= with_module + location_part(
        backend,
        record@.file,
        record@.line,
    ));

    Event {
        name: event_name.to_owned(),
        level: map_level(record.level),
        keyword,
        opcode: OPCODE_INFO,
        fields,
    }
}

/// Builds the native Windows event of a record. Its `time` field holds the
/// eight words of `time`.
pub fn encode_native_etw(
    time: &Win32SystemTime,
    event_name: &str,
    keyword: u64,
    record: &Record,
    json: bool,
) -> (event: Event)
    ensures
        event@ == native_event(
            Backend::Etw,
            etw_time_field(time.st@),
            event_name@,
            keyword,
            record@,
            json,
        ),
{
    let field = Field::new("time", FieldValue::SystemTime(*time), Format::DateTimeUtc);
    encode_native(Backend::Etw, field, event_name, keyword, record, json)
}

/// Builds the native Linux event of a record. Its `time` field holds `secs`,
/// the seconds since the epoch.
pub fn encode_native_user_events(
    secs: i64,
    event_name: &str,
    keyword: u64,
    record: &Record,
    json: bool,
) -> (event: Event)
    ensures
        event@ == native_event(
            Backend::UserEvents,
            user_events_time_field(secs),
            event_name@,
            keyword,
            record@,
            json,
        ),
{
    let field = Field::new("time", FieldValue::I64(secs), Format::Time);
    encode_native(Backend::UserEvents, field, event_name, keyword, record, json)
}

/// A record with no key-values, no module path and no file gives exactly the
/// two fields `time` and `Payload`. In JSON payload mode this asks that the
/// record carries no JSON text: the text of an empty object is still a field.
pub proof fn lemma_bare_record_fields(
    backend: Backend,
    time: FieldView,
    record: RecordView,
    json: bool,
)
    requires
        record.key_values.len() == 0,
        record.module is None,
        record.file is None,
        json ==> record.key_values_json is None,
    ensures
        native_fields(backend, time, record, json) == seq![
            time,
            text_field("Payload"@, record.payload, utf8_format(backend)),
        ],
{
    assert(native_fields(backend, time, record, json) =~= seq![
        time,
        text_field("Payload"@, record.payload, utf8_format(backend)),
    ]);
}

/// Every native event starts with `time` and `Payload`, whatever else the
/// record holds.
pub proof fn lemma_native_fields_start(
    backend: Backend,
    time: FieldView,
    record: RecordView,
    json: bool,
)
    ensures
        native_fields(backend, time, record, json).len() >= 2,
        native_fields(backend, time, record, json)[0] == time,
        native_fields(backend, time, record, json)[1] == text_field(
            "Payload"@,
            record.payload,
            utf8_format(backend),
        ),
{
}

/// A record with a file and no line ends with its `File` field: the fields
/// are those of the same record without the file, and then `File`.
pub proof fn lemma_file_without_line(
    backend: Backend,
    time: FieldView,
    record: RecordView,
    json: bool,
)
    requires
        record.file is Some,
        record.line is None,
    ensures
        native_fields(backend, time, record, json) == native_fields(
            backend,
            time,
            RecordView { file: None, ..record },
            json,
        ).push(text_field("File"@, record.file->0, utf8_format(backend))),
{
    let bare = RecordView { file: None, ..record };
    assert(native_fields(backend, time, record, json) =~= native_fields(
        backend,
        time,
        bare,
        json,
    ).push(text_field("File"@, record.file->0, utf8_format(backend))));
}

/// A record with a file and a line ends with `File` and then `Line`.
pub proof fn lemma_file_with_line(
    backend: Backend,
    time: FieldView,
    record: RecordView,
    json: bool,
)
    requires
        record.file is Some,
        record.line is Some,
    ensures
        native_fields(backend, time, record, json) == native_fields(
            backend,
            time,
            RecordView { file: None, ..record },
            json,
        ).push(text_field("File"@, record.file->0, utf8_format(backend))).push(
            line_field(backend, record.line->0),
        ),
{
    let bare = RecordView { file: None, ..record };
    assert(native_fields(backend, time, record, json) =~= native_fields(
        backend,
        time,
        bare,
        json,
    ).push(text_field("File"@, record.file->0, utf8_format(backend))).push(
        line_field(backend, record.line->0),
    ));
}

/// A line without a file is never written: the line of a record without a
/// file changes nothing.
pub proof fn lemma_line_needs_file(
    backend: Backend,
    time: FieldView,
    record: RecordView,
    json: bool,
)
    requires
        record.file is None,
    ensures
        native_fields(backend, time, record, json) == native_fields(
            backend,
            time,
            RecordView { line: None, ..record },
            json,
        ),
{
}

/// The fields of two runs of key-values, one after the other, are the fields
/// of the first run followed by those of the second. So what one key gives
/// depends on that key alone, and a key that gives no field takes nothing
/// away from the others.
pub proof fn lemma_kv_fields_concat(backend: Backend, a: Seq<KeyValueView>, b: Seq<KeyValueView>)
    ensures
        kv_fields(backend, a + b) == kv_fields(backend, a) + kv_fields(backend, b),
    decreases b.len(),
{
    if b.len() == 0 {
        assert(a + b =~= a);
        assert(kv_fields(backend, a) + kv_fields(backend, b) =~= kv_fields(backend, a));
    } else {
        lemma_kv_fields_concat(backend, a, b.drop_last());
        assert((a + b).drop_last() =~= a + b.drop_last());
        assert((a + b).last() == b.last());
        assert(kv_fields(backend, a + b) =~= kv_fields(backend, a) + kv_fields(backend, b));
    }
}

/// Each key gives at most one field.
pub proof fn lemma_kv_fields_len(backend: Backend, kvs: Seq<KeyValueView>)
    ensures
        kv_fields(backend, kvs).len() <= kvs.len(),
    decreases kvs.len(),
{
    if kvs.len() > 0 {
        lemma_kv_fields_len(backend, kvs.drop_last());
    }
}

/// Where every value could be read and no key holds a NUL character, each
/// key gives exactly one field, under the key's own name.
pub proof fn lemma_kv_fields_complete(backend: Backend, kvs: Seq<KeyValueView>)
    requires
        forall|i: int| 0 <= i < kvs.len() ==> kv_field(backend, #[trigger] kvs[i]) is Some,
    ensures
        kv_fields(backend, kvs).len() == kvs.len(),
        forall|i: int|
            0 <= i < kvs.len() ==> Some(#[trigger] kv_fields(backend, kvs)[i]) == kv_field(
                backend,
                kvs[i],
            ),
    decreases kvs.len(),
{
    if kvs.len() > 0 {
        let front = kvs.drop_last();
        assert forall|i: int| 0 <= i < front.len() implies kv_field(
            backend,
            #[trigger] front[i],
        ) is Some by {
            assert(front[i] == kvs[i]);
        }
        lemma_kv_fields_complete(backend, front);
        assert(kv_field(backend, kvs.last()) is Some);
        assert forall|i: int| 0 <= i < kvs.len() implies Some(
            #[trigger] kv_fields(backend, kvs)[i],
        ) == kv_field(backend, kvs[i]) by {
            if i < front.len() {
                assert(kv_fields(backend, kvs)[i] == kv_fields(backend, front)[i]);
                assert(front[i] == kvs[i]);
            }
        }
    }
}

/// No key-value gives a struct field.
proof fn lemma_kv_fields_flat(backend: Backend, kvs: Seq<KeyValueView>)
    ensures
        forall|i: int|
            0 <= i < kv_fields(backend, kvs).len() ==> !((#[trigger] kv_fields(
                backend,
                kvs,
            )[i]).value is Struct),
    decreases kvs.len(),
{
    if kvs.len() > 0 {
        lemma_kv_fields_flat(backend, kvs.drop_last());
        let all = kv_fields(backend, kvs);
        let head = kv_fields(backend, kvs.drop_last());
        let tail = optional_field(kv_field(backend, kvs.last()));
        assert(all == head + tail);
        assert forall|i: int| 0 <= i < all.len() implies !((#[trigger] all[i]).value is Struct) by {
            if i < head.len() {
                assert(all[i] == head[i]);
            } else {
                assert(all[i] == tail[i - head.len()]);
            }
        }
    }
}

/// A native event whose `time` field is no struct holds no struct at all:
/// its fields are as many whole fields as there are fields.
pub proof fn lemma_native_fields_flat(
    backend: Backend,
    time: FieldView,
    record: RecordView,
    json: bool,
)
    requires
        !(time.value is Struct),
    ensures
        well_nested(
            native_fields(backend, time, record, json),
            native_fields(backend, time, record, json).len(),
        ),
{
    let fields = native_fields(backend, time, record, json);
    let kvs = key_value_part(backend, record, json);
    let module = module_part(backend, record.module);
    let location = location_part(backend, record.file, record.line);
    if !json {
        lemma_kv_fields_flat(backend, record.key_values);
    }
    assert forall|i: int| 0 <= i < fields.len() implies !((#[trigger] fields[i]).value is Struct) by {
        if i < 2 {
        } else if i < 2 + kvs.len() {
            assert(fields[i] == kvs[i - 2]);
        } else if i < 2 + kvs.len() + module.len() {
            assert(fields[i] == module[i - 2 - kvs.len()]);
        } else {
            assert(fields[i] == location[i - 2 - kvs.len() - module.len()]);
        }
    }
    lemma_flat_run(fields, 0, fields.len());
}

} // verus!
