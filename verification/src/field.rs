//! The event model: what an event holds before any byte is written.
//!
//! An event is a name, a native level, a keyword mask, an opcode and an
//! ordered list of fields. A field is a name, a typed value and a format hint
//! for whoever decodes it. A struct field declares how many of the fields
//! that follow belong to it.

use crate::time::Win32SystemTime;
use vstd::prelude::*;
use vstd::utf8::char_u32_cast;
use vstd::utf8::encode_scalar;
use vstd::utf8::encode_utf8;
use vstd::utf8::encode_utf8_decode_utf8;

verus! {

/// The trace subsystem that an event is laid out for.
#[derive(Clone, Copy, Debug, PartialEq, Eq, Structural)]
pub enum Backend {
    /// Event Tracing for Windows.
    Etw,
    /// Linux user_events, in the EventHeader encoding.
    UserEvents,
}

/// How a decoder is asked to show a field's value.
#[derive(Clone, Copy, Debug, PartialEq, Eq, Structural)]
pub enum Format {
    Default,
    Unsigned,
    Signed,
    Hex,
    Boolean,
    Float,
    /// Seconds since the Unix epoch.
    Time,
    /// An eight-word date and time in UTC.
    DateTimeUtc,
    /// Text of one byte per character in no stated encoding.
    String8,
    Utf8,
    Json,
}

/// The opcode of an event that marks nothing but information.
pub const OPCODE_INFO: u8 = 0;

/// The most bytes that a counted text can hold, and the most items that a
/// counted sequence can.
pub const COUNT_MAX: usize = 65535;

/// The most fields that a struct field can declare.
pub const STRUCT_FIELDS_MAX: u8 = 127;

/// The typed value of a field. A float is held as its IEEE 754 bit pattern;
/// `Struct` holds the number of following fields that belong to the struct.
#[derive(Clone, Debug, PartialEq, Eq)]
pub enum FieldValue {
    Bool32(bool),
    U8(u8),
    U16(u16),
    U32(u32),
    I32(i32),
    U64(u64),
    I64(i64),
    F64Bits(u64),
    Text(String),
    U64Seq(Vec<u64>),
    SystemTime(Win32SystemTime),
    Struct(u8),
}

/// The mathematical form of a [`FieldValue`].
pub enum ValueView {
    Bool32(bool),
    U8(u8),
    U16(u16),
    U32(u32),
    I32(i32),
    U64(u64),
    I64(i64),
    F64Bits(u64),
    Text(Seq<char>),
    U64Seq(Seq<u64>),
    SystemTime(Seq<u16>),
    Struct(u8),
}

impl View for FieldValue {
    type V = ValueView;

    open spec fn view(&self) -> ValueView {
        match *self {
            FieldValue::Bool32(b) => ValueView::Bool32(b),
            FieldValue::U8(v) => ValueView::U8(v),
            FieldValue::U16(v) => ValueView::U16(v),
            FieldValue::U32(v) => ValueView::U32(v),
            FieldValue::I32(v) => ValueView::I32(v),
            FieldValue::U64(v) => ValueView::U64(v),
            FieldValue::I64(v) => ValueView::I64(v),
            FieldValue::F64Bits(bits) => ValueView::F64Bits(bits),
            FieldValue::Text(s) => ValueView::Text(s@),
            FieldValue::U64Seq(words) => ValueView::U64Seq(words@),
            FieldValue::SystemTime(time) => ValueView::SystemTime(time.st@),
            FieldValue::Struct(count) => ValueView::Struct(count),
        }
    }
}

/// One field of an event.
#[derive(Clone, Debug, PartialEq, Eq)]
pub struct Field {
    pub name: String,
    pub value: FieldValue,
    pub format: Format,
}

/// The mathematical form of a [`Field`].
pub struct FieldView {
    pub name: Seq<char>,
    pub value: ValueView,
    pub format: Format,
}

impl View for Field {
    type V = FieldView;

    open spec fn view(&self) -> FieldView {
        FieldView { name: self.name@, value: self.value@, format: self.format }
    }
}

/// The views of a sequence of fields, in order.
pub open spec fn fields_view(fields: Seq<Field>) -> Seq<FieldView> {
    fields.map_values(|f: Field| f@)
}

/// A text field with the given name, text and format.
pub open spec fn text_field(name: Seq<char>, text: Seq<char>, format: Format) -> FieldView {
    FieldView { name, value: ValueView::Text(text), format }
}

/// A struct field that declares `count` following fields as its own.
pub open spec fn struct_field(name: Seq<char>, count: u8) -> FieldView {
    FieldView { name, value: ValueView::Struct(count), format: Format::Default }
}

/// One event, ready to be handed to a sink.
#[derive(Clone, Debug, PartialEq, Eq)]
pub struct Event {
    pub name: String,
    pub level: u8,
    pub keyword: u64,
    pub opcode: u8,
    pub fields: Vec<Field>,
}

/// The mathematical form of an [`Event`].
pub struct EventView {
    pub name: Seq<char>,
    pub level: u8,
    pub keyword: u64,
    pub opcode: u8,
    pub fields: Seq<FieldView>,
}

impl View for Event {
    type V = EventView;

    open spec fn view(&self) -> EventView {
        EventView {
            name: self.name@,
            level: self.level,
            keyword: self.keyword,
            opcode: self.opcode,
            fields: fields_view(self.fields@),
        }
    }
}

/// Whether the UTF-8 form of a text holds no zero byte, which is to say
/// that the text holds no NUL character.
pub open spec fn nul_free(text: Seq<char>) -> bool {
    !encode_utf8(text).contains(0u8)
}

/// The UTF-8 form of a character holds an ASCII byte only where the
/// character is the ASCII character of that code.
proof fn lemma_scalar_ascii_byte(c: char, byte: u8)
    requires
        byte <= 0x7f,
    ensures
        encode_scalar(c as u32).contains(byte) <==> c as u32 == byte,
{
    let s = c as u32;
    let bytes = encode_scalar(s);
    assert(s <= 0x7F ==> ((s & 0x7F) as u8 == byte <==> s == byte)) by (bit_vector)
        requires
            byte <= 0x7f,
    ;
    assert(0xC0u8 | ((s >> 6) & 0x1F) as u8 >= 0x80) by (bit_vector);
    assert(0xE0u8 | ((s >> 12) & 0x0F) as u8 >= 0x80) by (bit_vector);
    assert(0xF0u8 | ((s >> 18) & 0x7) as u8 >= 0x80) by (bit_vector);
    assert(0x80u8 | (s & 0x3F) as u8 >= 0x80) by (bit_vector);
    assert(0x80u8 | ((s >> 6) & 0x3F) as u8 >= 0x80) by (bit_vector);
    assert(0x80u8 | ((s >> 12) & 0x3F) as u8 >= 0x80) by (bit_vector);
    if bytes.contains(byte) {
        let i = choose|i: int| 0 <= i < bytes.len() && bytes[i] == byte;
        assert(bytes[i] == byte);
    }
    if s == byte {
        assert(bytes =~= seq![byte]);
        assert(bytes[0] == byte);
    }
}

/// The UTF-8 form of a text holds an ASCII byte exactly where the text holds
/// the ASCII character of that code.
pub proof fn lemma_ascii_byte_chars(text: Seq<char>, byte: u8)
    requires
        byte <= 0x7f,
    ensures
        encode_utf8(text).contains(byte) <==> exists|k: int|
            0 <= k < text.len() && #[trigger] text[k] as u32 == byte,
    decreases text.len(),
{
    if text.len() == 0 {
    } else {
        let head = encode_scalar(text[0] as u32);
        let rest = text.drop_first();
        let tail = encode_utf8(rest);
        lemma_scalar_ascii_byte(text[0], byte);
        lemma_ascii_byte_chars(rest, byte);
        assert(encode_utf8(text) == head + tail);
        if encode_utf8(text).contains(byte) {
            let i = choose|i: int| 0 <= i < (head + tail).len() && (head + tail)[i] == byte;
            if i < head.len() {
                assert(head[i] == byte);
                assert(text[0] as u32 == byte);
            } else {
                assert(tail[i - head.len()] == byte);
                let k = choose|k: int| 0 <= k < rest.len() && #[trigger] rest[k] as u32 == byte;
                assert(text[k + 1] as u32 == byte);
            }
        }
        if exists|k: int| 0 <= k < text.len() && #[trigger] text[k] as u32 == byte {
            let k = choose|k: int| 0 <= k < text.len() && #[trigger] text[k] as u32 == byte;
            if k == 0 {
                let j = choose|j: int| 0 <= j < head.len() && head[j] == byte;
                assert((head + tail)[j] == byte);
            } else {
                assert(rest[k - 1] as u32 == byte);
                let j = choose|j: int| 0 <= j < tail.len() && tail[j] == byte;
                assert((head + tail)[head.len() + j] == byte);
            }
        }
    }
}

/// A text is free of zero bytes in UTF-8 exactly where none of its
/// characters is NUL.
pub proof fn lemma_nul_free_chars(text: Seq<char>)
    ensures
        nul_free(text) <==> !text.contains('\0'),
{
    lemma_ascii_byte_chars(text, 0u8);
    if text.contains('\0') {
        let k = choose|k: int| 0 <= k < text.len() && text[k] == '\0';
        assert(text[k] as u32 == 0u8);
    }
    if exists|k: int| 0 <= k < text.len() && #[trigger] text[k] as u32 == 0u8 {
        let k = choose|k: int| 0 <= k < text.len() && #[trigger] text[k] as u32 == 0u8;
        char_u32_cast(text[k], 0u32);
        char_u32_cast('\0', 0u32);
        assert(text[k] == '\0');
    }
}

/// Whether two texts are the same, found by comparing their bytes: nothing
/// is copied.
pub fn same_text(a: &str, b: &str) -> (same: bool)
    ensures
        same == (a@ == b@),
{
    let left = a.as_bytes();
    let right = b.as_bytes();
    if left.len() != right.len() {
        return false;
    }
    let mut i: usize = 0;
    while i < left.len()
        invariant
            i <= left.len(),
            left.len() == right.len(),
            left@ == encode_utf8(a@),
            right@ == encode_utf8(b@),
            forall|k: int| 0 <= k < i ==> left@[k] == right@[k],
        decreases left.len() - i,
    {
        if left[i] != right[i] {
            return false;
        }
        i += 1;
    }
    proof {
        assert(left@ =~= right@);
        encode_utf8_decode_utf8(a@);
        encode_utf8_decode_utf8(b@);
    }
    true
}

/// Whether a text holds no NUL character.
pub fn is_nul_free(text: &str) -> (free: bool)
    ensures
        free == nul_free(text@),
{
    let bytes = text.as_bytes();
    let mut i: usize = 0;
    while i < bytes.len()
        invariant
            i <= bytes.len(),
            bytes@ == encode_utf8(text@),
            forall|k: int| 0 <= k < i ==> bytes@[k] != 0u8,
        decreases bytes.len() - i,
    {
        if bytes[i] == 0 {
            return false;
        }
        i += 1;
    }
    true
}

impl Field {
    /// A text field.
    pub fn text(name: &str, text: &str, format: Format) -> (field: Field)
        ensures
            field@ == text_field(name@, text@, format),
    {
        Field { name: name.to_owned(), value: FieldValue::Text(text.to_owned()), format }
    }

    /// A struct field that declares `count` following fields as its own.
    pub fn group(name: &str, count: u8) -> (field: Field)
        ensures
            field@ == struct_field(name@, count),
    {
        Field { name: name.to_owned(), value: FieldValue::Struct(count), format: Format::Default }
    }

    /// A field with the given name, value and format.
    pub fn new(name: &str, value: FieldValue, format: Format) -> (field: Field)
        ensures
            field@ == (FieldView { name: name@, value: value@, format }),
    {
        Field { name: name.to_owned(), value, format }
    }
}

/// The index just past `count` whole fields that start at index `start`,
/// where a struct field takes the fields that it declares with it. `None`
/// where the fields run out before the count is met.
pub open spec fn end_of_run(fields: Seq<FieldView>, start: int, count: nat) -> Option<int>
    decreases fields.len() - start, count,
{
    if count == 0 {
        Some(start)
    } else if start < 0 || start >= fields.len() {
        None
    } else {
        match fields[start].value {
            ValueView::Struct(inner) => match end_of_run(fields, start + 1, inner as nat) {
                Some(after) => if start < after <= fields.len() {
                    end_of_run(fields, after, (count - 1) as nat)
                } else {
                    None
                },
                None => None,
            },
            _ => end_of_run(fields, start + 1, (count - 1) as nat),
        }
    }
}

/// Whether the fields are exactly `top` whole fields, one after the other:
/// every struct field is followed by as many fields as it declares, no more
/// and no fewer.
pub open spec fn well_nested(fields: Seq<FieldView>, top: nat) -> bool {
    end_of_run(fields, 0, top) == Some(fields.len() as int)
}

/// Fields of which none is a struct are as many whole fields as there are
/// fields.
pub proof fn lemma_flat_run(fields: Seq<FieldView>, start: int, count: nat)
    requires
        forall|i: int| 0 <= i < fields.len() ==> !((#[trigger] fields[i]).value is Struct),
        0 <= start,
        start + count <= fields.len(),
    ensures
        end_of_run(fields, start, count) == Some(start + count),
    decreases count,
{
    if count > 0 {
        assert(!(fields[start].value is Struct));
        lemma_flat_run(fields, start + 1, (count - 1) as nat);
    }
}

} // verus!
