//! Structured key-values of a record, and the two-word form of 128-bit
//! integers.

use vstd::prelude::*;

verus! {

/// One structured value, by kind. A float is held as its IEEE 754 bit
/// pattern. `Other` holds the text of a value of any other kind, and `Failed`
/// stands for a value that could not be read.
#[derive(Clone, Debug, PartialEq, Eq)]
pub enum KvValue {
    Bool(bool),
    U64(u64),
    I64(i64),
    F64Bits(u64),
    Str(String),
    Char(char),
    U128(u128),
    I128(i128),
    Other(String),
    Failed,
}

/// The mathematical form of a [`KvValue`].
pub enum KvValueView {
    Bool(bool),
    U64(u64),
    I64(i64),
    F64Bits(u64),
    Str(Seq<char>),
    Char(char),
    U128(u128),
    I128(i128),
    Other(Seq<char>),
    Failed,
}

impl View for KvValue {
    type V = KvValueView;

    open spec fn view(&self) -> KvValueView {
        match *self {
            KvValue::Bool(b) => KvValueView::Bool(b),
            KvValue::U64(v) => KvValueView::U64(v),
            KvValue::I64(v) => KvValueView::I64(v),
            KvValue::F64Bits(bits) => KvValueView::F64Bits(bits),
            KvValue::Str(s) => KvValueView::Str(s@),
            KvValue::Char(c) => KvValueView::Char(c),
            KvValue::U128(v) => KvValueView::U128(v),
            KvValue::I128(v) => KvValueView::I128(v),
            KvValue::Other(s) => KvValueView::Other(s@),
            KvValue::Failed => KvValueView::Failed,
        }
    }
}

/// A key with its value.
#[derive(Clone, Debug, PartialEq, Eq)]
pub struct KeyValue {
    pub key: String,
    pub value: KvValue,
}

/// The mathematical form of a [`KeyValue`].
pub struct KeyValueView {
    pub key: Seq<char>,
    pub value: KvValueView,
}

impl View for KeyValue {
    type V = KeyValueView;

    open spec fn view(&self) -> KeyValueView {
        KeyValueView { key: self.key@, value: self.value@ }
    }
}

/// The views of a sequence of key-values, in order.
pub open spec fn key_values_view(kvs: Seq<KeyValue>) -> Seq<KeyValueView> {
    kvs.map_values(|kv: KeyValue| kv@)
}

/// Two to the power 64.
pub const WORD_RADIX: u128 = 0x1_0000_0000_0000_0000;

/// The low 64 bits of a 128-bit value.
pub open spec fn low_word(value: u128) -> u64 {
    (value % WORD_RADIX) as u64
}

/// The high 64 bits of a 128-bit value.
pub open spec fn high_word(value: u128) -> u64 {
    (value / WORD_RADIX) as u64
}

/// The two words of a 128-bit value, low word first: the order of its
/// little-endian bytes.
pub open spec fn words_of(value: u128) -> Seq<u64> {
    seq![low_word(value), high_word(value)]
}

/// The value whose little-endian words are `low` and `high`.
pub open spec fn value_of_words(low: u64, high: u64) -> int {
    high * WORD_RADIX + low
}

/// The bit pattern of a signed 128-bit value in two's complement.
pub open spec fn twos_complement(value: i128) -> u128 {
    if value >= 0 {
        value as u128
    } else {
        (value + WORD_RADIX * WORD_RADIX) as u128
    }
}

/// The 32 bits of a signed value in two's complement, as an unsigned word.
pub open spec fn word_of_i32(value: i32) -> u32 {
    if value >= 0 {
        value as u32
    } else {
        (value + 0x1_0000_0000) as u32
    }
}

/// The 64 bits of a signed value in two's complement, as an unsigned word.
pub open spec fn word_of_i64(value: i64) -> u64 {
    if value >= 0 {
        value as u64
    } else {
        (value + 0x1_0000_0000_0000_0000) as u64
    }
}

/// The low byte of a character's code point.
pub open spec fn low_byte(c: char) -> u8 {
    (c as u32 % 256) as u8
}

/// Splits a 128-bit value into its two 64-bit words, low word first.
pub fn split_u128(value: u128) -> (words: Vec<u64>)
    ensures
        words@ == words_of(value),
{
    let low: u64 = (value % WORD_RADIX) as u64;
    let high: u64 = (value / WORD_RADIX) as u64;
    let mut words: Vec<u64> = Vec::new();
    words.push(low);
    words.push(high);
    assert(words@ =~= words_of(value));
    words
}

/// Puts two little-endian words back together.
pub fn join_u128(low: u64, high: u64) -> (value: u128)
    ensures
        value == value_of_words(low, high),
        words_of(value) == seq![low, high],
{
    let value: u128 = (high as u128) * WORD_RADIX + (low as u128);
    assert(words_of(value) =~= seq![low, high]);
    value
}

/// The two's-complement bit pattern of a signed 128-bit value.
pub fn bits_of_i128(value: i128) -> (bits: u128)
    ensures
        bits == twos_complement(value),
{
    if value >= 0 {
        value as u128
    } else {
        let below: u128 = (-(value + 1)) as u128;
        u128::MAX - below
    }
}

/// Narrows a character to the low byte of its code point. For a character
/// outside Latin-1 this loses the upper bits.
pub fn narrow_char(c: char) -> (byte: u8)
    ensures
        byte == low_byte(c),
{
    ((c as u32) % 256) as u8
}

/// Splitting a 128-bit value into two words and reading the words back as
/// little-endian gives the value again, for every value.
pub proof fn lemma_words_round_trip(value: u128)
    ensures
        words_of(value).len() == 2,
        value_of_words(words_of(value)[0], words_of(value)[1]) == value,
{
}

/// Two 128-bit values with the same words are the same value.
pub proof fn lemma_words_injective(a: u128, b: u128)
    requires
        words_of(a) == words_of(b),
    ensures
        a == b,
{
    lemma_words_round_trip(a);
    lemma_words_round_trip(b);
    assert(words_of(a)[0] == words_of(b)[0]);
    assert(words_of(a)[1] == words_of(b)[1]);
}

} // verus!
