//! The distributed-tracing context of a log call and the hex text of its
//! identifiers.

use vstd::arithmetic::div_mod::lemma_breakdown;
use vstd::prelude::*;
use vstd::string::StringExecFns;

verus! {

/// The identifiers of the span that is active at a log call.
#[derive(Clone, Copy, Debug, PartialEq, Eq, Structural)]
pub struct TraceContext {
    pub trace_id: u128,
    pub span_id: u64,
}

impl TraceContext {
    /// A span is valid when its identifier is not zero.
    pub open spec fn is_valid(self) -> bool {
        self.span_id != 0
    }

    /// Whether the span identifier is not zero.
    pub fn valid(&self) -> (valid: bool)
        ensures
            valid == self.is_valid(),
    {
        self.span_id != 0
    }
}

/// Whether a log call has a valid active span.
pub open spec fn has_valid_span(trace: Option<TraceContext>) -> bool {
    trace matches Some(t) && t.is_valid()
}

/// The lower-case hex digit of a value from 0 to 15.
pub open spec fn hex_char(digit: int) -> char {
    if digit == 0 {
        '0'
    } else if digit == 1 {
        '1'
    } else if digit == 2 {
        '2'
    } else if digit == 3 {
        '3'
    } else if digit == 4 {
        '4'
    } else if digit == 5 {
        '5'
    } else if digit == 6 {
        '6'
    } else if digit == 7 {
        '7'
    } else if digit == 8 {
        '8'
    } else if digit == 9 {
        '9'
    } else if digit == 10 {
        'a'
    } else if digit == 11 {
        'b'
    } else if digit == 12 {
        'c'
    } else if digit == 13 {
        'd'
    } else if digit == 14 {
        'e'
    } else {
        'f'
    }
}

/// The value of a lower-case hex digit; 16 for any other character.
pub open spec fn hex_value(c: char) -> int {
    if c == '0' {
        0
    } else if c == '1' {
        1
    } else if c == '2' {
        2
    } else if c == '3' {
        3
    } else if c == '4' {
        4
    } else if c == '5' {
        5
    } else if c == '6' {
        6
    } else if c == '7' {
        7
    } else if c == '8' {
        8
    } else if c == '9' {
        9
    } else if c == 'a' {
        10
    } else if c == 'b' {
        11
    } else if c == 'c' {
        12
    } else if c == 'd' {
        13
    } else if c == 'e' {
        14
    } else if c == 'f' {
        15
    } else {
        16
    }
}

/// The last `width` hex digits of a value, most significant first, with
/// zeros in front where the value has fewer.
pub open spec fn hex_text(value: nat, width: nat) -> Seq<char>
    decreases width,
{
    if width == 0 {
        Seq::empty()
    } else {
        hex_text(value / 16, (width - 1) as nat).push(hex_char((value % 16) as int))
    }
}

/// The number that a text of lower-case hex digits stands for.
pub open spec fn hex_number(text: Seq<char>) -> nat
    decreases text.len(),
{
    if text.len() == 0 {
        0
    } else {
        (hex_number(text.drop_last()) * 16 + hex_value(text.last())) as nat
    }
}

/// Sixteen to the power `width`.
pub open spec fn hex_range(width: nat) -> nat
    decreases width,
{
    if width == 0 {
        1
    } else {
        16 * hex_range((width - 1) as nat)
    }
}

/// The text of a trace identifier: 32 hex digits.
pub open spec fn trace_id_text(trace_id: u128) -> Seq<char> {
    hex_text(trace_id as nat, 32)
}

/// The text of a span identifier: 16 hex digits.
pub open spec fn span_id_text(span_id: u64) -> Seq<char> {
    hex_text(span_id as nat, 16)
}

fn hex_digit(digit: u8) -> (text: &'static str)
    requires
        digit < 16,
    ensures
        text@ == seq![hex_char(digit as int)],
{
    proof {
        reveal_strlit("0");
        reveal_strlit("1");
        reveal_strlit("2");
        reveal_strlit("3");
        reveal_strlit("4");
        reveal_strlit("5");
        reveal_strlit("6");
        reveal_strlit("7");
        reveal_strlit("8");
        reveal_strlit("9");
        reveal_strlit("a");
        reveal_strlit("b");
        reveal_strlit("c");
        reveal_strlit("d");
        reveal_strlit("e");
        reveal_strlit("f");
    }
    let text: &'static str = match digit {
        0 => "0",
        1 => "1",
        2 => "2",
        3 => "3",
        4 => "4",
        5 => "5",
        6 => "6",
        7 => "7",
        8 => "8",
        9 => "9",
        10 => "a",
        11 => "b",
        12 => "c",
        13 => "d",
        14 => "e",
        _ => "f",
    };
    assert(text@ =~= seq![hex_char(digit as int)]);
    text
}

/// The digits of a value are those of the value without its last digit,
/// and then the last digit.
proof fn lemma_hex_text_split(value: nat, width: nat, tail: Seq<char>)
    requires
        width > 0,
    ensures
        hex_text(value, width) + tail == hex_text(value / 16, (width - 1) as nat) + (seq![
            hex_char((value % 16) as int),
        ] + tail),
{
    assert(hex_text(value, width) + tail =~= hex_text(value / 16, (width - 1) as nat) + (seq![
        hex_char((value % 16) as int),
    ] + tail));
}

/// Writes the last `width` hex digits of a value in lower case, most
/// significant first, with zeros in front where the value has fewer.
pub fn hex_lower(value: u128, width: usize) -> (text: String)
    ensures
        text@ == hex_text(value as nat, width as nat),
{
    let mut text = String::new();
    let mut rest: u128 = value;
    let mut i: usize = 0;
    assert(hex_text(rest as nat, width as nat) + text@ =~= hex_text(value as nat, width as nat));
    while i < width
        invariant
            i <= width,
            hex_text(value as nat, width as nat) == hex_text(rest as nat, (width - i) as nat)
                + text@,
        decreases width - i,
    {
        let digit: u8 = (rest % 16) as u8;
        proof {
            lemma_hex_text_split(rest as nat, (width - i) as nat, text@);
        }
        text = String::from_str(hex_digit(digit)).concat(text.as_str());
        rest = rest / 16;
        i += 1;
    }
    assert(hex_text(rest as nat, 0) + text@ =~= text@);
    text
}

impl TraceContext {
    /// The trace identifier as 32 lower-case hex digits.
    pub fn trace_id_hex(&self) -> (text: String)
        ensures
            text@ == trace_id_text(self.trace_id),
    {
        hex_lower(self.trace_id, 32)
    }

    /// The span identifier as 16 lower-case hex digits.
    pub fn span_id_hex(&self) -> (text: String)
        ensures
            text@ == span_id_text(self.span_id),
    {
        hex_lower(self.span_id as u128, 16)
    }
}

/// A hex text has exactly as many characters as were asked for.
pub proof fn lemma_hex_text_len(value: nat, width: nat)
    ensures
        hex_text(value, width).len() == width,
    decreases width,
{
    if width > 0 {
        lemma_hex_text_len(value / 16, (width - 1) as nat);
    }
}

/// Reading a hex text back gives the value again, up to the digits that
/// fit: the value modulo sixteen to the power of the width.
pub proof fn lemma_hex_text_round_trip(value: nat, width: nat)
    ensures
        hex_number(hex_text(value, width)) == value % hex_range(width),
    decreases width,
{
    if width > 0 {
        let front = hex_text(value / 16, (width - 1) as nat);
        let text = hex_text(value, width);
        lemma_hex_text_round_trip(value / 16, (width - 1) as nat);
        assert(text.drop_last() =~= front);
        assert(text.last() == hex_char((value % 16) as int));
        assert(hex_value(hex_char((value % 16) as int)) == value % 16);
        let r = hex_range((width - 1) as nat);
        lemma_hex_range_positive((width - 1) as nat);
        assert(hex_range(width) == 16 * r);
        lemma_breakdown(value as int, 16, r as int);
    }
}

/// Sixteen to any power is positive.
pub proof fn lemma_hex_range_positive(width: nat)
    ensures
        hex_range(width) > 0,
    decreases width,
{
    if width > 0 {
        lemma_hex_range_positive((width - 1) as nat);
    }
}

} // verus!
