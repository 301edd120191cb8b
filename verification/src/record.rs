//! A log record as plain values.

use crate::level::Level;
use crate::value::KeyValue;
use crate::value::KeyValueView;
use crate::value::key_values_view;
use vstd::prelude::*;

verus! {

/// One log call: its level, the provider it names, its formatted message,
/// its structured key-values and where in the source it was made.
///
/// `key_values_json` is the key-values as the text of one JSON object, where
/// the caller has it; it is read only in JSON payload mode.
#[derive(Clone, Debug, PartialEq, Eq)]
pub struct Record {
    pub level: Level,
    pub target: String,
    pub payload: String,
    pub key_values: Vec<KeyValue>,
    pub key_values_json: Option<String>,
    pub module: Option<String>,
    pub file: Option<String>,
    pub line: Option<u32>,
}

/// The mathematical form of a [`Record`].
pub struct RecordView {
    pub level: Level,
    pub target: Seq<char>,
    pub payload: Seq<char>,
    pub key_values: Seq<KeyValueView>,
    pub key_values_json: Option<Seq<char>>,
    pub module: Option<Seq<char>>,
    pub file: Option<Seq<char>>,
    pub line: Option<u32>,
}

/// The view of an optional text.
pub open spec fn text_view(text: Option<String>) -> Option<Seq<char>> {
    match text {
        Some(t) => Some(t@),
        None => None,
    }
}

impl View for Record {
    type V = RecordView;

    open spec fn view(&self) -> RecordView {
        RecordView {
            level: self.level,
            target: self.target@,
            payload: self.payload@,
            key_values: key_values_view(self.key_values@),
            key_values_json: text_view(self.key_values_json),
            module: text_view(self.module),
            file: text_view(self.file),
            line: self.line,
        }
    }
}

impl Record {
    /// A record with a level, a target and a message, and nothing else.
    pub fn new(level: Level, target: &str, payload: &str) -> (record: Record)
        ensures
            record@ == (RecordView {
                level,
                target: target@,
                payload: payload@,
                key_values: Seq::empty(),
                key_values_json: None,
                module: None,
                file: None,
                line: None,
            }),
    {
        let record = Record {
            level,
            target: target.to_owned(),
            payload: payload.to_owned(),
            key_values: Vec::new(),
            key_values_json: None,
            module: None,
            file: None,
            line: None,
        };
        assert(record@.key_values =~= Seq::empty());
        record
    }
}

} // verus!
