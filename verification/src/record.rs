//! One logging event.

use vstd::prelude::*;
use crate::level::Level;

verus! {

/// One logging event: its severity, the call site where it is known, and the
/// message text, already formatted.
#[derive(Debug, PartialEq, Eq)]
pub struct Record {
    pub level: Level,
    pub file: Option<String>,
    pub line: Option<u32>,
    pub args: String,
}

/// What a [`Record`] holds, as mathematical values.
pub struct RecordView {
    pub level: Level,
    pub file: Option<Seq<char>>,
    pub line: Option<u32>,
    pub args: Seq<char>,
}

impl View for Record {
    type V = RecordView;

    open spec fn view(&self) -> RecordView {
        RecordView {
            level: self.level,
            file: match self.file {
                Some(name) => Some(name@),
                None => None,
            },
            line: self.line,
            args: self.args@,
        }
    }
}

impl Clone for Record {
    fn clone(&self) -> (copy: Record)
        ensures
            copy@ == self@,
    {
        let file = match &self.file {
            Some(name) => Some(name.clone()),
            None => None,
        };
        Record { level: self.level, file, line: self.line, args: self.args.clone() }
    }
}

impl Record {
    /// A record of severity `level` with message `args`, from line `line` of
    /// `file` where these are known.
    pub fn new(level: Level, file: Option<&str>, line: Option<u32>, args: &str) -> (record: Record)
        ensures
            record@ == (RecordView {
                level: level,
                file: match file {
                    Some(name) => Some(name@),
                    None => None,
                },
                line: line,
                args: args@,
            }),
    {
        let file = match file {
            Some(name) => Some(name.to_owned()),
            None => None,
        };
        Record { level, file, line, args: args.to_owned() }
    }
}

} // verus!
