//! The dispatcher: for each record it decides what each sink is to do.

use vstd::prelude::*;
use crate::color::{Color, ColorChoice};
use crate::config::{Config, ConfigView};
use crate::level::{Level, LevelFilter};
use crate::record::{Record, RecordView};
use crate::render::{
    file_line, level_tag, location_tag, message_line, write_args, write_level, write_location,
};

verus! {

/// One step that a sink is to perform.
#[derive(Debug, PartialEq, Eq)]
pub enum Action {
    /// Set the foreground colour; `None` is the sink's own colour.
    SetColor(Option<Color>),
    /// Write the text.
    Write(String),
    /// Return to the sink's own colours.
    Reset,
    /// Flush what was written.
    Flush,
}

/// An [`Action`], as mathematical values.
pub enum ActionView {
    SetColor(Option<Color>),
    Write(Seq<char>),
    Reset,
    Flush,
}

impl View for Action {
    type V = ActionView;

    open spec fn view(&self) -> ActionView {
        match self {
            Action::SetColor(color) => ActionView::SetColor(*color),
            Action::Write(text) => ActionView::Write(text@),
            Action::Reset => ActionView::Reset,
            Action::Flush => ActionView::Flush,
        }
    }
}

/// The views of `actions`, in order.
pub open spec fn action_views(actions: Seq<Action>) -> Seq<ActionView> {
    Seq::new(actions.len(), |i: int| actions[i]@)
}

/// What each sink is to do for one call of the logger: the steps in order.
/// A sink performs its steps until one fails, and the failure is dropped.
#[derive(Debug, PartialEq, Eq)]
pub struct Dispatch {
    pub term: Vec<Action>,
    pub file: Vec<Action>,
}

/// A [`Dispatch`], as mathematical values.
pub struct DispatchView {
    pub term: Seq<ActionView>,
    pub file: Seq<ActionView>,
}

impl View for Dispatch {
    type V = DispatchView;

    open spec fn view(&self) -> DispatchView {
        DispatchView { term: action_views(self.term@), file: action_views(self.file@) }
    }
}

/// The steps that write the level tag of `record` to the terminal: the tag
/// between a change of colour and a reset, or the bare tag where the policy
/// leaves colouring out; nothing where the threshold of the tag does not
/// admit the record.
pub open spec fn term_level_steps(config: ConfigView, record: RecordView) -> Seq<ActionView> {
    let tag = ActionView::Write(level_tag(config.level_padding, record.level));
    if !config.level.spec_admits(record.level) {
        Seq::empty()
    } else if config.write_log_enable_colors {
        seq![tag]
    } else {
        seq![ActionView::SetColor(config.color_of(record.level)), tag, ActionView::Reset]
    }
}

/// The step that writes the location of `record` to the terminal; nothing
/// where the threshold of the location does not admit the record.
pub open spec fn term_location_steps(config: ConfigView, record: RecordView) -> Seq<ActionView> {
    if config.location.spec_admits(record.level) {
        seq![ActionView::Write(location_tag(record.file, record.line))]
    } else {
        Seq::empty()
    }
}

/// All steps of the terminal for `record`: level tag, location, message line,
/// and a flush.
pub open spec fn term_steps(config: ConfigView, record: RecordView) -> Seq<ActionView> {
    term_level_steps(config, record) + term_location_steps(config, record) + seq![
        ActionView::Write(message_line(record.args)),
        ActionView::Flush,
    ]
}

/// The step of the file for `record`: its whole line in one write.
pub open spec fn file_steps(config: ConfigView, record: RecordView) -> Seq<ActionView> {
    seq![ActionView::Write(file_line(config, record))]
}

/// The logger: a threshold for all output, the rendering policy, and the
/// sinks it was set up with.
#[derive(Debug)]
pub struct TinyLogger {
    level: LevelFilter,
    config: Config,
    term: Option<ColorChoice>,
    file: Option<String>,
}

/// A [`TinyLogger`], as mathematical values.
pub struct TinyLoggerView {
    /// The threshold below which a record is dropped before any sink sees it.
    pub level: LevelFilter,
    pub config: ConfigView,
    /// The colour choice of the terminal sink, where there is one.
    pub term: Option<ColorChoice>,
    /// The path of the file sink, where there is one.
    pub file: Option<Seq<char>>,
}

impl TinyLoggerView {
    /// What the sinks are to do for `record`: nothing where the logger's
    /// threshold does not admit it, and nothing for a sink that is absent.
    pub open spec fn log(self, record: RecordView) -> DispatchView {
        let enabled = self.level.spec_admits(record.level);
        DispatchView {
            term: if enabled && self.term is Some {
                term_steps(self.config, record)
            } else {
                Seq::empty()
            },
            file: if enabled && self.file is Some {
                file_steps(self.config, record)
            } else {
                Seq::empty()
            },
        }
    }

    /// What the sinks are to do on a flush: each sink that is present
    /// flushes.
    pub open spec fn flush(self) -> DispatchView {
        DispatchView {
            term: if self.term is Some {
                seq![ActionView::Flush]
            } else {
                Seq::empty()
            },
            file: if self.file is Some {
                seq![ActionView::Flush]
            } else {
                Seq::empty()
            },
        }
    }
}

impl View for TinyLogger {
    type V = TinyLoggerView;

    closed spec fn view(&self) -> TinyLoggerView {
        TinyLoggerView {
            level: self.level,
            config: self.config@,
            term: self.term,
            file: match self.file {
                Some(path) => Some(path@),
                None => None,
            },
        }
    }
}

impl TinyLogger {
    /// A logger with threshold `level` and policy `config`, with a terminal
    /// sink where `term` is given and a file sink where `path` is.
    pub fn init(
        level: LevelFilter,
        config: Config,
        term: Option<ColorChoice>,
        path: Option<&str>,
    ) -> (logger: TinyLogger)
        ensures
            logger@ == (TinyLoggerView {
                level: level,
                config: config@,
                term: term,
                file: match path {
                    Some(name) => Some(name@),
                    None => None,
                },
            }),
    {
        let file = match path {
            Some(name) => Some(name.to_owned()),
            None => None,
        };
        TinyLogger { level, config, term, file }
    }

    /// The threshold below which a record is dropped.
    pub fn level(&self) -> (level: LevelFilter)
        ensures
            level == self@.level,
    {
        self.level
    }

    /// The rendering policy.
    pub fn config(&self) -> (config: &Config)
        ensures
            config@ == self@.config,
    {
        &self.config
    }

    /// The colour choice of the terminal sink, where there is one.
    pub fn term(&self) -> (term: Option<ColorChoice>)
        ensures
            term == self@.term,
    {
        self.term
    }

    /// The path of the file sink, where there is one.
    pub fn file(&self) -> (path: Option<&str>)
        ensures
            match path {
                Some(name) => self@.file == Some(name@),
                None => self@.file is None,
            },
    {
        match &self.file {
            Some(name) => Some(name.as_str()),
            None => None,
        }
    }

    /// Whether a record of severity `level` is logged at all.
    pub fn enabled(&self, level: Level) -> (yes: bool)
        ensures
            yes == self@.level.spec_admits(level),
    {
        self.level.admits(level)
    }

    /// Appends the steps of the terminal for `record` to `stream`.
    pub fn try_log_term(&self, record: &Record, stream: &mut Vec<Action>)
        ensures
            action_views(final(stream)@) == action_views(old(stream)@) + term_steps(
                self@.config,
                record@,
            ),
    {
        let color = self.config.level_color(record.level);

        if self.config.level().admits(record.level) {
            if !self.config.write_log_enable_colors() {
                stream.push(Action::SetColor(color));
            }
            let mut tag = String::new();
            write_level(record, &mut tag, &self.config);
            stream.push(Action::Write(tag));

            if !self.config.write_log_enable_colors() {
                stream.push(Action::Reset);
            }
        }
        if self.config.location().admits(record.level) {
            let mut location = String::new();
            write_location(record, &mut location);
            stream.push(Action::Write(location));
        }
        let mut message = String::new();
        write_args(record, &mut message);
        stream.push(Action::Write(message));

        stream.push(Action::Flush);
        assert(action_views(stream@) =~= action_views(old(stream)@) + term_steps(
            self@.config,
            record@,
        ));
    }

    /// Appends the line of `record` for the file to `write`.
    pub fn try_log_file(&self, record: &Record, write: &mut String)
        ensures
            final(write)@ == old(write)@ + file_line(self@.config, record@),
    {
        if self.config.level().admits(record.level) {
            write_level(record, write, &self.config);
        }
        if self.config.location().admits(record.level) {
            write_location(record, write);
        }
        write_args(record, write);
        assert(write@ =~= old(write)@ + file_line(self@.config, record@));
    }

    /// What the sinks are to do for `record`.
    pub fn log(&self, record: &Record) -> (dispatch: Dispatch)
        ensures
            dispatch@ == self@.log(record@),
    {
        let mut term: Vec<Action> = Vec::new();
        let mut file: Vec<Action> = Vec::new();
        if self.enabled(record.level) {
            if self.term.is_some() {
                self.try_log_term(record, &mut term);
            }
            if self.file.is_some() {
                let mut line = String::new();
                self.try_log_file(record, &mut line);
                file.push(Action::Write(line));
            }
        }
        let dispatch = Dispatch { term, file };
        assert(dispatch@.term =~= self@.log(record@).term);
        assert(dispatch@.file =~= self@.log(record@).file);
        dispatch
    }

    /// What the sinks are to do on a flush.
    pub fn flush(&self) -> (dispatch: Dispatch)
        ensures
            dispatch@ == self@.flush(),
    {
        let mut term: Vec<Action> = Vec::new();
        let mut file: Vec<Action> = Vec::new();
        if self.term.is_some() {
            term.push(Action::Flush);
        }
        if self.file.is_some() {
            file.push(Action::Flush);
        }
        let dispatch = Dispatch { term, file };
        assert(dispatch@.term =~= self@.flush().term);
        assert(dispatch@.file =~= self@.flush().file);
        dispatch
    }
}

/// On the terminal the level tag and the location are due under the same
/// rule as in the file: each exactly where its own threshold admits the
/// record.
pub proof fn lemma_term_segments(config: ConfigView, record: RecordView)
    ensures
        term_level_steps(config, record).len() > 0 <==> config.level != LevelFilter::Off
            && record.level.spec_ordinal() <= config.level.spec_ordinal(),
        term_location_steps(config, record).len() > 0 <==> config.location != LevelFilter::Off
            && record.level.spec_ordinal() <= config.location.spec_ordinal(),
{
}

/// With the threshold of the location at `Off`, the terminal gets no
/// location for any record: the steps of the level tag, where that is due,
/// then the message line and the flush.
pub proof fn lemma_term_location_off(config: ConfigView, record: RecordView)
    requires
        config.location == LevelFilter::Off,
    ensures
        term_steps(config, record) == term_level_steps(config, record) + seq![
            ActionView::Write(message_line(record.args)),
            ActionView::Flush,
        ],
{
    assert(term_steps(config, record) =~= term_level_steps(config, record) + seq![
        ActionView::Write(message_line(record.args)),
        ActionView::Flush,
    ]);
}

/// A record that the logger's threshold does not admit reaches no sink, and
/// an absent sink gets nothing.
pub proof fn lemma_log_gate(logger: TinyLoggerView, record: RecordView)
    ensures
        !logger.level.spec_admits(record.level) ==> logger.log(record) == (DispatchView {
            term: Seq::empty(),
            file: Seq::empty(),
        }),
        logger.term is None ==> logger.log(record).term == Seq::<ActionView>::empty(),
        logger.file is None ==> logger.log(record).file == Seq::<ActionView>::empty(),
{
}

} // verus!
