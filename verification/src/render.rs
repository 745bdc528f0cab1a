//! The text of one record: the level tag, the source location and the
//! message line, each appended to a buffer.

use vstd::prelude::*;
use crate::config::{Config, ConfigView, LevelPadding};
use crate::level::{Level, LevelFilter};
use crate::record::{Record, RecordView};

verus! {

/// The width to which a padded level name is filled.
pub const LEVEL_WIDTH: usize = 5;

/// `count` spaces.
pub open spec fn spaces(count: nat) -> Seq<char> {
    Seq::new(count, |i: int| ' ')
}

/// The number of spaces that fill `name` up to [`LEVEL_WIDTH`] columns.
pub open spec fn fill_of(name: Seq<char>) -> nat {
    if name.len() < LEVEL_WIDTH {
        (LEVEL_WIDTH - name.len()) as nat
    } else {
        0
    }
}

/// A level name, aligned as `padding` says.
pub open spec fn level_token(padding: LevelPadding, name: Seq<char>) -> Seq<char> {
    match padding {
        LevelPadding::Left => spaces(fill_of(name)) + name,
        LevelPadding::Right => name + spaces(fill_of(name)),
        LevelPadding::Off => name,
    }
}

/// The level tag: the aligned name in square brackets, and a space.
pub open spec fn level_tag(padding: LevelPadding, level: Level) -> Seq<char> {
    "["@ + level_token(padding, level.name()) + "] "@
}

/// The decimal digit of value `d`.
pub open spec fn digit(d: nat) -> char
    recommends
        d < 10,
{
    "0123456789"@[d as int]
}

/// `n` in decimal, without sign and without leading zeros.
pub open spec fn decimal(n: nat) -> Seq<char>
    decreases n,
{
    if n < 10 {
        seq![digit(n)]
    } else {
        decimal(n / 10).push(digit(n % 10))
    }
}

/// The file name of a call site, or a placeholder where it is not known.
pub open spec fn file_text(file: Option<Seq<char>>) -> Seq<char> {
    match file {
        Some(name) => name,
        None => "<unknown>"@,
    }
}

/// The line number of a call site, or a placeholder where it is not known.
pub open spec fn line_text(line: Option<u32>) -> Seq<char> {
    match line {
        Some(number) => decimal(number as nat),
        None => "<unknown>"@,
    }
}

/// The location tag: file and line in square brackets, and a space.
pub open spec fn location_tag(file: Option<Seq<char>>, line: Option<u32>) -> Seq<char> {
    "["@ + file_text(file) + ":"@ + line_text(line) + "] "@
}

/// The message, followed by one line terminator.
pub open spec fn message_line(args: Seq<char>) -> Seq<char> {
    args + "\n"@
}

/// The level tag of `record` where the threshold of the tag admits it, and
/// nothing where it does not.
pub open spec fn level_segment(config: ConfigView, record: RecordView) -> Seq<char> {
    if config.level.spec_admits(record.level) {
        level_tag(config.level_padding, record.level)
    } else {
        Seq::empty()
    }
}

/// The location tag of `record` where the threshold of the location admits
/// it, and nothing where it does not.
pub open spec fn location_segment(config: ConfigView, record: RecordView) -> Seq<char> {
    if config.location.spec_admits(record.level) {
        location_tag(record.file, record.line)
    } else {
        Seq::empty()
    }
}

/// The whole line of `record` as the file sink gets it.
pub open spec fn file_line(config: ConfigView, record: RecordView) -> Seq<char> {
    level_segment(config, record) + location_segment(config, record) + message_line(record.args)
}

/// Appends `count` spaces to `write`.
pub fn write_spaces(count: usize, write: &mut String)
    ensures
        final(write)@ == old(write)@ + spaces(count as nat),
{
    let mut done: usize = 0;
    while done < count
        invariant
            done <= count,
            write@ == old(write)@ + spaces(done as nat),
        decreases count - done,
    {
        proof {
            reveal_strlit(" ");
        }
        write.append(" ");
        done += 1;
        assert(write@ =~= old(write)@ + spaces(done as nat));
    }
}

/// Appends `n` in decimal to `write`.
pub fn write_decimal(n: u32, write: &mut String)
    ensures
        final(write)@ == old(write)@ + decimal(n as nat),
    decreases n,
{
    if n >= 10 {
        write_decimal(n / 10, write);
    }
    let d: usize = (n % 10) as usize;
    proof {
        reveal_strlit("0123456789");
    }
    let digits = "0123456789";
    write.append(digits.substring_ascii(d, d + 1));
    assert(write@ =~= old(write)@ + decimal(n as nat));
}

/// Appends the level tag of `record` to `write`, aligned as `config` says.
pub fn write_level(record: &Record, write: &mut String, config: &Config)
    ensures
        final(write)@ == old(write)@ + level_tag(config@.level_padding, record@.level),
{
    let name = record.level.as_str();
    let width: usize = name.unicode_len();
    let fill: usize = if width < LEVEL_WIDTH {
        LEVEL_WIDTH - width
    } else {
        0
    };
    write.append("[");
    match config.level_padding() {
        LevelPadding::Left => {
            write_spaces(fill, write);
            write.append(name);
        },
        LevelPadding::Right => {
            write.append(name);
            write_spaces(fill, write);
        },
        LevelPadding::Off => {
            write.append(name);
        },
    }
    write.append("] ");
    assert(write@ =~= old(write)@ + level_tag(config@.level_padding, record@.level));
}

/// Appends the location tag of `record` to `write`.
pub fn write_location(record: &Record, write: &mut String)
    ensures
        final(write)@ == old(write)@ + location_tag(record@.file, record@.line),
{
    write.append("[");
    match &record.file {
        Some(name) => write.append(name.as_str()),
        None => write.append("<unknown>"),
    }
    write.append(":");
    match record.line {
        Some(number) => write_decimal(number, write),
        None => write.append("<unknown>"),
    }
    write.append("] ");
    assert(write@ =~= old(write)@ + location_tag(record@.file, record@.line));
}

/// Appends the message of `record` and a line terminator to `write`.
pub fn write_args(record: &Record, write: &mut String)
    ensures
        final(write)@ == old(write)@ + message_line(record@.args),
{
    write.append(record.args.as_str());
    write.append("\n");
    assert(write@ =~= old(write)@ + message_line(record@.args));
}

/// The level tag is part of the line exactly where its threshold is not
/// `Off` and the record is at least as severe as the threshold; it is then
/// the whole tag, and nothing otherwise.
pub proof fn lemma_level_segment(config: ConfigView, record: RecordView)
    ensures
        level_segment(config, record).len() > 0 <==> config.level != LevelFilter::Off
            && record.level.spec_ordinal() <= config.level.spec_ordinal(),
        level_segment(config, record).len() > 0 ==> level_segment(config, record) == level_tag(
            config.level_padding,
            record.level,
        ),
{
    reveal_strlit("[");
    assert(level_tag(config.level_padding, record.level).len() >= 1);
}

/// The location tag is part of the line exactly where its threshold is not
/// `Off` and the record is at least as severe as the threshold; it is then
/// the whole tag, and nothing otherwise.
pub proof fn lemma_location_segment(config: ConfigView, record: RecordView)
    ensures
        location_segment(config, record).len() > 0 <==> config.location != LevelFilter::Off
            && record.level.spec_ordinal() <= config.location.spec_ordinal(),
        location_segment(config, record).len() > 0 ==> location_segment(config, record)
            == location_tag(record.file, record.line),
{
    reveal_strlit("[");
    assert(location_tag(record.file, record.line).len() >= 1);
}

/// No level name is longer than the width to which names are padded.
pub proof fn lemma_name_fits(level: Level)
    ensures
        1 <= level.name().len() <= LEVEL_WIDTH,
{
    reveal_strlit("ERROR");
    reveal_strlit("WARN");
    reveal_strlit("INFO");
    reveal_strlit("DEBUG");
    reveal_strlit("TRACE");
}

/// Padding of the level name, for every level: padded on the left, the name
/// stands at the right end of five columns, after spaces only; padded on the
/// right, it stands at the left end, before spaces only; unpadded, it stands
/// alone.
pub proof fn lemma_level_token(padding: LevelPadding, level: Level)
    ensures
        padding != LevelPadding::Off ==> level_token(padding, level.name()).len() == LEVEL_WIDTH,
        padding == LevelPadding::Left ==> {
            let token = level_token(padding, level.name());
            let fill = LEVEL_WIDTH - level.name().len();
            &&& token.subrange(fill, LEVEL_WIDTH as int) == level.name()
            &&& forall|i: int| 0 <= i < fill ==> token[i] == ' '
        },
        padding == LevelPadding::Right ==> {
            let token = level_token(padding, level.name());
            let width = level.name().len() as int;
            &&& token.subrange(0, width) == level.name()
            &&& forall|i: int| width <= i < LEVEL_WIDTH ==> token[i] == ' '
        },
        padding == LevelPadding::Off ==> level_token(padding, level.name()) == level.name(),
{
    lemma_name_fits(level);
    let name = level.name();
    let token = level_token(padding, name);
    match padding {
        LevelPadding::Left => {
            assert(token.subrange(LEVEL_WIDTH - name.len(), LEVEL_WIDTH as int) =~= name);
        },
        LevelPadding::Right => {
            assert(token.subrange(0, name.len() as int) =~= name);
        },
        LevelPadding::Off => {},
    }
}

/// With the threshold of the location at `Off`, no record has a location
/// tag, whatever its level: its line is the level tag, where that is due,
/// and the message.
pub proof fn lemma_location_off(config: ConfigView, record: RecordView)
    requires
        config.location == LevelFilter::Off,
    ensures
        location_segment(config, record) == Seq::<char>::empty(),
        file_line(config, record) == level_segment(config, record) + message_line(record.args),
{
    assert(file_line(config, record) =~= level_segment(config, record) + message_line(
        record.args,
    ));
}

/// The line of a record ends with the message and one line terminator,
/// whatever stands before them.
pub proof fn lemma_file_line_ends(config: ConfigView, record: RecordView)
    ensures
        file_line(config, record).len() >= record.args.len() + 1,
        file_line(config, record).last() == '\n',
        file_line(config, record).subrange(
            file_line(config, record).len() - record.args.len() - 1,
            file_line(config, record).len() - 1,
        ) == record.args,
{
    reveal_strlit("\n");
    let line = file_line(config, record);
    assert(line.subrange(line.len() - record.args.len() - 1, line.len() - 1) =~= record.args);
}

} // verus!
