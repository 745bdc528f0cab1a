//! The rendering policy and its builder.

use vstd::prelude::*;
use crate::color::Color;
use crate::level::{Level, LevelFilter};

verus! {

/// How the bracketed level tag is aligned.
#[derive(Clone, Copy, Debug, PartialEq, Eq, Structural)]
pub enum LevelPadding {
    /// Spaces on the left: the name is right-aligned in five columns.
    Left,
    /// Spaces on the right: the name is left-aligned in five columns.
    Right,
    /// No padding.
    Off,
}

/// The rendering policy of a logger. It is made by a [`ConfigBuilder`] and
/// does not change afterwards.
#[derive(Debug, PartialEq, Eq)]
pub struct Config {
    pub(crate) level: LevelFilter,
    pub(crate) level_padding: LevelPadding,
    pub(crate) location: LevelFilter,
    pub(crate) filter_ignore: Vec<String>,
    pub(crate) level_color: [Option<Color>; 6],
    pub(crate) write_log_enable_colors: bool,
}

/// What a [`Config`] holds, as mathematical values. The operations of the
/// builder are functions on this type.
pub struct ConfigView {
    /// Threshold of the level tag.
    pub level: LevelFilter,
    pub level_padding: LevelPadding,
    /// Threshold of the source location.
    pub location: LevelFilter,
    /// Patterns of logger names to ignore, in the order in which they were added.
    pub filter_ignore: Seq<Seq<char>>,
    /// One colour per ordinal: slot 0 is the default, slots 1 to 5 the levels.
    pub level_color: Seq<Option<Color>>,
    /// When set, no colour is applied to the level tag.
    pub write_log_enable_colors: bool,
}

/// The views of the strings of `patterns`, in order.
pub open spec fn pattern_views(patterns: Seq<String>) -> Seq<Seq<char>> {
    Seq::new(patterns.len(), |i: int| patterns[i]@)
}

impl ConfigView {
    /// The policy a builder starts from.
    pub open spec fn initial() -> ConfigView {
        ConfigView {
            level: LevelFilter::Error,
            level_padding: LevelPadding::Off,
            location: LevelFilter::Trace,
            filter_ignore: Seq::empty(),
            level_color: seq![
                None,
                Some(Color::Red),
                Some(Color::Yellow),
                Some(Color::Blue),
                Some(Color::Cyan),
                Some(Color::White),
            ],
            write_log_enable_colors: false,
        }
    }

    /// The colour table has one slot per ordinal.
    pub open spec fn wf(self) -> bool {
        self.level_color.len() == 6
    }

    /// The colour of the tag of `level`.
    pub open spec fn color_of(self, level: Level) -> Option<Color> {
        self.level_color[level.spec_ordinal() as int]
    }

    /// What one call of `build` does to a draft `self`: it leaves the draft
    /// as `after` and hands out `config`, both equal to the draft.
    pub open spec fn builds(self, after: ConfigView, config: ConfigView) -> bool {
        config == self && after == self
    }

    /// The policy with the threshold of the level tag set to `level`.
    pub open spec fn set_max_level(self, level: LevelFilter) -> ConfigView {
        ConfigView { level: level, ..self }
    }

    /// The policy with the threshold of the location set to `location`.
    pub open spec fn set_location_level(self, location: LevelFilter) -> ConfigView {
        ConfigView { location: location, ..self }
    }

    /// The policy with the alignment of the level tag set to `padding`.
    pub open spec fn set_level_padding(self, padding: LevelPadding) -> ConfigView {
        ConfigView { level_padding: padding, ..self }
    }

    /// The policy with the slot of `level` in the colour table set to
    /// `color`, and every other slot as it was.
    pub open spec fn set_level_color(self, level: Level, color: Option<Color>) -> ConfigView {
        ConfigView {
            level_color: self.level_color.update(level.spec_ordinal() as int, color),
            ..self
        }
    }

    /// The policy with `pattern` added after the patterns it has.
    pub open spec fn add_filter_ignore(self, pattern: Seq<char>) -> ConfigView {
        ConfigView { filter_ignore: self.filter_ignore.push(pattern), ..self }
    }

    /// The policy without any pattern.
    pub open spec fn clear_filter_ignore(self) -> ConfigView {
        ConfigView { filter_ignore: Seq::empty(), ..self }
    }
}

impl View for Config {
    type V = ConfigView;

    closed spec fn view(&self) -> ConfigView {
        ConfigView {
            level: self.level,
            level_padding: self.level_padding,
            location: self.location,
            filter_ignore: pattern_views(self.filter_ignore@),
            level_color: self.level_color@,
            write_log_enable_colors: self.write_log_enable_colors,
        }
    }
}

impl Default for Config {
    fn default() -> (config: Config)
        ensures
            config@ == ConfigView::initial(),
    {
        let config = Config {
            level: LevelFilter::Error,
            level_padding: LevelPadding::Off,
            location: LevelFilter::Trace,
            filter_ignore: Vec::new(),
            write_log_enable_colors: false,
            level_color: [
                None,
                Some(Color::Red),
                Some(Color::Yellow),
                Some(Color::Blue),
                Some(Color::Cyan),
                Some(Color::White),
            ],
        };
        assert(config@.filter_ignore =~= Seq::empty());
        assert(config@.level_color =~= ConfigView::initial().level_color);
        config
    }
}

impl Clone for Config {
    fn clone(&self) -> (copy: Config)
        ensures
            copy@ == self@,
    {
        let mut patterns: Vec<String> = Vec::new();
        let mut i: usize = 0;
        while i < self.filter_ignore.len()
            invariant
                i <= self.filter_ignore.len(),
                patterns.len() == i,
                forall|j: int| 0 <= j < i ==> patterns[j]@ == self.filter_ignore[j]@,
            decreases self.filter_ignore.len() - i,
        {
            patterns.push(self.filter_ignore[i].clone());
            i += 1;
        }
        let copy = Config {
            level: self.level,
            level_padding: self.level_padding,
            location: self.location,
            filter_ignore: patterns,
            level_color: self.level_color,
            write_log_enable_colors: self.write_log_enable_colors,
        };
        assert(copy@.filter_ignore =~= self@.filter_ignore);
        copy
    }
}

impl Config {
    /// The threshold of the level tag.
    pub fn level(&self) -> (level: LevelFilter)
        ensures
            level == self@.level,
    {
        self.level
    }

    /// The alignment of the level tag.
    pub fn level_padding(&self) -> (padding: LevelPadding)
        ensures
            padding == self@.level_padding,
    {
        self.level_padding
    }

    /// The threshold of the source location.
    pub fn location(&self) -> (location: LevelFilter)
        ensures
            location == self@.location,
    {
        self.location
    }

    /// The colour of the tag of `level`.
    pub fn level_color(&self, level: Level) -> (color: Option<Color>)
        ensures
            color == self@.color_of(level),
    {
        self.level_color[level.ordinal()]
    }

    /// Whether colouring of the level tag is left out.
    pub fn write_log_enable_colors(&self) -> (flag: bool)
        ensures
            flag == self@.write_log_enable_colors,
    {
        self.write_log_enable_colors
    }

    /// The patterns of logger names to ignore, in the order in which they
    /// were added.
    pub fn filter_ignore(&self) -> (patterns: &Vec<String>)
        ensures
            pattern_views(patterns@) == self@.filter_ignore,
    {
        &self.filter_ignore
    }

    /// The colour table of every policy has six slots.
    pub proof fn lemma_wf(&self)
        ensures
            self@.wf(),
    {
    }
}

/// A draft of a [`Config`]: it starts from the defaults, takes changes one by
/// one, and hands out copies of its current state.
#[derive(Debug)]
#[non_exhaustive]
pub struct ConfigBuilder(Config);

impl View for ConfigBuilder {
    type V = ConfigView;

    closed spec fn view(&self) -> ConfigView {
        self.0@
    }
}

impl Default for ConfigBuilder {
    fn default() -> (builder: ConfigBuilder)
        ensures
            builder@ == ConfigView::initial(),
    {
        ConfigBuilder(Config::default())
    }
}

impl Clone for ConfigBuilder {
    fn clone(&self) -> (copy: ConfigBuilder)
        ensures
            copy@ == self@,
    {
        ConfigBuilder(self.0.clone())
    }
}

impl ConfigBuilder {
    /// Sets the threshold of the level tag.
    pub fn set_max_level(&mut self, level: LevelFilter) -> (builder: &mut ConfigBuilder)
        ensures
            builder@ == old(self)@.set_max_level(level),
            *final(self) == *final(builder),
    {
        self.0.level = level;
        self
    }

    /// Sets the threshold of the source location.
    pub fn set_location_level(&mut self, location: LevelFilter) -> (builder: &mut ConfigBuilder)
        ensures
            builder@ == old(self)@.set_location_level(location),
            *final(self) == *final(builder),
    {
        self.0.location = location;
        self
    }

    /// Sets the alignment of the level tag.
    pub fn set_level_padding(&mut self, padding: LevelPadding) -> (builder: &mut ConfigBuilder)
        ensures
            builder@ == old(self)@.set_level_padding(padding),
            *final(self) == *final(builder),
    {
        self.0.level_padding = padding;
        self
    }

    /// Sets the colour of the tag of `level`; `None` leaves the tag in the
    /// terminal's own foreground colour.
    pub fn set_level_color(
        &mut self,
        level: Level,
        color: Option<Color>,
    ) -> (builder: &mut ConfigBuilder)
        ensures
            builder@ == old(self)@.set_level_color(level, color),
            *final(self) == *final(builder),
    {
        self.0.level_color[level.ordinal()] = color;
        self
    }

    /// Adds `filter_ignore` at the end of the patterns to ignore.
    pub fn add_filter_ignore_str(
        &mut self,
        filter_ignore: &'static str,
    ) -> (builder: &mut ConfigBuilder)
        ensures
            builder@ == old(self)@.add_filter_ignore(filter_ignore@),
            *final(self) == *final(builder),
    {
        self.0.filter_ignore.push(filter_ignore.to_owned());
        assert(self.0@.filter_ignore =~= old(self)@.filter_ignore.push(filter_ignore@));
        self
    }

    /// Adds `filter_ignore` at the end of the patterns to ignore.
    pub fn add_filter_ignore(&mut self, filter_ignore: String) -> (builder: &mut ConfigBuilder)
        ensures
            builder@ == old(self)@.add_filter_ignore(filter_ignore@),
            *final(self) == *final(builder),
    {
        self.0.filter_ignore.push(filter_ignore);
        assert(self.0@.filter_ignore =~= old(self)@.filter_ignore.push(filter_ignore@));
        self
    }

    /// Empties the patterns to ignore.
    pub fn clear_filter_ignore(&mut self) -> (builder: &mut ConfigBuilder)
        ensures
            builder@ == old(self)@.clear_filter_ignore(),
            *final(self) == *final(builder),
    {
        self.0.filter_ignore.clear();
        assert(self.0@.filter_ignore =~= Seq::empty());
        self
    }

    /// A copy of the current state of the draft. The draft stays as it is,
    /// and later changes to it do not reach the copy.
    pub fn build(&mut self) -> (config: Config)
        ensures
            old(self)@.builds(final(self)@, config@),
    {
        self.0.clone()
    }

    /// The colour table of every draft has six slots.
    pub proof fn lemma_wf(&self)
        ensures
            self@.wf(),
    {
        self.0.lemma_wf();
    }
}

/// Building is idempotent: two copies built one after the other from a draft
/// that was not changed in between are equal, and the draft is still what it
/// was.
pub proof fn lemma_build_twice(
    draft: ConfigView,
    kept: ConfigView,
    first: ConfigView,
    last: ConfigView,
    second: ConfigView,
)
    requires
        draft.builds(kept, first),
        kept.builds(last, second),
    ensures
        first == second,
        last == draft,
{
}

/// Patterns are kept in the order of the calls, and a pattern added twice is
/// kept twice: after adding `first` and then `second`, the list is the old
/// one followed by these two.
pub proof fn lemma_filter_ignore_appends(config: ConfigView, first: Seq<char>, second: Seq<char>)
    ensures
        config.add_filter_ignore(first).add_filter_ignore(second).filter_ignore
            == config.filter_ignore + seq![first, second],
        config.add_filter_ignore(first).add_filter_ignore(first).filter_ignore.len()
            == config.filter_ignore.len() + 2,
{
    assert(config.add_filter_ignore(first).add_filter_ignore(second).filter_ignore
        =~= config.filter_ignore + seq![first, second]);
}

/// Clearing gives the empty list whatever was added before, and changes
/// nothing else.
pub proof fn lemma_filter_ignore_clears(config: ConfigView)
    ensures
        config.clear_filter_ignore().filter_ignore == Seq::<Seq<char>>::empty(),
        config.clear_filter_ignore() == (ConfigView { filter_ignore: Seq::empty(), ..config }),
        config.clear_filter_ignore().clear_filter_ignore() == config.clear_filter_ignore(),
{
}

/// Setting a colour keeps the table at six slots and changes the slot of
/// that level alone.
pub proof fn lemma_set_level_color(
    config: ConfigView,
    level: Level,
    color: Option<Color>,
    other: Level,
)
    requires
        config.wf(),
    ensures
        config.set_level_color(level, color).wf(),
        config.set_level_color(level, color).color_of(level) == color,
        other != level ==> config.set_level_color(level, color).color_of(other)
            == config.color_of(other),
{
}

} // verus!
