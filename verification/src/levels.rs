//! Severity levels, the auto-open threshold filter, and the per-level filter
//! chips, with their ordering, display labels and display colors.
use vstd::prelude::*;

verus! {

/// A log severity level, ordered from least urgent (`Trace`) to most urgent
/// (`Error`).
#[derive(Clone, Copy, Debug, PartialEq, Eq, Structural)]
pub enum DebugLogLevel {
    Trace,
    Debug,
    Info,
    Warn,
    Error,
}

/// A severity threshold for the auto-open feature: either a concrete level or
/// `Off`, which no event satisfies.
#[derive(Clone, Copy, Debug, PartialEq, Eq, Structural)]
pub enum LevelFilter {
    Off,
    Error,
    Warn,
    Info,
    Debug,
    Trace,
}

/// A filter chip control, bound one-to-one to a severity level. Clicking the
/// chip toggles the visibility of the lines tagged with exactly that level.
#[derive(Clone, Copy, Debug, PartialEq, Eq, Structural)]
pub enum LevelFilterChip {
    Error,
    Warn,
    Info,
    Debug,
    Trace,
}

/// A display color as an opaque red/green/blue triple; the toolkit boundary
/// turns it into whatever color type the renderer uses.
#[derive(Clone, Copy, Debug, PartialEq, Eq, Structural)]
pub struct Rgb {
    pub red: u8,
    pub green: u8,
    pub blue: u8,
}

/// Urgency rank of a level: `Trace` is 0, `Error` is 4. The total order on
/// levels is the order of their ranks.
pub open spec fn spec_rank(level: DebugLogLevel) -> int {
    match level {
        DebugLogLevel::Trace => 0,
        DebugLogLevel::Debug => 1,
        DebugLogLevel::Info => 2,
        DebugLogLevel::Warn => 3,
        DebugLogLevel::Error => 4,
    }
}

/// The level a threshold stands for, or `None` for `Off`.
pub open spec fn spec_filter_level(filter: LevelFilter) -> Option<DebugLogLevel> {
    match filter {
        LevelFilter::Off => None,
        LevelFilter::Error => Some(DebugLogLevel::Error),
        LevelFilter::Warn => Some(DebugLogLevel::Warn),
        LevelFilter::Info => Some(DebugLogLevel::Info),
        LevelFilter::Debug => Some(DebugLogLevel::Debug),
        LevelFilter::Trace => Some(DebugLogLevel::Trace),
    }
}

/// Whether an event of severity `level` passes the threshold `filter`:
/// false for `Off`, otherwise true exactly when `level` is at least as
/// severe as the threshold's level.
pub open spec fn spec_passes_filter(level: DebugLogLevel, filter: LevelFilter) -> bool {
    match spec_filter_level(filter) {
        None => false,
        Some(bound) => spec_rank(level) >= spec_rank(bound),
    }
}

impl DebugLogLevel {
    /// Urgency rank, as an executable value.
    pub fn rank(self) -> (r: u8)
        ensures
            r as int == spec_rank(self),
    {
        match self {
            DebugLogLevel::Trace => 0,
            DebugLogLevel::Debug => 1,
            DebugLogLevel::Info => 2,
            DebugLogLevel::Warn => 3,
            DebugLogLevel::Error => 4,
        }
    }

    /// Whether `self` is at least as severe as `other`.
    pub fn at_least_as_severe(self, other: DebugLogLevel) -> (r: bool)
        ensures
            r == (spec_rank(self) >= spec_rank(other)),
    {
        self.rank() >= other.rank()
    }

    /// Whether an event of this severity passes the given auto-open
    /// threshold.
    pub fn passes_filter(self, filter: LevelFilter) -> (r: bool)
        ensures
            r == spec_passes_filter(self, filter),
    {
        match DebugLogLevel::try_from_filter(filter) {
            Some(bound) => self.at_least_as_severe(bound),
            None => false,
        }
    }

    /// The level a threshold stands for; `None` when the threshold is `Off`,
    /// which no concrete level can represent.
    pub fn try_from_filter(filter: LevelFilter) -> (r: Option<DebugLogLevel>)
        ensures
            r == spec_filter_level(filter),
    {
        match filter {
            LevelFilter::Off => None,
            LevelFilter::Error => Some(DebugLogLevel::Error),
            LevelFilter::Warn => Some(DebugLogLevel::Warn),
            LevelFilter::Info => Some(DebugLogLevel::Info),
            LevelFilter::Debug => Some(DebugLogLevel::Debug),
            LevelFilter::Trace => Some(DebugLogLevel::Trace),
        }
    }

    /// Human label with an initial capital, shown beside the auto-open
    /// checkbox.
    pub fn title_case(&self) -> (r: String)
        ensures
            r@ == spec_title_case(*self),
    {
        match self {
            DebugLogLevel::Trace => "Trace".to_owned(),
            DebugLogLevel::Debug => "Debug".to_owned(),
            DebugLogLevel::Info => "Info".to_owned(),
            DebugLogLevel::Warn => "Warn".to_owned(),
            DebugLogLevel::Error => "Error".to_owned(),
        }
    }

    /// All-capitals name, used for the badge inside a rendered log line.
    pub fn upper_case(&self) -> (r: String)
        ensures
            r@ == spec_upper_case(*self),
    {
        match self {
            DebugLogLevel::Trace => "TRACE".to_owned(),
            DebugLogLevel::Debug => "DEBUG".to_owned(),
            DebugLogLevel::Info => "INFO".to_owned(),
            DebugLogLevel::Warn => "WARN".to_owned(),
            DebugLogLevel::Error => "ERROR".to_owned(),
        }
    }

    /// Single-letter badge shown on the level's filter chip.
    pub fn letter(&self) -> (r: String)
        ensures
            r@ == spec_letter(*self),
    {
        match self {
            DebugLogLevel::Trace => "T".to_owned(),
            DebugLogLevel::Debug => "D".to_owned(),
            DebugLogLevel::Info => "I".to_owned(),
            DebugLogLevel::Warn => "W".to_owned(),
            DebugLogLevel::Error => "E".to_owned(),
        }
    }

    /// Display color of the level.
    pub fn color(&self) -> (r: Rgb)
        ensures
            r == spec_color(*self),
    {
        match self {
            DebugLogLevel::Trace => Rgb { red: 186, green: 85, blue: 211 },
            DebugLogLevel::Debug => Rgb { red: 0, green: 191, blue: 255 },
            DebugLogLevel::Info => Rgb { red: 0, green: 255, blue: 0 },
            DebugLogLevel::Warn => Rgb { red: 255, green: 255, blue: 0 },
            DebugLogLevel::Error => Rgb { red: 255, green: 0, blue: 0 },
        }
    }
}

/// View of `title_case`.
pub open spec fn spec_title_case(level: DebugLogLevel) -> Seq<char> {
    match level {
        DebugLogLevel::Trace => "Trace"@,
        DebugLogLevel::Debug => "Debug"@,
        DebugLogLevel::Info => "Info"@,
        DebugLogLevel::Warn => "Warn"@,
        DebugLogLevel::Error => "Error"@,
    }
}

/// View of `upper_case`.
pub open spec fn spec_upper_case(level: DebugLogLevel) -> Seq<char> {
    match level {
        DebugLogLevel::Trace => "TRACE"@,
        DebugLogLevel::Debug => "DEBUG"@,
        DebugLogLevel::Info => "INFO"@,
        DebugLogLevel::Warn => "WARN"@,
        DebugLogLevel::Error => "ERROR"@,
    }
}

/// View of `letter`.
pub open spec fn spec_letter(level: DebugLogLevel) -> Seq<char> {
    match level {
        DebugLogLevel::Trace => "T"@,
        DebugLogLevel::Debug => "D"@,
        DebugLogLevel::Info => "I"@,
        DebugLogLevel::Warn => "W"@,
        DebugLogLevel::Error => "E"@,
    }
}

/// Display color of each level.
pub open spec fn spec_color(level: DebugLogLevel) -> Rgb {
    match level {
        DebugLogLevel::Trace => Rgb { red: 186, green: 85, blue: 211 },
        DebugLogLevel::Debug => Rgb { red: 0, green: 191, blue: 255 },
        DebugLogLevel::Info => Rgb { red: 0, green: 255, blue: 0 },
        DebugLogLevel::Warn => Rgb { red: 255, green: 255, blue: 0 },
        DebugLogLevel::Error => Rgb { red: 255, green: 0, blue: 0 },
    }
}

impl LevelFilterChip {
    /// The severity level this chip filters.
    pub fn level(self) -> (r: DebugLogLevel)
        ensures
            r == spec_chip_level(self),
    {
        match self {
            LevelFilterChip::Error => DebugLogLevel::Error,
            LevelFilterChip::Warn => DebugLogLevel::Warn,
            LevelFilterChip::Info => DebugLogLevel::Info,
            LevelFilterChip::Debug => DebugLogLevel::Debug,
            LevelFilterChip::Trace => DebugLogLevel::Trace,
        }
    }

    /// The chip bound to a severity level.
    pub fn of_level(level: DebugLogLevel) -> (r: LevelFilterChip)
        ensures
            r == spec_chip_of_level(level),
    {
        match level {
            DebugLogLevel::Error => LevelFilterChip::Error,
            DebugLogLevel::Warn => LevelFilterChip::Warn,
            DebugLogLevel::Info => LevelFilterChip::Info,
            DebugLogLevel::Debug => LevelFilterChip::Debug,
            DebugLogLevel::Trace => LevelFilterChip::Trace,
        }
    }
}

/// Level of a chip.
pub open spec fn spec_chip_level(chip: LevelFilterChip) -> DebugLogLevel {
    match chip {
        LevelFilterChip::Error => DebugLogLevel::Error,
        LevelFilterChip::Warn => DebugLogLevel::Warn,
        LevelFilterChip::Info => DebugLogLevel::Info,
        LevelFilterChip::Debug => DebugLogLevel::Debug,
        LevelFilterChip::Trace => DebugLogLevel::Trace,
    }
}

/// Chip of a level.
pub open spec fn spec_chip_of_level(level: DebugLogLevel) -> LevelFilterChip {
    match level {
        DebugLogLevel::Error => LevelFilterChip::Error,
        DebugLogLevel::Warn => LevelFilterChip::Warn,
        DebugLogLevel::Info => LevelFilterChip::Info,
        DebugLogLevel::Debug => LevelFilterChip::Debug,
        DebugLogLevel::Trace => LevelFilterChip::Trace,
    }
}

} // verus!
