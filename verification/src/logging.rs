//! Log-level bookkeeping: the file log level kept as a number, the filter it
//! stands for, and the console filter built from a `RUST_LOG` directive.
use vstd::prelude::*;
use crate::text::{trim, trimmed_text};

verus! {

/// The maximum level that a log sink lets through, ordered from `Off` to
/// `Trace` as the `log` crate orders its `LevelFilter`.
#[derive(Clone, Copy, Debug, PartialEq, Eq, Structural)]
pub enum LevelFilter {
    Off,
    Error,
    Warn,
    Info,
    Debug,
    Trace,
}

/// The level of one log record, as the `log` crate's `Level`.
#[derive(Clone, Copy, Debug, PartialEq, Eq, Structural)]
pub enum LogLevel {
    Error,
    Warn,
    Info,
    Debug,
    Trace,
}

impl LevelFilter {
    /// The number that the filter is stored as: `Off` is 0, `Trace` is 5.
    pub open spec fn rank(self) -> nat {
        match self {
            LevelFilter::Off => 0,
            LevelFilter::Error => 1,
            LevelFilter::Warn => 2,
            LevelFilter::Info => 3,
            LevelFilter::Debug => 4,
            LevelFilter::Trace => 5,
        }
    }

    /// The number that stands for this filter in a stored log level.
    pub fn as_u8(self) -> (r: u8)
        ensures
            r == self.rank(),
    {
        match self {
            LevelFilter::Off => 0,
            LevelFilter::Error => 1,
            LevelFilter::Warn => 2,
            LevelFilter::Info => 3,
            LevelFilter::Debug => 4,
            LevelFilter::Trace => 5,
        }
    }
}

impl LogLevel {
    /// The rank of a record's level on the same scale as `LevelFilter::rank`:
    /// `Error` is 1, `Trace` is 5.
    pub open spec fn rank(self) -> nat {
        match self {
            LogLevel::Error => 1,
            LogLevel::Warn => 2,
            LogLevel::Info => 3,
            LogLevel::Debug => 4,
            LogLevel::Trace => 5,
        }
    }
}

/// The filter that a stored number stands for: the numbers 0 to 4 name
/// `Off` to `Debug`, and every larger number is `Trace`.
pub open spec fn filter_for_value(value: int) -> LevelFilter {
    if value <= 0 {
        LevelFilter::Off
    } else if value == 1 {
        LevelFilter::Error
    } else if value == 2 {
        LevelFilter::Warn
    } else if value == 3 {
        LevelFilter::Info
    } else if value == 4 {
        LevelFilter::Debug
    } else {
        LevelFilter::Trace
    }
}

/// Reads a stored file log level.
pub fn level_filter_from_u8(value: u8) -> (f: LevelFilter)
    ensures
        f == filter_for_value(value as int),
        f.rank() == if value < 5 { value as nat } else { 5 },
{
    match value {
        0 => LevelFilter::Off,
        1 => LevelFilter::Error,
        2 => LevelFilter::Warn,
        3 => LevelFilter::Info,
        4 => LevelFilter::Debug,
        _ => LevelFilter::Trace,
    }
}

/// Whether a sink whose maximum is `filter` lets a record of `level` through,
/// the comparison `level <= filter` of the `log` crate.
pub fn level_enabled(level: LogLevel, filter: LevelFilter) -> (r: bool)
    ensures
        r == (level.rank() <= filter.rank()),
{
    let l: u8 = match level {
        LogLevel::Error => 1,
        LogLevel::Warn => 2,
        LogLevel::Info => 3,
        LogLevel::Debug => 4,
        LogLevel::Trace => 5,
    };
    l <= filter.as_u8()
}

/// Whether the log file takes a record of `level` while the stored file log
/// level is `stored`.
pub fn file_log_enabled(level: LogLevel, stored: u8) -> (r: bool)
    ensures
        r == (level.rank() <= filter_for_value(stored as int).rank()),
{
    level_enabled(level, level_filter_from_u8(stored))
}

/// The file log level stored once the settings are read: `Trace` in debug
/// mode, otherwise the starting level `Debug`.
pub fn file_log_level(debug_mode: bool) -> (r: u8)
    ensures
        r == if debug_mode { LevelFilter::Trace.rank() } else { LevelFilter::Debug.rank() },
{
    if debug_mode {
        LevelFilter::Trace.as_u8()
    } else {
        LevelFilter::Debug.as_u8()
    }
}

/// The filter that bears the same name as a record's level.
pub open spec fn filter_named(level: LogLevel) -> LevelFilter {
    match level {
        LogLevel::Error => LevelFilter::Error,
        LogLevel::Warn => LevelFilter::Warn,
        LogLevel::Info => LevelFilter::Info,
        LogLevel::Debug => LevelFilter::Debug,
        LogLevel::Trace => LevelFilter::Trace,
    }
}

/// Record levels are ordered `Error < Warn < Info < Debug < Trace`, each in
/// the place of the filter of the same name; a record passes a filter
/// exactly when that filter is at or above the filter named like the
/// record's level, so a filter always lets through its own level and every
/// more severe one, and nothing less severe.
pub proof fn lemma_record_order(level: LogLevel, filter: LevelFilter)
    ensures
        LogLevel::Error.rank() < LogLevel::Warn.rank(),
        LogLevel::Warn.rank() < LogLevel::Info.rank(),
        LogLevel::Info.rank() < LogLevel::Debug.rank(),
        LogLevel::Debug.rank() < LogLevel::Trace.rank(),
        LevelFilter::Off.rank() < LevelFilter::Error.rank(),
        LevelFilter::Error.rank() < LevelFilter::Warn.rank(),
        LevelFilter::Warn.rank() < LevelFilter::Info.rank(),
        LevelFilter::Info.rank() < LevelFilter::Debug.rank(),
        LevelFilter::Debug.rank() < LevelFilter::Trace.rank(),
        level.rank() == filter_named(level).rank(),
        (level.rank() <= filter.rank()) <==> (filter_named(level).rank() <= filter.rank()),
        level.rank() <= filter_named(level).rank(),
        filter != LevelFilter::Off || !(level.rank() <= filter.rank()),
        level.rank() <= LevelFilter::Trace.rank(),
{
}

/// Storing a filter as its number and reading the number back gives the same
/// filter.
pub proof fn lemma_level_round_trip(f: LevelFilter)
    ensures
        filter_for_value(f.rank() as int) == f,
{
}

/// A larger stored number never stands for a stricter filter.
pub proof fn lemma_level_monotone(a: int, b: int)
    requires
        a <= b,
    ensures
        filter_for_value(a).rank() <= filter_for_value(b).rank(),
{
}

/// Raising the stored file log level never takes a record out of the log file.
pub proof fn lemma_file_log_monotone(level: LogLevel, a: u8, b: u8)
    requires
        a <= b,
        level.rank() <= filter_for_value(a as int).rank(),
    ensures
        level.rank() <= filter_for_value(b as int).rank(),
{
    lemma_level_monotone(a as int, b as int);
}

// ---------------------------------------------------------------------------
// Console filter
// ---------------------------------------------------------------------------

#[verifier::external_type_specification]
#[verifier::external_body]
pub struct ExFilterBuilder(env_filter::Builder);

#[verifier::external_type_specification]
#[verifier::external_body]
pub struct ExFilter(env_filter::Filter);

/// Whether `env_filter` accepts a text as a logging directive (its parser
/// reports no error for it).
pub uninterp spec fn directive_accepted(spec: Seq<char>) -> bool;

/// The directives that `env_filter`'s parser reads from an accepted text:
/// for each module name (`None` for all modules) the rank of its level on
/// the scale of `LevelFilter::rank`, the last directive for a name winning.
pub uninterp spec fn parsed_directives(spec: Seq<char>) -> Map<Option<Seq<char>>, nat>;

/// The directives that an `env_filter::Builder` holds: for each module name
/// (`None` for all modules) the rank of its level. The builder keeps at most
/// one directive per name.
pub uninterp spec fn builder_directives(builder: env_filter::Builder) -> Map<Option<Seq<char>>, nat>;

/// The directives that an `env_filter::Filter` holds, as for a builder.
pub uninterp spec fn filter_directives(filter: env_filter::Filter) -> Map<Option<Seq<char>>, nat>;

/// The directives that `Builder::build` gives a filter: those of the builder,
/// or all modules at `Error` when the builder holds none.
pub open spec fn built_directives(d: Map<Option<Seq<char>>, nat>) -> Map<Option<Seq<char>>, nat> {
    if d == Map::<Option<Seq<char>>, nat>::empty() {
        map![None => LevelFilter::Error.rank()]
    } else {
        d
    }
}

/// Calls `env_filter::Builder::new`.
///
/// Trusted: the new builder holds no directive (the source builds it with an
/// empty list).
#[verifier::external_body]
fn new_filter_builder() -> (r: env_filter::Builder)
    ensures
        builder_directives(r) =~= Map::empty(),
{
    env_filter::Builder::new()
}

/// Calls `env_filter::Builder::try_parse`.
///
/// Trusted: it reports success exactly when `directive_accepted` holds of the
/// text, a name for the outcome of `env_filter`'s parser, which depends on the
/// text alone. As the source shows, a refused text leaves the builder's
/// directives as they were, and an accepted one inserts the parsed
/// directives, each replacing the builder's directive for the same name. The
/// regular-expression message filter that a text may add after a `/` is not
/// stated.
#[verifier::external_body]
fn try_parse_directive(builder: &mut env_filter::Builder, spec: &str) -> (ok: bool)
    ensures
        ok == directive_accepted(spec@),
        ok ==> builder_directives(*final(builder))
            == builder_directives(*old(builder)).union_prefer_right(parsed_directives(spec@)),
        !ok ==> builder_directives(*final(builder)) == builder_directives(*old(builder)),
{
    builder.try_parse(spec).is_ok()
}

/// Calls `env_filter::Builder::filter_level` with the `log` filter that
/// `level` names.
///
/// Trusted: as the source shows, it inserts a directive for all modules at
/// that level, replacing the one the builder had.
#[verifier::external_body]
fn add_global_level(builder: &mut env_filter::Builder, level: LevelFilter)
    ensures
        builder_directives(*final(builder)) == builder_directives(*old(builder)).insert(None, level.rank()),
{
    let level = match level {
        LevelFilter::Off => log::LevelFilter::Off,
        LevelFilter::Error => log::LevelFilter::Error,
        LevelFilter::Warn => log::LevelFilter::Warn,
        LevelFilter::Info => log::LevelFilter::Info,
        LevelFilter::Debug => log::LevelFilter::Debug,
        LevelFilter::Trace => log::LevelFilter::Trace,
    };
    builder.filter_level(level);
}

/// Calls `env_filter::Builder::build`. The builder is taken by value, so each
/// builder of the library is built once, as `build` asks.
///
/// Trusted: as the source shows, the filter holds the builder's directives,
/// or one directive for all modules at `Error` when the builder has none.
#[verifier::external_body]
fn build_filter(builder: env_filter::Builder) -> (f: env_filter::Filter)
    ensures
        filter_directives(f) == built_directives(builder_directives(builder)),
{
    let mut builder = builder;
    builder.build()
}

/// Where the console filter took its directives from.
#[derive(Clone, Copy, Debug, PartialEq, Eq, Structural)]
pub enum ConsoleFilterSource {
    /// The `RUST_LOG` directive.
    Environment,
    /// The fallback: every module at `Info`.
    DefaultInfo,
}

/// The source of the console filter, given whether the `RUST_LOG` text is
/// there and not blank and whether `env_filter` accepted it.
pub open spec fn console_source(nonblank: bool, accepted: bool) -> ConsoleFilterSource {
    if nonblank && accepted {
        ConsoleFilterSource::Environment
    } else {
        ConsoleFilterSource::DefaultInfo
    }
}

/// The decision that follows the parse of `RUST_LOG`.
pub fn choose_console_source(nonblank: bool, accepted: bool) -> (r: ConsoleFilterSource)
    ensures
        r == console_source(nonblank, accepted),
{
    if nonblank && accepted {
        ConsoleFilterSource::Environment
    } else {
        ConsoleFilterSource::DefaultInfo
    }
}

/// The source that `build_console_filter` uses for a `RUST_LOG` value.
pub open spec fn console_source_for(rust_log: Option<Seq<char>>) -> ConsoleFilterSource {
    match rust_log {
        Some(s) => console_source(trimmed_text(s).len() > 0, directive_accepted(s)),
        None => ConsoleFilterSource::DefaultInfo,
    }
}

/// The directives of the console filter for a source: those parsed from
/// `RUST_LOG`, or all modules at `Info`.
pub open spec fn console_directives(source: ConsoleFilterSource, rust_log: Option<Seq<char>>) -> Map<Option<Seq<char>>, nat> {
    match (source, rust_log) {
        (ConsoleFilterSource::Environment, Some(s)) => built_directives(parsed_directives(s)),
        _ => map![None => LevelFilter::Info.rank()],
    }
}

/// Builds the console log filter from the `RUST_LOG` variable (`None` where
/// it is not set): its directives when it is not blank and parses, otherwise
/// every module at `Info`.
pub fn build_console_filter(rust_log: Option<&str>) -> (r: (env_filter::Filter, ConsoleFilterSource))
    ensures
        r.1 == console_source_for(
            match rust_log {
                Some(s) => Some(s@),
                None => None,
            },
        ),
        filter_directives(r.0) == console_directives(
            r.1,
            match rust_log {
                Some(s) => Some(s@),
                None => None,
            },
        ),
{
    let mut builder = new_filter_builder();
    let source = match rust_log {
        Some(spec) => {
            let nonblank = !trim(spec).is_empty();
            if nonblank {
                let accepted = try_parse_directive(&mut builder, spec);
                proof {
                    if accepted {
                        assert(builder_directives(builder) =~= parsed_directives(spec@));
                    }
                }
                choose_console_source(nonblank, accepted)
            } else {
                choose_console_source(nonblank, false)
            }
        },
        None => ConsoleFilterSource::DefaultInfo,
    };
    if source == ConsoleFilterSource::DefaultInfo {
        add_global_level(&mut builder, LevelFilter::Info);
        assert(builder_directives(builder) =~= map![None => LevelFilter::Info.rank()]);
        assert(builder_directives(builder).dom().contains(None));
    }
    (build_filter(builder), source)
}

} // verus!
