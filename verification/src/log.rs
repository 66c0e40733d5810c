use vstd::prelude::*;
use crate::error::{RmxError, ErrorView};
use crate::path::{path_parent, path_file_stem, path_extension, path_join, parent_of, file_stem_of, extension_of, join_path};

verus! {

/// The date format of log lines.
pub const LOG_DATE_FORMAT: &'static str = "%Y-%m-%d %H:%M:%S.%f";
/// The smallest size a log file may grow to before it rolls over.
pub const LOG_SIZE_MIN: usize = 2097152;
/// The largest size a log file may grow to before it rolls over.
pub const LOG_SIZE_MAX: usize = 10485760;

/// How much to log.
#[derive(Debug, Default, Clone, Copy, PartialEq, Eq, PartialOrd, Ord, Hash)]
pub enum LogLevel {
    Off,
    #[default]
    Default,
    Trace,
    Debug,
    Info,
    Warn,
    Error,
    Critical,
}

/// The filter levels of the `log` facade.
#[derive(Debug, Clone, Copy, PartialEq, Eq, Hash)]
pub enum LevelFilter {
    Off,
    Error,
    Warn,
    Info,
    Debug,
    Trace,
}

/// The record levels of `slog`.
#[derive(Debug, Clone, Copy, PartialEq, Eq, Hash)]
pub enum SlogLevel {
    Critical,
    Error,
    Warning,
    Info,
    Debug,
    Trace,
}

impl LogLevel {
    /// The `log` filter for this level: critical logs errors, the default
    /// level and info log info.
    pub fn level_filter(self) -> (r: LevelFilter)
        ensures
            r == match self {
                LogLevel::Off => LevelFilter::Off,
                LogLevel::Trace => LevelFilter::Trace,
                LogLevel::Debug => LevelFilter::Debug,
                LogLevel::Warn => LevelFilter::Warn,
                LogLevel::Error => LevelFilter::Error,
                LogLevel::Critical => LevelFilter::Error,
                _ => LevelFilter::Info,
            },
    {
        match self {
            LogLevel::Off => LevelFilter::Off,
            LogLevel::Trace => LevelFilter::Trace,
            LogLevel::Debug => LevelFilter::Debug,
            LogLevel::Warn => LevelFilter::Warn,
            LogLevel::Error => LevelFilter::Error,
            LogLevel::Critical => LevelFilter::Error,
            _ => LevelFilter::Info,
        }
    }

    /// The `slog` level for this level: off keeps only critical records,
    /// the default level and info keep info.
    pub fn slog_level(self) -> (r: SlogLevel)
        ensures
            r == match self {
                LogLevel::Off => SlogLevel::Critical,
                LogLevel::Trace => SlogLevel::Trace,
                LogLevel::Debug => SlogLevel::Debug,
                LogLevel::Warn => SlogLevel::Warning,
                LogLevel::Error => SlogLevel::Error,
                LogLevel::Critical => SlogLevel::Critical,
                _ => SlogLevel::Info,
            },
    {
        match self {
            LogLevel::Off => SlogLevel::Critical,
            LogLevel::Trace => SlogLevel::Trace,
            LogLevel::Debug => SlogLevel::Debug,
            LogLevel::Warn => SlogLevel::Warning,
            LogLevel::Error => SlogLevel::Error,
            LogLevel::Critical => SlogLevel::Critical,
            _ => SlogLevel::Info,
        }
    }
}

/// The size at which a log file rolls over: the given limit (the largest
/// size when none is given) brought into the allowed range.
pub fn size_limit(limit: Option<usize>) -> (r: usize)
    ensures
        LOG_SIZE_MIN <= r <= LOG_SIZE_MAX,
        r == match limit {
            None => LOG_SIZE_MAX,
            Some(l) => if l < LOG_SIZE_MIN {
                LOG_SIZE_MIN
            } else if l > LOG_SIZE_MAX {
                LOG_SIZE_MAX
            } else {
                l
            },
        },
{
    let l = match limit {
        Some(l) => l,
        None => LOG_SIZE_MAX,
    };
    if l < LOG_SIZE_MIN {
        LOG_SIZE_MIN
    } else if l > LOG_SIZE_MAX {
        LOG_SIZE_MAX
    } else {
        l
    }
}

/// The name of the rolled-over log files: the base name, ".{}.old." where
/// the roller puts the file's number, and the extension.
pub fn roller_file_name(base_name: &str, extension: &str) -> (r: String)
    ensures
        r@ == base_name@ + ".{}.old."@ + extension@,
{
    let mut r = base_name.to_owned();
    r.append(".{}.old.");
    r.append(extension);
    r
}

/// One line of the console log: the level, "| ", the tag, " | " and the
/// message.
pub fn log_line(level: &str, tag: &str, message: &str) -> (r: String)
    ensures
        r@ == level@ + "| "@ + tag@ + " | "@ + message@,
{
    let mut r = level.to_owned();
    r.append("| ");
    r.append(tag);
    r.append(" | ");
    r.append(message);
    r
}

/// The name of the argument that a logger needs.
pub const FILE_NAME_ARGUMENT: &'static str = "file_name";

/// A logger needs a file name: an empty one is an argument error.
pub fn check_file_name(file_name: &str) -> (r: Result<(), RmxError>)
    ensures
        file_name@.len() == 0 ==> (r matches Err(e) && e@ == ErrorView::Argument(FILE_NAME_ARGUMENT@)),
        file_name@.len() > 0 ==> r is Ok,
{
    if file_name.is_empty() {
        return Err(RmxError::Argument(FILE_NAME_ARGUMENT.to_owned()));
    }
    Ok(())
}

/// The number of rolled-over files that are kept.
pub const ROLL_WINDOW: u32 = 6;

/// How a rolling file logger is set up: the file it writes, the pattern of
/// the files it rolls over to, the number of those it keeps, the size at
/// which it rolls over and the level it lets through.
#[derive(Debug, Clone, PartialEq, Eq)]
pub struct LogSettings {
    pub file_name: String,
    pub roller_pattern: String,
    pub window: u32,
    pub size_limit: usize,
    pub level: LevelFilter,
}

/// The rolled-over files of `file_name`: the base name, ".{}.old." and the
/// extension, in the folder of the file (the current one when it has none).
pub open spec fn spec_roller_pattern(file_name: Seq<char>) -> Seq<char> {
    let folder = match path_parent(file_name) {
        Some(f) => f,
        None => Seq::empty(),
    };
    path_join(folder, path_file_stem(file_name)->0 + ".{}.old."@ + path_extension(file_name)->0)
}

/// The size limit that `size_limit` chooses.
pub open spec fn spec_size_limit(limit: Option<usize>) -> usize {
    match limit {
        None => LOG_SIZE_MAX,
        Some(l) => if l < LOG_SIZE_MIN {
            LOG_SIZE_MIN
        } else if l > LOG_SIZE_MAX {
            LOG_SIZE_MAX
        } else {
            l
        },
    }
}

/// The filter that `level_filter` chooses.
pub open spec fn spec_level_filter(level: LogLevel) -> LevelFilter {
    match level {
        LogLevel::Off => LevelFilter::Off,
        LogLevel::Trace => LevelFilter::Trace,
        LogLevel::Debug => LevelFilter::Debug,
        LogLevel::Warn => LevelFilter::Warn,
        LogLevel::Error => LevelFilter::Error,
        LogLevel::Critical => LevelFilter::Error,
        _ => LevelFilter::Info,
    }
}

/// The size limit of a logger is the given limit whenever it lies in the
/// allowed range, the nearest bound of the range when it lies outside, and
/// the largest size when none is given; it always lies in the range.
pub proof fn law_size_limit(l: usize)
    ensures
        spec_size_limit(None) == LOG_SIZE_MAX,
        LOG_SIZE_MIN <= l <= LOG_SIZE_MAX ==> spec_size_limit(Some(l)) == l,
        l < LOG_SIZE_MIN ==> spec_size_limit(Some(l)) == LOG_SIZE_MIN,
        l > LOG_SIZE_MAX ==> spec_size_limit(Some(l)) == LOG_SIZE_MAX,
        LOG_SIZE_MIN <= spec_size_limit(Some(l)) <= LOG_SIZE_MAX,
        spec_size_limit(Some(spec_size_limit(Some(l)))) == spec_size_limit(Some(l)),
{
}

/// The logger lets through the level it is given, except that the default
/// level lets through info and critical lets through errors; off stays off.
pub proof fn law_level_filter()
    ensures
        spec_level_filter(LogLevel::Off) == LevelFilter::Off,
        spec_level_filter(LogLevel::Trace) == LevelFilter::Trace,
        spec_level_filter(LogLevel::Debug) == LevelFilter::Debug,
        spec_level_filter(LogLevel::Info) == LevelFilter::Info,
        spec_level_filter(LogLevel::Warn) == LevelFilter::Warn,
        spec_level_filter(LogLevel::Error) == LevelFilter::Error,
        spec_level_filter(LogLevel::Default) == spec_level_filter(LogLevel::Info),
        spec_level_filter(LogLevel::Critical) == spec_level_filter(LogLevel::Error),
{
}

/// Whether `file_name` has a base name and an extension, which the rolled
/// over files are named after.
pub open spec fn has_stem_and_extension(file_name: Seq<char>) -> bool {
    path_file_stem(file_name) is Some && path_extension(file_name) is Some
}

/// The settings of a rolling file logger that writes `file_name`.
pub fn configure(file_name: &str, level: LogLevel, limit: Option<usize>) -> (r: LogSettings)
    requires
        has_stem_and_extension(file_name@),
    ensures
        r.file_name@ == file_name@,
        r.roller_pattern@ == spec_roller_pattern(file_name@),
        r.window == ROLL_WINDOW,
        r.size_limit == spec_size_limit(limit),
        r.level == spec_level_filter(level),
{
    let folder = match parent_of(file_name) {
        Some(f) => f,
        None => String::new(),
    };
    let base_name = match file_stem_of(file_name) {
        Some(b) => b,
        None => String::new(),
    };
    let extension = match extension_of(file_name) {
        Some(e) => e,
        None => String::new(),
    };
    let name = roller_file_name(base_name.as_str(), extension.as_str());
    LogSettings {
        file_name: file_name.to_owned(),
        roller_pattern: join_path(folder.as_str(), name.as_str()),
        window: ROLL_WINDOW,
        size_limit: size_limit(limit),
        level: level.level_filter(),
    }
}

/// The settings of a rolling file logger that writes `file_name`, or `None`
/// when the name has no base name or no extension.
pub fn try_configure(file_name: &str, level: LogLevel, limit: Option<usize>) -> (r: Option<LogSettings>)
    ensures
        r is Some <==> has_stem_and_extension(file_name@),
        r matches Some(s) ==> s.file_name@ == file_name@
            && s.roller_pattern@ == spec_roller_pattern(file_name@)
            && s.window == ROLL_WINDOW
            && s.size_limit == spec_size_limit(limit)
            && s.level == spec_level_filter(level),
{
    match file_stem_of(file_name) {
        None => return None,
        Some(_) => {},
    }
    match extension_of(file_name) {
        None => return None,
        Some(_) => {},
    }
    Some(configure(file_name, level, limit))
}

/// The settings of the default rolling file logger for `file_name`: info
/// level and the largest size limit.
pub fn build(file_name: &str) -> (r: Option<LogSettings>)
    ensures
        r is Some <==> has_stem_and_extension(file_name@),
        r matches Some(s) ==> s.file_name@ == file_name@
            && s.roller_pattern@ == spec_roller_pattern(file_name@)
            && s.window == ROLL_WINDOW
            && s.size_limit == LOG_SIZE_MAX
            && s.level == LevelFilter::Info,
{
    try_configure(file_name, LogLevel::Info, None)
}

} // verus!
