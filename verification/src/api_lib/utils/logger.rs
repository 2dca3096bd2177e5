//! Logging: levels, the lines of the default logger, and the logger that
//! hands records on to callbacks.

use vstd::prelude::*;
use vstd::string::{StrSliceExecFns, StringExecFns};

use crate::utils::decimal::{decimal_string, decimal_text};

verus! {

/// Which logger is installed.
#[derive(Debug, Clone, Copy, PartialEq, Eq, Structural)]
pub enum LoggerState {
    Default,
    Custom,
}

/// The severity of a record, from the most to the least severe.
#[derive(Debug, Clone, Copy, PartialEq, Eq, Structural)]
pub enum Level {
    Error,
    Warn,
    Info,
    Debug,
    Trace,
}

impl Level {
    /// The number of the level: 1 for errors up to 5 for traces.
    pub open spec fn spec_code(self) -> u32 {
        match self {
            Level::Error => 1,
            Level::Warn => 2,
            Level::Info => 3,
            Level::Debug => 4,
            Level::Trace => 5,
        }
    }

    /// The number of the level: 1 for errors up to 5 for traces.
    pub fn code(self) -> (code: u32)
        ensures
            code == self.spec_code(),
    {
        match self {
            Level::Error => 1,
            Level::Warn => 2,
            Level::Info => 3,
            Level::Debug => 4,
            Level::Trace => 5,
        }
    }

    /// The name of the level, in capitals.
    pub open spec fn spec_name(self) -> &'static str {
        match self {
            Level::Error => "ERROR",
            Level::Warn => "WARN",
            Level::Info => "INFO",
            Level::Debug => "DEBUG",
            Level::Trace => "TRACE",
        }
    }

    /// The name of the level, in capitals.
    pub fn as_str(self) -> (name: &'static str)
        ensures
            name == self.spec_name(),
    {
        match self {
            Level::Error => "ERROR",
            Level::Warn => "WARN",
            Level::Info => "INFO",
            Level::Debug => "DEBUG",
            Level::Trace => "TRACE",
        }
    }
}

/// The level with the number `level`.
pub fn get_level(level: u32) -> (found: Level)
    requires
        1 <= level <= 5,
    ensures
        found.spec_code() == level,
{
    match level {
        1 => Level::Error,
        2 => Level::Warn,
        3 => Level::Info,
        4 => Level::Debug,
        _ => Level::Trace,
    }
}

/// The level with the number `level`, if there is one.
pub fn checked_level(level: u32) -> (found: Option<Level>)
    ensures
        match found {
            Some(l) => l.spec_code() == level,
            None => !(1 <= level <= 5),
        },
{
    if 1 <= level && level <= 5 {
        Some(get_level(level))
    } else {
        None
    }
}

/// One record to be logged.
#[derive(Debug, Clone, PartialEq)]
pub struct LogRecord {
    pub level: Level,
    pub target: String,
    pub args: String,
    pub module: Option<String>,
    pub file: Option<String>,
    pub line: Option<u32>,
}

/// `count` spaces.
pub open spec fn spaces(count: nat) -> Seq<char> {
    Seq::new(count, |i: int| ' ')
}

/// `text` moved to the right edge of a column of `width` characters; a text
/// that is wider is left as it is.
pub open spec fn right_aligned(text: Seq<char>, width: nat) -> Seq<char> {
    if text.len() < width {
        spaces((width - text.len()) as nat) + text
    } else {
        text
    }
}

/// `text` at the left edge of a column of `width` characters; a text that is
/// wider is left as it is.
pub open spec fn left_aligned(text: Seq<char>, width: nat) -> Seq<char> {
    if text.len() < width {
        text + spaces((width - text.len()) as nat)
    } else {
        text
    }
}

/// The line of the default logger: the timestamp, the level in a column of
/// its own, the target on 30 characters, the file on 35 and the line number
/// on 4, then the message and a line break. A missing file is empty, a
/// missing line number is zero.
pub open spec fn log_line(timestamp: Seq<char>, level: Seq<char>, record: LogRecord) -> Seq<char> {
    timestamp + " | "@ + level + " | "@ + left_aligned(record.target@, 30) + " | "@
        + right_aligned(
        match record.file {
            Some(file) => file@,
            None => Seq::empty(),
        },
        35,
    ) + ":"@ + left_aligned(
        decimal_text(
            match record.line {
                Some(line) => line as nat,
                None => 0,
            },
        ),
        4,
    ) + " | "@ + record.args@ + "\n"@
}

/// Appends `count` spaces to `text`.
fn append_spaces(text: &mut String, count: usize)
    ensures
        final(text)@ == old(text)@ + spaces(count as nat),
{
    let mut i: usize = 0;
    proof {
        reveal_strlit(" ");
    }
    assert(text@ =~= old(text)@ + spaces(0));
    while i < count
        invariant
            i <= count,
            text@ == old(text)@ + spaces(i as nat),
            " "@ == seq![' '],
        decreases count - i,
    {
        text.append(" ");
        assert(text@ =~= old(text)@ + spaces((i + 1) as nat));
        i += 1;
    }
}

/// Appends `field` to `text`, at the right edge of a column of `width`.
fn append_right_aligned(text: &mut String, field: &str, width: usize)
    ensures
        final(text)@ == old(text)@ + right_aligned(field@, width as nat),
{
    let len = field.unicode_len();
    if len < width {
        append_spaces(text, width - len);
    }
    text.append(field);
    assert(final(text)@ =~= old(text)@ + right_aligned(field@, width as nat));
}

/// Appends `field` to `text`, at the left edge of a column of `width`.
fn append_left_aligned(text: &mut String, field: &str, width: usize)
    ensures
        final(text)@ == old(text)@ + left_aligned(field@, width as nat),
{
    let len = field.unicode_len();
    text.append(field);
    if len < width {
        append_spaces(text, width - len);
    }
    assert(final(text)@ =~= old(text)@ + left_aligned(field@, width as nat));
}

/// Writes the line of `record` with the given timestamp and level column.
pub fn format_line(timestamp: &str, level: &str, record: &LogRecord) -> (line: String)
    ensures
        line@ == log_line(timestamp@, level@, *record),
{
    let mut line = String::from_str(timestamp);
    line.append(" | ");
    line.append(level);
    line.append(" | ");
    append_left_aligned(&mut line, record.target.as_str(), 30);
    line.append(" | ");
    match &record.file {
        Some(file) => append_right_aligned(&mut line, file.as_str(), 35),
        None => append_right_aligned(&mut line, "", 35),
    }
    line.append(":");
    let number = match record.line {
        Some(number) => decimal_string(number as u64),
        None => decimal_string(0),
    };
    append_left_aligned(&mut line, number.as_str(), 4);
    line.append(" | ");
    line.append(record.args.as_str());
    line.append("\n");
    proof {
        reveal_strlit("");
        assert(""@ =~= Seq::<char>::empty());
        assert(line@ =~= log_line(timestamp@, level@, *record));
    }
    line
}

/// Reads the clock with `chrono::Local::now` and writes the local time with
/// date, time and nanoseconds. The text depends on when and where the call
/// is made, so nothing is claimed of it.
#[verifier::external_body]
fn _get_timestamp() -> (timestamp: String) {
    chrono::Local::now().format("%Y-%m-%d %H:%M:%S.%f").to_string()
}

/// The line of `record` at the present time, with the level column as the
/// caller styled it.
pub fn text_format(styled_level: &str, record: &LogRecord) -> (line: String)
    ensures
        exists|timestamp: Seq<char>| line@ == log_line(timestamp, styled_level@, *record),
{
    let timestamp = _get_timestamp();
    format_line(timestamp.as_str(), styled_level, record)
}

/// The line of `record` at the present time, with the plain name of the
/// level at the right edge of a column of 5.
pub fn text_no_color_format(record: &LogRecord) -> (line: String)
    ensures
        exists|timestamp: Seq<char>|
            line@ == log_line(timestamp, right_aligned(record.level.spec_name()@, 5), *record),
{
    let timestamp = _get_timestamp();
    let mut level = String::new();
    append_right_aligned(&mut level, record.level.as_str(), 5);
    assert(level@ =~= right_aligned(record.level.spec_name()@, 5));
    format_line(timestamp.as_str(), level.as_str(), record)
}

/// The logger that hands records on to the callbacks of a foreign caller:
/// one that says whether a record is wanted, one that takes the record, and
/// one that flushes what was taken. The first and the last may be missing.
pub struct LibvcxLogger<E, L, F> {
    pub enabled: Option<E>,
    pub log: L,
    pub flush: Option<F>,
}

impl<
    E: Fn(u32, &str) -> bool,
    L: Fn(u32, &str, &str, Option<&str>, Option<&str>, u32),
    F: Fn(),
> LibvcxLogger<E, L, F> {
    /// The logger with the given callbacks.
    pub fn new(enabled: Option<E>, log: L, flush: Option<F>) -> (logger: Self)
        ensures
            logger.enabled == enabled,
            logger.log == log,
            logger.flush == flush,
    {
        LibvcxLogger { enabled, log, flush }
    }

    /// Whether a record of the level `level` for `target` is wanted: what the
    /// callback says for the number of the level and the target, and always
    /// where there is no callback.
    pub fn enabled(&self, level: Level, target: &str) -> (wanted: bool)
        requires
            self.enabled matches Some(callback) ==> call_requires(
                callback,
                (level.spec_code(), target),
            ),
        ensures
            match self.enabled {
                Some(callback) => call_ensures(callback, (level.spec_code(), target), wanted),
                None => wanted,
            },
    {
        match &self.enabled {
            Some(callback) => callback(level.code(), target),
            None => true,
        }
    }

    /// Hands `record` to the callback: the number of its level, its target,
    /// its message, its module and file where it has them, and its line, or
    /// zero where it has none. The callback must take every record.
    pub fn log(&self, record: &LogRecord)
        requires
            forall|
                level: u32,
                target: &str,
                message: &str,
                module: Option<&str>,
                file: Option<&str>,
                line: u32,
            | call_requires(self.log, (level, target, message, module, file, line)),
        ensures
            exists|target: &str, message: &str, module: Option<&str>, file: Option<&str>|
                {
                    &&& target@ == record.target@
                    &&& message@ == record.args@
                    &&& same_opt_text(module, record.module)
                    &&& same_opt_text(file, record.file)
                    &&& #[trigger] call_ensures(
                        self.log,
                        (
                            record.level.spec_code(),
                            target,
                            message,
                            module,
                            file,
                            line_or_zero(record.line),
                        ),
                        (),
                    )
                },
    {
        let line = match record.line {
            Some(line) => line,
            None => 0,
        };
        let target = record.target.as_str();
        let message = record.args.as_str();
        let module = as_opt_str(&record.module);
        let file = as_opt_str(&record.file);
        (self.log)(record.level.code(), target, message, module, file, line);
        assert(call_ensures(
            self.log,
            (record.level.spec_code(), target, message, module, file, line_or_zero(record.line)),
            (),
        ));
    }

    /// Flushes through the callback, where there is one.
    pub fn flush(&self)
        requires
            self.flush matches Some(callback) ==> call_requires(callback, ()),
        ensures
            self.flush matches Some(callback) ==> call_ensures(callback, (), ()),
    {
        match &self.flush {
            Some(callback) => callback(),
            None => {},
        }
    }
}

/// The line of a record, or zero where it has none.
pub open spec fn line_or_zero(line: Option<u32>) -> u32 {
    match line {
        Some(line) => line,
        None => 0,
    }
}

/// Whether a borrowed optional text holds the characters of an optional text.
pub open spec fn same_opt_text(borrowed: Option<&str>, text: Option<String>) -> bool {
    match (borrowed, text) {
        (Some(b), Some(t)) => b@ == t@,
        (None, None) => true,
        _ => false,
    }
}

fn as_opt_str(text: &Option<String>) -> (borrowed: Option<&str>)
    ensures
        same_opt_text(borrowed, *text),
{
    match text {
        Some(t) => Some(t.as_str()),
        None => None,
    }
}

/// The formats in which the default logger writes its lines.
#[derive(Debug, Clone, Copy, PartialEq, Eq, Structural)]
pub enum LineFormat {
    Text,
    TextNoColor,
}

/// The default logger.
#[derive(Debug, Clone, Copy, PartialEq, Eq, Structural)]
pub struct LibvcxDefaultLogger;

/// The lower-case letter of an upper-case ASCII letter; any other character
/// as it is.
pub open spec fn ascii_lower(c: char) -> char {
    if 'A' <= c <= 'Z' {
        ((c as u8) + 32) as char
    } else {
        c
    }
}

/// The text with its upper-case ASCII letters in lower case.
pub open spec fn ascii_lowered(text: Seq<char>) -> Seq<char> {
    Seq::new(text.len(), |i: int| ascii_lower(text[i]))
}

/// Whether `text` is `word` but for the case of its ASCII letters; `word`
/// is in lower case.
fn is_word(text: &str, word: &str) -> (same: bool)
    ensures
        same == (ascii_lowered(text@) == word@),
{
    let len = text.unicode_len();
    if len != word.unicode_len() {
        return false;
    }
    let mut i: usize = 0;
    while i < len
        invariant
            i <= len,
            len == text@.len(),
            len == word@.len(),
            forall|k: int| 0 <= k < i ==> ascii_lower(text@[k]) == word@[k],
        decreases len - i,
    {
        let c = text.get_char(i);
        let lowered = if 'A' <= c && c <= 'Z' {
            ((c as u8) + 32) as char
        } else {
            c
        };
        if lowered != word.get_char(i) {
            assert(ascii_lowered(text@)[i as int] != word@[i as int]);
            return false;
        }
        i += 1;
    }
    assert(ascii_lowered(text@) =~= word@);
    true
}

impl LibvcxDefaultLogger {
    /// The least severe level that is logged on Android: the one that the
    /// pattern names, in any case of letters, and errors only where it names
    /// none.
    pub fn android_level(pattern: Option<&str>) -> (level: Level)
        ensures
            level == match pattern {
                Some(name) => if ascii_lowered(name@) == "warn"@ {
                    Level::Warn
                } else if ascii_lowered(name@) == "info"@ {
                    Level::Info
                } else if ascii_lowered(name@) == "debug"@ {
                    Level::Debug
                } else if ascii_lowered(name@) == "trace"@ {
                    Level::Trace
                } else {
                    Level::Error
                },
                None => Level::Error,
            },
    {
        match pattern {
            Some(name) => if is_word(name, "warn") {
                Level::Warn
            } else if is_word(name, "info") {
                Level::Info
            } else if is_word(name, "debug") {
                Level::Debug
            } else if is_word(name, "trace") {
                Level::Trace
            } else {
                Level::Error
            },
            None => Level::Error,
        }
    }

    /// The filter pattern to log by: the one given, or else the one of the
    /// environment.
    pub fn pattern(pattern: Option<String>, environment: Option<String>) -> (chosen: Option<
        String,
    >)
        ensures
            chosen == if pattern is Some {
                pattern
            } else {
                environment
            },
    {
        match pattern {
            Some(given) => Some(given),
            None => environment,
        }
    }

    /// The filters that the default logger parses: the pattern, or `warn`
    /// where there is none.
    pub fn filters(pattern: &Option<String>) -> (filters: &str)
        ensures
            filters@ == match pattern {
                Some(given) => given@,
                None => "warn"@,
            },
    {
        match pattern {
            Some(given) => given.as_str(),
            None => "warn",
        }
    }

    /// The format of the lines: without colour where the environment asks for
    /// `text_no_color`, with colour otherwise.
    pub fn line_format(environment: Option<&str>) -> (format: LineFormat)
        ensures
            format == if environment is Some && environment->0@ == "text_no_color"@ {
                LineFormat::TextNoColor
            } else {
                LineFormat::Text
            },
    {
        match environment {
            Some(value) => if crate::utils::text::text_eq(value, "text_no_color") {
                LineFormat::TextNoColor
            } else {
                LineFormat::Text
            },
            None => LineFormat::Text,
        }
    }
}

} // verus!
