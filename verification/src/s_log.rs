//! Structured log lines in logfmt style: a human-readable timestamp, then
//! `key=value` pairs (timestamp, level, message, caller-supplied extras),
//! values quoted and escaped when they hold unsafe characters. The caller
//! reads the clock and prints the finished line; this module only builds it.

use vstd::prelude::*;
use vstd::string::StringExecFns;

verus! {

/// The largest timestamp the formatters accept, in seconds since the epoch:
/// the rendering library rejects dates more than about 262,000 years away
/// from the common era, and this bound stays safely inside that range.
pub const MAX_TIMESTAMP_SECS: i64 = 8_000_000_000_000;

/// The human-readable rendering (`%F %X%.3f`: date, time, milliseconds) of a
/// timestamp; a function of the timestamp alone.
pub uninterp spec fn fmt_ts_display_of(secs: i64, nanos: u32) -> Seq<char>;

/// The RFC 3339 rendering (`%+`) of a timestamp; a function of the
/// timestamp alone.
pub uninterp spec fn fmt_ts_rfc3339_of(secs: i64, nanos: u32) -> Seq<char>;

/// Relies on chrono's `DateTime::from_timestamp` and `%F %X%.3f` formatting:
/// for an in-range timestamp the conversion succeeds and the rendered text
/// depends on the timestamp alone (UTC, no locale).
#[verifier::external_body]
fn format_ts_display(secs: i64, nanos: u32) -> (r: String)
    requires
        0 <= secs <= MAX_TIMESTAMP_SECS,
        nanos < 1_000_000_000,
    ensures
        r@ == fmt_ts_display_of(secs, nanos),
{
    chrono::DateTime::<chrono::Utc>::from_timestamp(secs, nanos)
        .unwrap()
        .format("%F %X%.3f")
        .to_string()
}

/// Relies on chrono's `DateTime::from_timestamp` and `%+` (RFC 3339)
/// formatting: for an in-range timestamp the conversion succeeds and the
/// rendered text depends on the timestamp alone (UTC, no locale).
#[verifier::external_body]
fn format_ts_rfc3339(secs: i64, nanos: u32) -> (r: String)
    requires
        0 <= secs <= MAX_TIMESTAMP_SECS,
        nanos < 1_000_000_000,
    ensures
        r@ == fmt_ts_rfc3339_of(secs, nanos),
{
    chrono::DateTime::<chrono::Utc>::from_timestamp(secs, nanos)
        .unwrap()
        .format("%+")
        .to_string()
}

/// The severity of a log line.
#[derive(Clone, Copy, Debug, PartialEq, Eq, Structural)]
pub enum LogLevel {
    Fatal,
    Error,
    Warn,
    Info,
    Debug,
}

/// The text of each level in the `level=` pair.
pub open spec fn spec_level_str(level: LogLevel) -> Seq<char> {
    match level {
        LogLevel::Fatal => "fatal"@,
        LogLevel::Error => "error"@,
        LogLevel::Warn => "warn"@,
        LogLevel::Info => "info"@,
        LogLevel::Debug => "debug"@,
    }
}

impl LogLevel {
    /// The text of this level in the `level=` pair.
    pub fn as_str(&self) -> (r: &'static str)
        ensures
            r@ == spec_level_str(*self),
    {
        match self {
            LogLevel::Fatal => "fatal",
            LogLevel::Error => "error",
            LogLevel::Warn => "warn",
            LogLevel::Info => "info",
            LogLevel::Debug => "debug",
        }
    }
}

/// The characters that may stand unquoted in a value: ASCII letters except
/// lowercase `w`, digits, and a fixed set of punctuation.
pub open spec fn spec_safe_char(c: char) -> bool {
    ||| ('a' <= c && c <= 'v')
    ||| c == 'x'
    ||| c == 'y'
    ||| c == 'z'
    ||| ('A' <= c && c <= 'Z')
    ||| ('0' <= c && c <= '9')
    ||| c == '-'
    ||| c == '_'
    ||| c == '+'
    ||| c == '.'
    ||| c == ','
    ||| c == '/'
    ||| c == '\\'
    ||| c == '|'
    ||| c == '!'
    ||| c == '@'
    ||| c == '#'
    ||| c == '$'
    ||| c == '%'
    ||| c == '^'
    ||| c == '&'
    ||| c == '*'
    ||| c == '('
    ||| c == ')'
    ||| c == '['
    ||| c == ']'
    ||| c == '{'
    ||| c == '}'
}

fn safe_char(c: char) -> (r: bool)
    ensures
        r == spec_safe_char(c),
{
    ('a' <= c && c <= 'v') || c == 'x' || c == 'y' || c == 'z' || ('A' <= c && c <= 'Z') || ('0'
        <= c && c <= '9') || c == '-' || c == '_' || c == '+' || c == '.' || c == ',' || c == '/'
        || c == '\\' || c == '|' || c == '!' || c == '@' || c == '#' || c == '$' || c == '%' || c
        == '^' || c == '&' || c == '*' || c == '(' || c == ')' || c == '[' || c == ']' || c == '{'
        || c == '}'
}

/// Whether a string holds any character outside the safe set.
pub open spec fn spec_needs_escaping(s: Seq<char>) -> bool {
    exists|i: int| 0 <= i < s.len() && !spec_safe_char(#[trigger] s[i])
}

/// Whether a key or value must be quoted and escaped before it may stand in
/// a log line.
pub fn needs_escaping(val: &str) -> (r: bool)
    ensures
        r == spec_needs_escaping(val@),
{
    let chars = crate::strutil::str_chars(val);
    let mut i: usize = 0;
    while i < chars.len()
        invariant
            i <= chars.len(),
            chars@ == val@,
            forall|j: int| 0 <= j < i ==> spec_safe_char(#[trigger] val@[j]),
        decreases chars.len() - i,
    {
        if !safe_char(chars[i]) {
            return true;
        }
        i = i + 1;
    }
    false
}

/// What one character becomes in an escaped value: a newline turns into a
/// doubled backslash and `n` (its marker backslash is itself escaped), a
/// backslash is doubled, a double quote gains a backslash, and every other
/// character stands as it is.
pub open spec fn spec_escape_char(c: char) -> Seq<char> {
    if c == '\n' {
        seq!['\\', '\\', 'n']
    } else if c == '\\' {
        seq!['\\', '\\']
    } else if c == '"' {
        seq!['\\', '"']
    } else {
        seq![c]
    }
}

/// An escaped value: each character replaced as [`spec_escape_char`] says.
pub open spec fn spec_escape(s: Seq<char>) -> Seq<char>
    decreases s.len(),
{
    if s.len() == 0 {
        Seq::empty()
    } else {
        spec_escape(s.drop_last()) + spec_escape_char(s.last())
    }
}

/// Escapes a value for quoting inside a log line.
pub fn escape(val: &str) -> (r: String)
    ensures
        r@ == spec_escape(val@),
{
    let chars = crate::strutil::str_chars(val);
    let mut out: Vec<char> = Vec::new();
    let mut i: usize = 0;
    while i < chars.len()
        invariant
            i <= chars.len(),
            chars@ == val@,
            out@ =~= spec_escape(val@.take(i as int)),
        decreases chars.len() - i,
    {
        let c = chars[i];
        proof {
            assert(val@.take(i + 1).drop_last() =~= val@.take(i as int));
            assert(val@.take(i + 1).last() == val@[i as int]);
        }
        if c == '\n' {
            out.push('\\');
            out.push('\\');
            out.push('n');
        } else if c == '\\' {
            out.push('\\');
            out.push('\\');
        } else if c == '"' {
            out.push('\\');
            out.push('"');
        } else {
            out.push(c);
        }
        i = i + 1;
    }
    proof {
        assert(val@.take(val@.len() as int) =~= val@);
    }
    crate::strutil::chars_to_string(&out)
}

/// What one key/value pair contributes to a line: nothing when the key
/// itself is unsafe; a quoted, escaped value when the value is unsafe; a
/// bare `key=value` otherwise. Each fragment starts with a space.
pub open spec fn spec_kv_fragment(k: Seq<char>, v: Seq<char>) -> Seq<char> {
    if spec_needs_escaping(k) {
        Seq::empty()
    } else if spec_needs_escaping(v) {
        " "@ + k + "=\""@ + spec_escape(v) + "\""@
    } else {
        " "@ + k + "="@ + v
    }
}

/// The fragments of a pair list, in order.
pub open spec fn spec_fragments(pairs: Seq<(Seq<char>, Seq<char>)>) -> Seq<char>
    decreases pairs.len(),
{
    if pairs.len() == 0 {
        Seq::empty()
    } else {
        spec_fragments(pairs.drop_last()) + spec_kv_fragment(pairs.last().0, pairs.last().1)
    }
}

/// A complete log line: the display timestamp, then the fragments of the
/// built-in pairs — `ts` (RFC 3339 timestamp), `level`, `msg` — followed by
/// the caller's pairs.
pub open spec fn spec_log_line(
    level: LogLevel,
    msg: Seq<char>,
    rich: Seq<(Seq<char>, Seq<char>)>,
    secs: i64,
    nanos: u32,
) -> Seq<char> {
    fmt_ts_display_of(secs, nanos) + spec_fragments(
        seq![
            ("ts"@, fmt_ts_rfc3339_of(secs, nanos)),
            ("level"@, spec_level_str(level)),
            ("msg"@, msg),
        ] + rich,
    )
}

/// Appends one pair's fragment to the line under construction.
fn append_fragment(buf: &mut String, k: &str, v: &str)
    ensures
        final(buf)@ == old(buf)@ + spec_kv_fragment(k@, v@),
{
    if needs_escaping(k) {
        proof {
            assert(old(buf)@ + spec_kv_fragment(k@, v@) =~= old(buf)@);
        }
        return ;
    }
    if needs_escaping(v) {
        buf.append(" ");
        buf.append(k);
        buf.append("=\"");
        let escaped = escape(v);
        buf.append(escaped.as_str());
        buf.append("\"");
        proof {
            assert(buf@ =~= old(buf)@ + spec_kv_fragment(k@, v@));
        }
    } else {
        buf.append(" ");
        buf.append(k);
        buf.append("=");
        buf.append(v);
        proof {
            assert(buf@ =~= old(buf)@ + spec_kv_fragment(k@, v@));
        }
    }
}

/// Builds one complete log line for the given level, message, extra pairs
/// and timestamp.
pub fn log_impl(level: LogLevel, msg: &str, rich: &Vec<(String, String)>, secs: i64, nanos: u32)
    -> (r: String)
    requires
        0 <= secs <= MAX_TIMESTAMP_SECS,
        nanos < 1_000_000_000,
    ensures
        r@ == spec_log_line(level, msg@, rich.deep_view(), secs, nanos),
{
    let ghost pairs = seq![
        ("ts"@, fmt_ts_rfc3339_of(secs, nanos)),
        ("level"@, spec_level_str(level)),
        ("msg"@, msg@),
    ] + rich.deep_view();

    let mut buf = format_ts_display(secs, nanos);
    let ghost stamp = buf@;
    let full = format_ts_rfc3339(secs, nanos);

    append_fragment(&mut buf, "ts", full.as_str());
    proof {
        assert(pairs.take(1).drop_last() =~= pairs.take(0));
        assert(pairs.take(0) =~= Seq::<(Seq<char>, Seq<char>)>::empty());
        assert(pairs.take(1).last() == pairs[0]);
        assert(pairs[0] == ("ts"@, fmt_ts_rfc3339_of(secs, nanos)));
        assert(spec_fragments(pairs.take(0)) =~= Seq::<char>::empty());
        assert(spec_fragments(pairs.take(1)) =~= spec_fragments(pairs.take(0))
            + spec_kv_fragment(pairs[0].0, pairs[0].1));
        assert(buf@ =~= stamp + spec_fragments(pairs.take(1)));
    }
    append_fragment(&mut buf, "level", level.as_str());
    proof {
        assert(pairs.take(2).drop_last() =~= pairs.take(1));
        assert(pairs.take(2).last() == pairs[1]);
        assert(buf@ =~= stamp + spec_fragments(pairs.take(2)));
    }
    append_fragment(&mut buf, "msg", msg);
    proof {
        assert(pairs.take(3).drop_last() =~= pairs.take(2));
        assert(pairs.take(3).last() == pairs[2]);
        assert(buf@ =~= stamp + spec_fragments(pairs.take(3)));
    }

    let mut i: usize = 0;
    while i < rich.len()
        invariant
            i <= rich.len(),
            pairs == seq![
                ("ts"@, fmt_ts_rfc3339_of(secs, nanos)),
                ("level"@, spec_level_str(level)),
                ("msg"@, msg@),
            ] + rich.deep_view(),
            buf@ =~= stamp + spec_fragments(pairs.take(3 + i as int)),
        decreases rich.len() - i,
    {
        let pair = &rich[i];
        proof {
            assert(rich.deep_view()[i as int] == (pair.0@, pair.1@));
            assert(pairs.take(3 + (i + 1)).drop_last() =~= pairs.take(3 + i as int));
            assert(pairs.take(3 + (i + 1)).last() == pairs[3 + i as int]);
            assert(pairs[3 + i as int] == rich.deep_view()[i as int]);
        }
        append_fragment(&mut buf, pair.0.as_str(), pair.1.as_str());
        i = i + 1;
    }
    proof {
        assert(pairs.take(3 + rich.len() as int) =~= pairs);
    }
    buf
}

/// A debug-level line.
pub fn debug(msg: &str, rich: &Vec<(String, String)>, secs: i64, nanos: u32) -> (r: String)
    requires
        0 <= secs <= MAX_TIMESTAMP_SECS,
        nanos < 1_000_000_000,
    ensures
        r@ == spec_log_line(LogLevel::Debug, msg@, rich.deep_view(), secs, nanos),
{
    log_impl(LogLevel::Debug, msg, rich, secs, nanos)
}

/// An info-level line.
pub fn info(msg: &str, rich: &Vec<(String, String)>, secs: i64, nanos: u32) -> (r: String)
    requires
        0 <= secs <= MAX_TIMESTAMP_SECS,
        nanos < 1_000_000_000,
    ensures
        r@ == spec_log_line(LogLevel::Info, msg@, rich.deep_view(), secs, nanos),
{
    log_impl(LogLevel::Info, msg, rich, secs, nanos)
}

/// A warn-level line.
pub fn warn(msg: &str, rich: &Vec<(String, String)>, secs: i64, nanos: u32) -> (r: String)
    requires
        0 <= secs <= MAX_TIMESTAMP_SECS,
        nanos < 1_000_000_000,
    ensures
        r@ == spec_log_line(LogLevel::Warn, msg@, rich.deep_view(), secs, nanos),
{
    log_impl(LogLevel::Warn, msg, rich, secs, nanos)
}

/// An error-level line.
pub fn error(msg: &str, rich: &Vec<(String, String)>, secs: i64, nanos: u32) -> (r: String)
    requires
        0 <= secs <= MAX_TIMESTAMP_SECS,
        nanos < 1_000_000_000,
    ensures
        r@ == spec_log_line(LogLevel::Error, msg@, rich.deep_view(), secs, nanos),
{
    log_impl(LogLevel::Error, msg, rich, secs, nanos)
}

/// A fatal-level line.
pub fn fatal(msg: &str, rich: &Vec<(String, String)>, secs: i64, nanos: u32) -> (r: String)
    requires
        0 <= secs <= MAX_TIMESTAMP_SECS,
        nanos < 1_000_000_000,
    ensures
        r@ == spec_log_line(LogLevel::Fatal, msg@, rich.deep_view(), secs, nanos),
{
    log_impl(LogLevel::Fatal, msg, rich, secs, nanos)
}

} // verus!
