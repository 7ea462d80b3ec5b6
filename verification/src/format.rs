//! The formatting step: turns a raw event plus timestamp into an optional
//! formatted payload, and the default human-readable text format.

use vstd::prelude::*;
use vstd::string::StringExecFns;
use crate::level::Level;
use crate::record::LogRecord;

verus! {

/// A pure formatting step: given a wall-clock timestamp (milliseconds since
/// the UNIX epoch) and one event, produce a formatted payload of type `Out`,
/// or nothing to suppress the event entirely.
pub trait FormatStep: Sized {
    /// The formatted payload type.
    type Out;

    /// What this step may produce for a given timestamp and event: the
    /// relation every result of `format` satisfies.
    spec fn format_spec(&self, now_millis: u64, record: LogRecord, r: Option<Self::Out>) -> bool;

    /// Produce the payload for one event, or `None` to suppress it.
    fn format(&self, now_millis: u64, record: &LogRecord) -> (r: Option<Self::Out>)
        ensures
            self.format_spec(now_millis, *record, r),
    ;
}

/// The bracketed single-letter tag of a level in the default text format.
pub open spec fn level_tag(level: Level) -> Seq<char> {
    match level {
        Level::Error => "[E]"@,
        Level::Warn => "[W]"@,
        Level::Info => "[I]"@,
        Level::Debug => "[D]"@,
        Level::Trace => "[T]"@,
    }
}

/// What `format_utc` returns: the fixed human-readable UTC rendering of a
/// millisecond timestamp. The rendering depends on the timestamp alone.
pub uninterp spec fn utc_time_text(millis: int) -> Seq<char>;

/// Timestamps at or beyond this bound (about 253,000 years into the common
/// era, in milliseconds) are suppressed rather than rendered; the bound stays
/// well inside the range the calendar arithmetic accepts.
pub const TIMESTAMP_LIMIT_MILLIS: u64 = 8_000_000_000_000_000;

/// Relies on `chrono::DateTime::<Utc>::from_timestamp_millis`, which returns
/// `Some` for any millisecond count within about 262,000 years of the common
/// era (the bound demanded here stays well inside that), and on
/// `format_with_items` rendering with the fixed strftime items
/// `%d.%m.%Y %H:%M:%S%.3f UTC`: the text depends on the timestamp alone.
#[verifier::external_body]
fn format_utc(millis: u64) -> (r: String)
    requires
        millis < TIMESTAMP_LIMIT_MILLIS,
    ensures
        r@ == utc_time_text(millis as int),
{
    let items = chrono::format::StrftimeItems::new("%d.%m.%Y %H:%M:%S%.3f UTC");
    let dt = chrono::DateTime::from_timestamp_millis(millis as i64).unwrap();
    dt.format_with_items(items).to_string()
}

/// The one-line record of the default text format: bracketed level tag,
/// human-readable UTC timestamp, opaque thread identifier and rendered
/// message, separated by `" - "` and newline-terminated.
pub open spec fn default_line(now_millis: u64, record: LogRecord) -> Seq<char> {
    level_tag(record.level) + " - "@ + utc_time_text(now_millis as int) + " - "@ + record.thread@
        + " - "@ + record.message@ + "\n"@
}

/// Emit one line of the default text format for an event, or suppress the
/// event when its timestamp lies beyond what the calendar rendering accepts.
pub fn default_format(now_millis: u64, record: &LogRecord) -> (r: Option<String>)
    ensures
        now_millis < TIMESTAMP_LIMIT_MILLIS ==> (r matches Some(line) && line@ == default_line(
            now_millis,
            *record,
        )),
        now_millis >= TIMESTAMP_LIMIT_MILLIS ==> r is None,
{
    if now_millis >= TIMESTAMP_LIMIT_MILLIS {
        return None;
    }
    let prefix: &str = match record.level {
        Level::Error => "[E]",
        Level::Warn => "[W]",
        Level::Info => "[I]",
        Level::Debug => "[D]",
        Level::Trace => "[T]",
    };
    let time = format_utc(now_millis);
    let mut buf = String::new();
    buf.append(prefix);
    buf.append(" - ");
    buf.append(time.as_str());
    buf.append(" - ");
    buf.append(record.thread.as_str());
    buf.append(" - ");
    buf.append(record.message.as_str());
    buf.append("\n");
    proof {
        assert(buf@ =~= default_line(now_millis, *record));
    }
    Some(buf)
}

/// The stock formatting step: the default human-readable text format.
pub struct DefaultFormat;

impl FormatStep for DefaultFormat {
    type Out = String;

    open spec fn format_spec(&self, now_millis: u64, record: LogRecord, r: Option<String>) -> bool {
        if now_millis < TIMESTAMP_LIMIT_MILLIS {
            r matches Some(line) && line@ == default_line(now_millis, record)
        } else {
            r is None
        }
    }

    fn format(&self, now_millis: u64, record: &LogRecord) -> (r: Option<String>) {
        default_format(now_millis, record)
    }
}

} // verus!
