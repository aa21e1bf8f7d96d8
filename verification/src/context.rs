//! What one run shares between its items: the time partition, the container
//! and the host under which stored objects are reached.

use crate::error::ErrorKind;
use crate::naming::separator;
use crate::text::{chars_of, split, split_text};
use vstd::prelude::*;

verus! {

/// Whether `c` is one of the ten decimal digits.
pub open spec fn is_digit(c: char) -> bool {
    '0' <= c && c <= '9'
}

/// Whether `level` is a non-empty run of decimal digits.
pub open spec fn is_number(level: Seq<char>) -> bool {
    level.len() > 0 && forall|i: int| 0 <= i < level.len() ==> is_digit(#[trigger] level[i])
}

/// Whether `text` is a time partition: year, month, day and hour, with or
/// without a minute, each a number, with a separator between them.
pub open spec fn is_time_partition(text: Seq<char>) -> bool {
    let levels = split(text, separator());
    (levels.len() == 4 || levels.len() == 5) && forall|k: int|
        0 <= k < levels.len() ==> is_number(#[trigger] levels[k])
}

/// The host under which stored objects are publicly reached.
#[derive(Debug)]
pub enum PublicHost {
    /// The storage account's own host, named by the account.
    Account(String),
    /// A host that the operator configured in its place.
    Vanity(String),
}

/// The context of a run, made once and read by every item.
#[derive(Debug)]
pub struct RunContext {
    /// The time partition under which this run stores its objects.
    pub run_timestamp: String,
    /// The container that receives the objects.
    pub container_name: String,
    /// The host of the addresses handed out.
    pub host: PublicHost,
}

impl RunContext {
    /// A context is well formed when its time partition is one.
    pub open spec fn wf(&self) -> bool {
        is_time_partition(self.run_timestamp@)
    }
}

/// Checks that `level` is a non-empty run of decimal digits.
pub fn check_number(level: &str) -> (ok: bool)
    ensures
        ok == is_number(level@),
{
    let chars = chars_of(level);
    if chars.len() == 0 {
        return false;
    }
    let mut i: usize = 0;
    while i < chars.len()
        invariant
            i <= chars.len(),
            chars@ == level@,
            forall|j: int| 0 <= j < i ==> is_digit(#[trigger] chars@[j]),
        decreases chars.len() - i,
    {
        let c = chars[i];
        if !('0' <= c && c <= '9') {
            return false;
        }
        i += 1;
    }
    true
}

/// Checks that `text` is a time partition.
pub fn check_time_partition(text: &str) -> (ok: bool)
    ensures
        ok == is_time_partition(text@),
{
    let levels = split_text(text, '/');
    if levels.len() != 4 && levels.len() != 5 {
        return false;
    }
    let mut k: usize = 0;
    while k < levels.len()
        invariant
            k <= levels.len(),
            levels.deep_view() == split(text@, separator()),
            forall|j: int| 0 <= j < k ==> is_number(#[trigger] split(text@, separator())[j]),
        decreases levels.len() - k,
    {
        assert(levels.deep_view()[k as int] == levels@[k as int]@);
        if !check_number(levels[k].as_str()) {
            return false;
        }
        k += 1;
    }
    true
}

/// Calls `std::time::SystemTime::now` and measures the time since
/// `std::time::UNIX_EPOCH` with `duration_since`, in whole seconds. Nothing
/// is promised of the number: it depends on the system clock. A clock set
/// before the epoch gives none.
#[verifier::external_body]
fn unix_seconds_now() -> (secs: Option<u64>) {
    match std::time::SystemTime::now().duration_since(std::time::UNIX_EPOCH) {
        Ok(elapsed) => Some(elapsed.as_secs()),
        Err(_) => None,
    }
}

/// The hour in UTC of the instant `secs` seconds after the epoch, as
/// `chrono` writes it with year, month, day and hour separated by slashes;
/// nothing for an instant outside the range of dates that `chrono` holds.
pub uninterp spec fn utc_hour_text(secs: i64) -> Option<Seq<char>>;

/// Calls `chrono::DateTime::from_timestamp` and, where that gives an
/// instant, formats it with `chrono::DateTime::format` as year, month, day
/// and hour. Trusted: whether there is such an instant, and the text written
/// for it, depend on the number of seconds alone.
#[verifier::external_body]
fn utc_hour_partition_at(secs: i64) -> (text: Option<String>)
    ensures
        match text {
            Some(t) => utc_hour_text(secs) == Some(t@),
            None => utc_hour_text(secs) is None,
        },
{
    match chrono::DateTime::from_timestamp(secs, 0) {
        Some(instant) => Some(instant.format("%Y/%m/%d/%H").to_string()),
        None => None,
    }
}

/// The time partition of a run that starts `secs` seconds after the epoch:
/// the hour in UTC, where there is one and it is written as a time
/// partition.
pub open spec fn partition_at(secs: u64) -> Option<Seq<char>> {
    if secs <= i64::MAX {
        match utc_hour_text(secs as i64) {
            Some(text) => if is_time_partition(text) {
                Some(text)
            } else {
                None
            },
            None => None,
        }
    } else {
        None
    }
}

impl RunContext {
    /// Makes the context of a run from its configuration and a time
    /// partition. A text that is no time partition is refused as unusable
    /// configuration.
    pub fn new(run_timestamp: String, container_name: String, host: PublicHost) -> (r: Result<
        RunContext,
        ErrorKind,
    >)
        ensures
            match r {
                Ok(ctx) => is_time_partition(run_timestamp@) && ctx.run_timestamp == run_timestamp
                    && ctx.container_name == container_name && ctx.host == host && ctx.wf(),
                Err(e) => !is_time_partition(run_timestamp@) && e == ErrorKind::ConfigurationError,
            },
    {
        if check_time_partition(run_timestamp.as_str()) {
            Ok(RunContext { run_timestamp, container_name, host })
        } else {
            Err(ErrorKind::ConfigurationError)
        }
    }

    /// Makes the context of a run that starts `secs` seconds after the
    /// epoch: its time partition is that instant's hour in UTC. An instant
    /// that has no such partition is refused as unusable configuration.
    pub fn started_at(secs: u64, container_name: String, host: PublicHost) -> (r: Result<
        RunContext,
        ErrorKind,
    >)
        ensures
            match r {
                Ok(ctx) => partition_at(secs) == Some(ctx.run_timestamp@) && ctx.container_name
                    == container_name && ctx.host == host && ctx.wf(),
                Err(e) => partition_at(secs) is None && e == ErrorKind::ConfigurationError,
            },
    {
        if secs > i64::MAX as u64 {
            return Err(ErrorKind::ConfigurationError);
        }
        match utc_hour_partition_at(secs as i64) {
            Some(text) => RunContext::new(text, container_name, host),
            None => Err(ErrorKind::ConfigurationError),
        }
    }

    /// Makes the context of a run that starts now, by the system clock.
    /// Whatever the clock gives, a context that comes back is well formed
    /// and holds the configuration given; a clock that gives no instant with
    /// a time partition is unusable configuration.
    pub fn start(container_name: String, host: PublicHost) -> (r: Result<RunContext, ErrorKind>)
        ensures
            match r {
                Ok(ctx) => ctx.wf() && ctx.container_name == container_name && ctx.host == host
                    && exists|secs: u64| #[trigger] partition_at(secs) == Some(ctx.run_timestamp@),
                Err(e) => e == ErrorKind::ConfigurationError,
            },
    {
        match unix_seconds_now() {
            Some(secs) => RunContext::started_at(secs, container_name, host),
            None => Err(ErrorKind::ConfigurationError),
        }
    }
}

} // verus!
