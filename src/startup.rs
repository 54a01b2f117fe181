//! Start-up choices: where the meeting comes from and the meeting used when no
//! stored one exists.
use vstd::prelude::*;
use vstd::string::StringExecFns;
use crate::meeting::Meeting;

verus! {

/// Meeting ids above this value belong to the remote meeting service; ids up to
/// it name meetings stored locally.
pub const REMOTE_ID_THRESHOLD: i64 = 10_000_000;

/// Where a meeting is read from at start-up.
#[derive(Debug, Clone, Copy, PartialEq, Eq, Structural)]
pub enum MeetingSource {
    /// Fetched from the remote meeting service.
    Remote,
    /// Loaded from the local store, or started fresh when none is stored.
    Local,
}

/// Options given on the command line: the meeting id and, optionally, how many
/// seconds the meeting has already run.
#[derive(Debug, Clone, Copy, PartialEq, Eq, Structural)]
pub struct Opts {
    pub meeting_id: i64,
    pub ellapsed: Option<i64>,
}

/// Nanoseconds in a second.
pub const NANOS_PER_SECOND: u32 = 1_000_000_000;

/// Seconds in a day.
pub const SECONDS_PER_DAY: u32 = 86_400;

/// A time of day: whole seconds since midnight and the nanoseconds past them. A
/// leap second is written as nanoseconds from one to two billion at the last
/// second of a minute.
#[derive(Debug, Clone, Copy, PartialEq, Eq, Structural)]
pub struct TimeOfDay {
    pub seconds: u32,
    pub nanos: u32,
}

impl TimeOfDay {
    /// Whether this is a time of day that exists: within the day, and a leap
    /// second only at the end of a minute.
    pub open spec fn valid(self) -> bool {
        &&& self.seconds < 86_400
        &&& self.nanos < 2_000_000_000
        &&& self.nanos >= 1_000_000_000 ==> self.seconds % 60 == 59
    }

    /// Nanoseconds since midnight.
    pub open spec fn nanos_since_midnight(self) -> int {
        self.seconds * 1_000_000_000 + self.nanos
    }
}

/// Whole seconds from `start` to `end`, rounded towards zero; negative when
/// `end` is the earlier time of day. Outside leap seconds this is the plain
/// difference of the two times. A leap second is counted as a second of its own
/// when the span runs from inside one to a later second, or from a later second
/// back into one; the fraction of the span is taken from the nanoseconds alone.
pub open spec fn whole_seconds_between(start: TimeOfDay, end: TimeOfDay) -> int {
    let leap: int = if end.seconds > start.seconds && start.nanos >= 1_000_000_000 {
        1
    } else if end.seconds < start.seconds && end.nanos >= 1_000_000_000 {
        -1
    } else {
        0
    };
    let frac: int = end.nanos - start.nanos;
    let total: int = end.seconds - start.seconds + leap + frac / 1_000_000_000;
    if total < 0 && frac % 1_000_000_000 > 0 {
        total + 1
    } else {
        total
    }
}

/// Outside leap seconds the span between two times of day is their difference
/// in nanoseconds, rounded towards zero to whole seconds.
pub proof fn lemma_whole_seconds_plain(start: TimeOfDay, end: TimeOfDay)
    requires
        start.nanos < 1_000_000_000,
        end.nanos < 1_000_000_000,
    ensures
        ({
            let d = end.nanos_since_midnight() - start.nanos_since_midnight();
            whole_seconds_between(start, end) == if d >= 0 {
                d / 1_000_000_000
            } else {
                -((-d) / 1_000_000_000)
            }
        }),
{
    let d = end.nanos_since_midnight() - start.nanos_since_midnight();
    let s = end.seconds - start.seconds;
    let f = end.nanos - start.nanos;
    assert(d == s * 1_000_000_000 + f);
    assert(-1_000_000_000 < f < 1_000_000_000);
    if f >= 0 {
        assert(f / 1_000_000_000 == 0);
        assert(d / 1_000_000_000 == s + f / 1_000_000_000) by (nonlinear_arith)
            requires
                d == s * 1_000_000_000 + f,
                0 <= f < 1_000_000_000,
        ;
    } else {
        assert(f / 1_000_000_000 == -1);
    }
    assert(d >= 0 ==> d / 1_000_000_000 == s + f / 1_000_000_000) by (nonlinear_arith)
        requires
            d == s * 1_000_000_000 + f,
            -1_000_000_000 < f < 1_000_000_000,
    ;
    assert(d < 0 ==> (-d) / 1_000_000_000 == if f % 1_000_000_000 > 0 {
        -(s + f / 1_000_000_000) - 1
    } else {
        -(s + f / 1_000_000_000)
    }) by (nonlinear_arith)
        requires
            d == s * 1_000_000_000 + f,
            -1_000_000_000 < f < 1_000_000_000,
    ;
}

/// Relies on chrono: `NaiveTime::from_num_seconds_from_midnight_opt` builds
/// both times (it returns `None` only for times that do not exist),
/// `NaiveTime - NaiveTime` gives the span between them, and
/// `TimeDelta::num_seconds` its whole seconds, rounded towards zero; the span
/// counts leap seconds as `NaiveTime::signed_duration_since` does.
#[verifier::external_body]
fn seconds_between(start: TimeOfDay, end: TimeOfDay) -> (r: i64)
    requires
        start.valid(),
        end.valid(),
    ensures
        r == whole_seconds_between(start, end),
{
    let from = chrono::NaiveTime::from_num_seconds_from_midnight_opt(start.seconds, start.nanos);
    let to = chrono::NaiveTime::from_num_seconds_from_midnight_opt(end.seconds, end.nanos);
    (to.unwrap() - from.unwrap()).num_seconds()
}

/// Name of a meeting started fresh.
pub open spec fn fresh_name() -> Seq<char> {
    "MEETING"@
}

impl Meeting {
    /// A meeting of the remote service with an empty roster, that has run since
    /// it was created: from the time of day `created` to the time of day `now`,
    /// both in the same time zone. A span that comes out negative, as when
    /// midnight lies between the two, counts as zero. `None` when either time
    /// does not exist.
    pub fn from_remote(meeting_id: i64, topic: String, created: TimeOfDay, now: TimeOfDay) -> (r:
        Option<Meeting>)
        ensures
            !(created.valid() && now.valid()) ==> r.is_none(),
            created.valid() && now.valid() ==> r is Some,
            r matches Some(m) ==> {
                &&& m.id == meeting_id
                &&& m.name@ == topic@
                &&& m.attendees@.len() == 0
                &&& m.duration_seconds == (if whole_seconds_between(created, now) < 0 {
                    0
                } else {
                    whole_seconds_between(created, now)
                })
            },
    {
        if !time_exists(created) || !time_exists(now) {
            return None;
        }
        let elapsed = seconds_between(created, now);
        Some(Meeting::new(meeting_id, topic, Some(elapsed)))
    }
}

/// Whether a time of day exists.
pub fn time_exists(t: TimeOfDay) -> (r: bool)
    ensures
        r == t.valid(),
{
    t.seconds < SECONDS_PER_DAY && t.nanos < 2 * NANOS_PER_SECOND && (t.nanos < NANOS_PER_SECOND
        || t.seconds % 60 == 59)
}

impl Opts {
    /// Where the meeting with this id is read from.
    pub fn source(&self) -> (r: MeetingSource)
        ensures
            r == (if self.meeting_id > REMOTE_ID_THRESHOLD {
                MeetingSource::Remote
            } else {
                MeetingSource::Local
            }),
    {
        if self.meeting_id > REMOTE_ID_THRESHOLD {
            MeetingSource::Remote
        } else {
            MeetingSource::Local
        }
    }

    /// The meeting started when the store holds none under this id: the
    /// placeholder name, an empty roster and the given elapsed time.
    pub fn fresh_meeting(&self) -> (r: Meeting)
        ensures
            r.id == self.meeting_id,
            r.name@ == fresh_name(),
            r.duration_seconds == match self.ellapsed {
                Some(e) => if e < 0 { 0 } else { e },
                None => 0,
            },
            r.attendees@.len() == 0,
    {
        Meeting::new(self.meeting_id, String::from_str("MEETING"), self.ellapsed)
    }
}

} // verus!
