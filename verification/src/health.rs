//! Health reports of a running server.

use vstd::prelude::*;
use crate::clock::{Elapsed, system_now, time_between, unix_epoch};
use crate::json::{Json, JsonV, obj2, unsigned, unsigned_view, members_view, no_members, object_of, push_member};
use crate::text::copy_str;

verus! {

broadcast use vstd::string::group_string_axioms;

/// A health report.
#[derive(Debug)]
pub struct HealthStatus {
    pub status: String,
    pub timestamp: u64,
    pub version: String,
    pub session_count: Option<usize>,
    pub uptime_seconds: u64,
    pub metadata: Option<Json>,
}

/// The metadata of a report when the caller gives none.
pub open spec fn default_metadata(server_name: Seq<char>) -> JsonV {
    JsonV::Object(seq![("server_name"@, JsonV::Str(server_name)), ("protocol_version"@, JsonV::Str("2025-06-18"@))])
}

/// The JSON form of a report: every field, absent ones as `null`.
pub open spec fn status_members(s: HealthStatus) -> Seq<(Seq<char>, JsonV)> {
    seq![
        ("status"@, JsonV::Str(s.status@)),
        ("timestamp"@, unsigned_view(s.timestamp as nat)),
        ("version"@, JsonV::Str(s.version@)),
        ("session_count"@, match s.session_count {
            Some(n) => unsigned_view(n as nat),
            None => JsonV::Null,
        }),
        ("uptime_seconds"@, unsigned_view(s.uptime_seconds as nat)),
        ("metadata"@, match s.metadata {
            Some(m) => m@,
            None => JsonV::Null,
        }),
    ]
}

/// The JSON report of server `name` at `version`, at Unix time `timestamp` after
/// `uptime` seconds of running, with the default metadata.
pub open spec fn status_json_view(
    name: Seq<char>,
    version: Seq<char>,
    timestamp: u64,
    uptime: u64,
    session_count: Option<usize>,
) -> JsonV {
    JsonV::Object(
        seq![
            ("status"@, JsonV::Str("healthy"@)),
            ("timestamp"@, unsigned_view(timestamp as nat)),
            ("version"@, JsonV::Str(version)),
            ("session_count"@, match session_count {
                Some(n) => unsigned_view(n as nat),
                None => JsonV::Null,
            }),
            ("uptime_seconds"@, unsigned_view(uptime as nat)),
            ("metadata"@, default_metadata(name)),
        ],
    )
}

impl HealthStatus {
    /// The JSON form of this report.
    pub fn to_json(&self) -> (r: Json)
        ensures
            r@ == JsonV::Object(status_members(*self)),
    {
        let mut es = no_members();
        push_member(&mut es, "status", Json::string(self.status.as_str()));
        push_member(&mut es, "timestamp", unsigned(self.timestamp));
        push_member(&mut es, "version", Json::string(self.version.as_str()));
        let count = match self.session_count {
            Some(n) => unsigned(n as u64),
            None => Json::Null,
        };
        push_member(&mut es, "session_count", count);
        push_member(&mut es, "uptime_seconds", unsigned(self.uptime_seconds));
        let meta = match &self.metadata {
            Some(m) => m.deep_copy(),
            None => Json::Null,
        };
        push_member(&mut es, "metadata", meta);
        assert(members_view(es@) =~= status_members(*self));
        object_of(es)
    }
}

/// Reports the health of a server: its name and version, and how long it has run.
#[derive(Debug)]
pub struct HealthChecker {
    start_time: Elapsed,
    version: String,
    server_name: String,
}

/// The total nanoseconds of a span.
pub open spec fn total_nanos(e: Elapsed) -> int {
    e.secs * 1_000_000_000 + e.nanos
}

/// The whole seconds from `start` to `now` (`SystemTime::duration_since` read with
/// `as_secs`), 0 when `now` is earlier; both are spans since the start of Unix time.
pub open spec fn whole_secs_between(start: Elapsed, now: Elapsed) -> nat {
    if now.secs > start.secs || (now.secs == start.secs && now.nanos >= start.nanos) {
        if now.nanos >= start.nanos {
            (now.secs - start.secs) as nat
        } else {
            (now.secs - start.secs - 1) as nat
        }
    } else {
        0
    }
}

/// Uptime is measured in whole seconds: from a start to a later time it is the number of
/// whole seconds in between, and it is 0 at the start itself and before it.
pub proof fn lemma_whole_secs_between(start: Elapsed, now: Elapsed)
    requires
        start.valid(),
        now.valid(),
    ensures
        total_nanos(now) >= total_nanos(start) ==> whole_secs_between(start, now) * 1_000_000_000 <= total_nanos(now)
            - total_nanos(start) < (whole_secs_between(start, now) + 1) * 1_000_000_000,
        total_nanos(now) < total_nanos(start) ==> whole_secs_between(start, now) == 0,
        whole_secs_between(start, now) <= now.secs,
        now.secs >= start.secs ==> whole_secs_between(start, now) <= now.secs - start.secs,
        whole_secs_between(start, start) == 0,
{
}

/// A reading of the system clock as a span since the start of Unix time; a clock that
/// reads an earlier time counts as that start.
fn unix_time_now() -> (r: Elapsed)
    ensures
        r.valid(),
{
    match time_between(&system_now(), &unix_epoch()) {
        Some(e) => e,
        None => Elapsed { secs: 0, nanos: 0 },
    }
}

impl HealthChecker {
    /// The server's version.
    pub closed spec fn spec_version(&self) -> Seq<char> {
        self.version@
    }

    /// The server's name.
    pub closed spec fn spec_server_name(&self) -> Seq<char> {
        self.server_name@
    }

    /// When the checker started, as a span since the start of Unix time.
    pub closed spec fn started(&self) -> Elapsed {
        self.start_time
    }

    /// A checker for server `server_name` at `version`, started now.
    pub fn new(server_name: String, version: String) -> (r: Self)
        ensures
            r.spec_version() == version@,
            r.spec_server_name() == server_name@,
            r.started().valid(),
    {
        HealthChecker { start_time: unix_time_now(), version, server_name }
    }

    /// The current report: healthy, with the clock's Unix time and the whole seconds
    /// since the checker started, both from one reading of the clock (each 0 when the
    /// clock reads an earlier time).
    pub fn get_status(&self, session_count: Option<usize>, metadata: Option<Json>) -> (r: HealthStatus)
        ensures
            exists|now: Elapsed|
                now.valid() && r.timestamp == now.secs && r.uptime_seconds == whole_secs_between(self.started(), now),
            r.status@ == "healthy"@,
            r.version@ == self.spec_version(),
            r.session_count == session_count,
            match metadata {
                Some(m) => r.metadata == Some(m),
                None => r.metadata matches Some(d) && d@ == default_metadata(self.spec_server_name()),
            },
    {
        let now = unix_time_now();
        let start = self.start_time;
        let uptime_seconds: u64 = if now.secs > start.secs || (now.secs == start.secs && now.nanos >= start.nanos) {
            if now.nanos >= start.nanos {
                now.secs - start.secs
            } else {
                now.secs - start.secs - 1
            }
        } else {
            0
        };
        self.status_at(now.secs, uptime_seconds, session_count, metadata)
    }

    /// The current report as JSON, with the default metadata; the time and uptime are
    /// whatever the clock gives.
    pub fn get_json_status(&self, session_count: Option<usize>) -> (r: Json)
        ensures
            exists|timestamp: u64, uptime: u64|
                r@ == status_json_view(self.spec_server_name(), self.spec_version(), timestamp, uptime, session_count),
    {
        let status = self.get_status(session_count, None);
        let r = status.to_json();
        let ghost expected = status_json_view(
            self.spec_server_name(),
            self.spec_version(),
            status.timestamp,
            status.uptime_seconds,
            session_count,
        );
        proof {
            if let JsonV::Object(members) = expected {
                assert(status_members(status) =~= members);
            }
        }
        assert(r@ == expected);
        r
    }

    /// The report at Unix time `timestamp` after `uptime_seconds` of running: healthy,
    /// with the session count given, and the metadata given or else the server's name
    /// and protocol version.
    pub fn status_at(
        &self,
        timestamp: u64,
        uptime_seconds: u64,
        session_count: Option<usize>,
        metadata: Option<Json>,
    ) -> (r: HealthStatus)
        ensures
            r.status@ == "healthy"@,
            r.timestamp == timestamp,
            r.uptime_seconds == uptime_seconds,
            r.version@ == self.spec_version(),
            r.session_count == session_count,
            match metadata {
                Some(m) => r.metadata == Some(m),
                None => r.metadata matches Some(d) && d@ == default_metadata(self.spec_server_name()),
            },
    {
        let metadata = match metadata {
            Some(m) => Some(m),
            None => Some(
                obj2(
                    "server_name",
                    Json::string(self.server_name.as_str()),
                    "protocol_version",
                    Json::string("2025-06-18"),
                ),
            ),
        };
        HealthStatus {
            status: copy_str("healthy"),
            timestamp,
            version: copy_str(self.version.as_str()),
            session_count,
            uptime_seconds,
            metadata,
        }
    }
}

impl Default for HealthChecker {
    fn default() -> (r: Self)
        ensures
            r.spec_server_name() == "mcp-server"@,
            r.spec_version() == "0.1.0"@,
    {
        HealthChecker::new(copy_str("mcp-server"), copy_str("0.1.0"))
    }
}

} // verus!
