//! Liveness and readiness of the service.

use vstd::prelude::*;

verus! {

/// What is known of the database when readiness is asked for.
#[derive(Debug, Clone, Copy, PartialEq, Eq, Structural)]
pub enum DatabaseState {
    /// No database is configured.
    Absent,
    /// The database answered the probe.
    Up,
    /// The probe failed.
    Down,
}

/// The answer to a liveness probe.
#[derive(Debug, Clone, Copy, PartialEq, Eq)]
pub struct LiveReply {
    pub code: u16,
    pub status: &'static str,
}

/// The answer to a readiness probe.
#[derive(Debug, Clone, Copy, PartialEq, Eq)]
pub struct ReadyReply {
    pub code: u16,
    pub status: &'static str,
    pub database: &'static str,
}

/// Whether the service may receive traffic: the database answers, or none
/// is configured and none is required.
pub open spec fn is_ready(database: DatabaseState, database_required: bool) -> bool {
    match database {
        DatabaseState::Up => true,
        DatabaseState::Down => false,
        DatabaseState::Absent => !database_required,
    }
}

/// The word that a readiness reply has for the database.
pub open spec fn database_label(database: DatabaseState, database_required: bool) -> Seq<char> {
    match database {
        DatabaseState::Up => "ok"@,
        DatabaseState::Down => "down"@,
        DatabaseState::Absent => if database_required {
            "missing"@
        } else {
            "disabled"@
        },
    }
}

/// Answers a liveness probe: the process runs.
pub fn live() -> (r: LiveReply)
    ensures
        r.code == 200,
        r.status@ == "ok"@,
{
    LiveReply { code: 200, status: "ok" }
}

/// Answers a readiness probe from the state of the database.
pub fn ready(database: DatabaseState, database_required: bool) -> (r: ReadyReply)
    ensures
        r.code == (if is_ready(database, database_required) {
            200int
        } else {
            503int
        }),
        r.status@ == (if is_ready(database, database_required) {
            "ready"@
        } else {
            "not_ready"@
        }),
        r.database@ == database_label(database, database_required),
{
    match database {
        DatabaseState::Up => ReadyReply { code: 200, status: "ready", database: "ok" },
        DatabaseState::Down => ReadyReply { code: 503, status: "not_ready", database: "down" },
        DatabaseState::Absent => {
            if database_required {
                ReadyReply { code: 503, status: "not_ready", database: "missing" }
            } else {
                ReadyReply { code: 200, status: "ready", database: "disabled" }
            }
        },
    }
}

} // verus!
