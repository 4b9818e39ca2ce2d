use backend::health::{live, ready, DatabaseState};

#[test]
fn live_is_ok() {
    let reply = live();
    assert_eq!(reply.code, 200);
    assert_eq!(reply.status, "ok");
}

#[test]
fn ready_without_database() {
    let reply = ready(DatabaseState::Absent, false);
    assert_eq!(reply.code, 200);
    assert_eq!(reply.status, "ready");
    assert_eq!(reply.database, "disabled");
}

#[test]
fn ready_with_required_database_missing() {
    let reply = ready(DatabaseState::Absent, true);
    assert_eq!(reply.code, 503);
    assert_eq!(reply.status, "not_ready");
    assert_eq!(reply.database, "missing");
}

#[test]
fn ready_follows_the_probe() {
    let up = ready(DatabaseState::Up, true);
    assert_eq!((up.code, up.status, up.database), (200, "ready", "ok"));
    let down = ready(DatabaseState::Down, false);
    assert_eq!((down.code, down.status, down.database), (503, "not_ready", "down"));
}
