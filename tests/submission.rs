use enqueue_job::catalog::{all_kinds, JobKind};
use enqueue_job::job::{validate, Command, JobPayload, Rejection, DEFAULT_TARGET_NAME};
use enqueue_job::store::{CrateRegistry, QueueStore, StoreFailure};
use enqueue_job::submit::{admission, submit, Admission, Outcome};

fn registry_with(names: &[&str]) -> CrateRegistry {
    let mut r = CrateRegistry::new();
    for n in names {
        r.add_crate(n.to_string());
    }
    r
}

#[test]
fn catalog_has_seven_kinds_with_stable_names() {
    let kinds = all_kinds();
    assert_eq!(kinds.len(), 7);
    let names: Vec<&str> = kinds.iter().map(|k| k.job_name()).collect();
    assert_eq!(
        names,
        vec![
            "update_downloads",
            "dump_db",
            "daily_db_maintenance",
            "squash_index",
            "normalize_index",
            "check_typosquat",
            "sync_admins",
        ]
    );
    assert!(JobKind::UpdateDownloads.is_guarded());
    assert!(JobKind::SyncAdmins.is_guarded());
    assert!(!JobKind::DumpDb.is_guarded());
}

#[test]
fn every_kind_enqueues_on_an_empty_queue() {
    let registry = registry_with(&["serde"]);
    let commands = vec![
        Command::UpdateDownloads,
        Command::DumpDb { database_url: "postgres://replica".to_string(), target_name: None },
        Command::DailyDbMaintenance,
        Command::SquashIndex,
        Command::NormalizeIndex { dry_run: false },
        Command::CheckTyposquat { name: "serde".to_string() },
        Command::SyncAdmins { force: false },
    ];
    for c in &commands {
        let mut queue = QueueStore::new();
        let outcome = submit(&mut queue, &registry, c);
        assert_eq!(outcome, Outcome::Enqueued { id: 1 });
        assert_eq!(queue.len(), 1);
        assert_eq!(queue.get(0).job_type, c.kind().job_name());
        assert_eq!(queue.get(0).id, 1);
    }
}

#[test]
fn typosquat_check_of_missing_crate_is_rejected() {
    let registry = registry_with(&["serde", "tokio"]);
    let mut queue = QueueStore::new();
    let outcome = submit(&mut queue, &registry, &Command::CheckTyposquat { name: "serde_json".to_string() });
    let reason = Rejection::CrateNotFound { name: "serde_json".to_string() };
    assert_eq!(outcome, Outcome::Rejected { reason: reason.clone() });
    assert_eq!(
        reason.message(),
        "cannot enqueue a typosquat check for a crate that doesn't exist: serde_json"
    );
    assert_eq!(queue.len(), 0);
}

#[test]
fn typosquat_check_payload_names_the_crate() {
    let registry = registry_with(&["tokio"]);
    let mut queue = QueueStore::new();
    let outcome = submit(&mut queue, &registry, &Command::CheckTyposquat { name: "tokio".to_string() });
    assert_eq!(outcome, Outcome::Enqueued { id: 1 });
    match &queue.get(0).payload {
        JobPayload::CheckTyposquat { name } => assert_eq!(name, "tokio"),
        _ => panic!("unexpected payload"),
    }
}

#[test]
fn update_downloads_twice_is_enqueued_then_skipped() {
    let registry = CrateRegistry::new();
    let mut queue = QueueStore::new();
    assert_eq!(submit(&mut queue, &registry, &Command::UpdateDownloads), Outcome::Enqueued { id: 1 });
    assert_eq!(
        submit(&mut queue, &registry, &Command::UpdateDownloads),
        Outcome::Skipped { kind: JobKind::UpdateDownloads }
    );
    assert_eq!(queue.count_of_kind(JobKind::UpdateDownloads), 1);
    assert_eq!(queue.len(), 1);
}

#[test]
fn unguarded_kinds_accumulate() {
    let registry = CrateRegistry::new();
    let mut queue = QueueStore::new();
    assert_eq!(submit(&mut queue, &registry, &Command::SquashIndex), Outcome::Enqueued { id: 1 });
    assert_eq!(submit(&mut queue, &registry, &Command::SquashIndex), Outcome::Enqueued { id: 2 });
    assert_eq!(queue.count_of_kind(JobKind::SquashIndex), 2);
    assert_eq!(queue.count_of_kind(JobKind::UpdateDownloads), 0);
}

#[test]
fn sync_admins_force_bypasses_the_guard() {
    let registry = CrateRegistry::new();
    let mut queue = QueueStore::new();
    assert_eq!(submit(&mut queue, &registry, &Command::SyncAdmins { force: false }), Outcome::Enqueued { id: 1 });
    assert_eq!(
        submit(&mut queue, &registry, &Command::SyncAdmins { force: false }),
        Outcome::Skipped { kind: JobKind::SyncAdmins }
    );
    assert_eq!(submit(&mut queue, &registry, &Command::SyncAdmins { force: true }), Outcome::Enqueued { id: 2 });
    assert_eq!(submit(&mut queue, &registry, &Command::SyncAdmins { force: true }), Outcome::Enqueued { id: 3 });
    assert_eq!(queue.count_of_kind(JobKind::SyncAdmins), 3);
}

#[test]
fn dump_db_without_secret_is_rejected() {
    let registry = CrateRegistry::new();
    let mut queue = QueueStore::new();
    let c = Command::DumpDb { database_url: String::new(), target_name: None };
    assert_eq!(submit(&mut queue, &registry, &c), Outcome::Rejected { reason: Rejection::EmptyDatabaseUrl });
    assert_eq!(
        Rejection::EmptyDatabaseUrl.message(),
        "cannot enqueue a database dump without a database URL"
    );
    assert_eq!(queue.len(), 0);
}

#[test]
fn dump_db_uses_the_default_archive_name() {
    let registry = CrateRegistry::new();
    let mut queue = QueueStore::new();
    let c = Command::DumpDb { database_url: "postgres://replica".to_string(), target_name: None };
    assert_eq!(submit(&mut queue, &registry, &c), Outcome::Enqueued { id: 1 });
    match &queue.get(0).payload {
        JobPayload::DumpDb { database_url, target_name } => {
            assert_eq!(database_url, "postgres://replica");
            assert_eq!(target_name, "db-dump.tar.gz");
            assert_eq!(target_name, DEFAULT_TARGET_NAME);
        }
        _ => panic!("unexpected payload"),
    }
}

#[test]
fn dump_db_keeps_a_given_archive_name() {
    let c = Command::DumpDb {
        database_url: "postgres://replica".to_string(),
        target_name: Some("nightly.tar.gz".to_string()),
    };
    match validate(&c, false) {
        Ok(JobPayload::DumpDb { target_name, .. }) => assert_eq!(target_name, "nightly.tar.gz"),
        _ => panic!("unexpected validation result"),
    }
}

#[test]
fn repeated_rejections_leave_the_queue_alone() {
    let registry = registry_with(&["serde"]);
    let mut queue = QueueStore::new();
    assert_eq!(submit(&mut queue, &registry, &Command::DailyDbMaintenance), Outcome::Enqueued { id: 1 });
    let before = queue.len();
    for _ in 0..3 {
        let c = Command::CheckTyposquat { name: "missing".to_string() };
        assert_eq!(
            submit(&mut queue, &registry, &c),
            Outcome::Rejected { reason: Rejection::CrateNotFound { name: "missing".to_string() } }
        );
        let d = Command::DumpDb { database_url: String::new(), target_name: None };
        assert_eq!(submit(&mut queue, &registry, &d), Outcome::Rejected { reason: Rejection::EmptyDatabaseUrl });
    }
    assert_eq!(queue.len(), before);
}

#[test]
fn normalize_index_dry_run_reaches_the_payload() {
    let registry = CrateRegistry::new();
    let mut queue = QueueStore::new();
    assert_eq!(all_kinds().len(), 7);
    let outcome = submit(&mut queue, &registry, &Command::NormalizeIndex { dry_run: true });
    assert_eq!(outcome, Outcome::Enqueued { id: 1 });
    assert_eq!(queue.get(0).job_type, "normalize_index");
    match &queue.get(0).payload {
        JobPayload::NormalizeIndex { dry_run } => assert!(*dry_run),
        _ => panic!("unexpected payload"),
    }
}

#[test]
fn admission_decisions() {
    match admission(&Command::UpdateDownloads, true, true) {
        Admission::Skip(k) => assert_eq!(k, JobKind::UpdateDownloads),
        _ => panic!("expected a skip"),
    }
    match admission(&Command::SyncAdmins { force: true }, true, true) {
        Admission::Enqueue(k, JobPayload::Unit) => assert_eq!(k, JobKind::SyncAdmins),
        _ => panic!("expected an enqueue"),
    }
    match admission(&Command::CheckTyposquat { name: "x".to_string() }, false, false) {
        Admission::Reject(r) => assert_eq!(r, Rejection::CrateNotFound { name: "x".to_string() }),
        _ => panic!("expected a rejection"),
    }
    match admission(&Command::SquashIndex, true, true) {
        Admission::Enqueue(k, JobPayload::Unit) => assert_eq!(k, JobKind::SquashIndex),
        _ => panic!("expected an enqueue"),
    }
}

#[test]
fn exhausted_identifiers_fail_the_write() {
    let registry = CrateRegistry::new();
    let mut queue = QueueStore::with_next_id(u64::MAX - 1);
    assert_eq!(submit(&mut queue, &registry, &Command::SquashIndex), Outcome::Enqueued { id: u64::MAX - 1 });
    assert_eq!(
        submit(&mut queue, &registry, &Command::SquashIndex),
        Outcome::Failed { failure: StoreFailure::IdsExhausted }
    );
    assert_eq!(queue.len(), 1);
}
