//! Properties of submission that hold over every queue and every request.

use vstd::prelude::*;
use crate::catalog::{JobKind, kind_name};
use crate::job::{Command, DEFAULT_TARGET_NAME, PayloadModel, Rejection, command_kind, validation_spec};
use crate::store::{EntryModel, count_named, lemma_count_push};
use crate::submit::{Outcome, queue_after, submit_outcome};

verus! {

/// A request with valid parameters, when no job of its kind is outstanding
/// and identifiers remain, is enqueued under the next identifier, in an entry
/// whose job type is the catalog name of its kind.
pub proof fn lemma_valid_request_enqueued(
    queue: Seq<EntryModel>,
    next_id: u64,
    crate_exists: bool,
    c: Command,
)
    requires
        validation_spec(c, crate_exists) is Ok,
        count_named(queue, kind_name(command_kind(c))) == 0,
        next_id < u64::MAX,
    ensures
        submit_outcome(queue, next_id, crate_exists, c) == (Outcome::Enqueued { id: next_id }),
        queue_after(queue, next_id, crate_exists, c).len() == queue.len() + 1,
        queue_after(queue, next_id, crate_exists, c).last().job_type == kind_name(command_kind(c)),
        queue_after(queue, next_id, crate_exists, c).last().payload == validation_spec(
            c,
            crate_exists,
        )->Ok_0,
{
}

/// A typosquat check of a crate that the registry does not hold is rejected
/// with a rejection that names that crate, and the queue is left as it was.
pub proof fn lemma_missing_crate_rejected(queue: Seq<EntryModel>, next_id: u64, name: String)
    ensures
        submit_outcome(queue, next_id, false, Command::CheckTyposquat { name }) == (Outcome::Rejected {
            reason: Rejection::CrateNotFound { name },
        }),
        queue_after(queue, next_id, false, Command::CheckTyposquat { name }) == queue,
{
}

/// Two download updates in a row, the first not yet consumed: the first is
/// enqueued, the second skipped, and one entry of that kind is outstanding.
pub proof fn lemma_update_downloads_single_flight(queue: Seq<EntryModel>, next_id: u64, crate_exists: bool)
    requires
        count_named(queue, kind_name(JobKind::UpdateDownloads)) == 0,
        next_id < u64::MAX,
    ensures
        submit_outcome(queue, next_id, crate_exists, Command::UpdateDownloads) == (Outcome::Enqueued {
            id: next_id,
        }),
        submit_outcome(
            queue_after(queue, next_id, crate_exists, Command::UpdateDownloads),
            (next_id + 1) as u64,
            crate_exists,
            Command::UpdateDownloads,
        ) == (Outcome::Skipped { kind: JobKind::UpdateDownloads }),
        queue_after(
            queue_after(queue, next_id, crate_exists, Command::UpdateDownloads),
            (next_id + 1) as u64,
            crate_exists,
            Command::UpdateDownloads,
        ) == queue_after(queue, next_id, crate_exists, Command::UpdateDownloads),
        count_named(
            queue_after(queue, next_id, crate_exists, Command::UpdateDownloads),
            kind_name(JobKind::UpdateDownloads),
        ) == 1,
{
    let e = EntryModel {
        id: next_id,
        job_type: kind_name(JobKind::UpdateDownloads),
        payload: PayloadModel::Unit,
    };
    lemma_count_push(queue, e, kind_name(JobKind::UpdateDownloads));
}

/// A forced admin sync is enqueued whatever is outstanding; an unforced one is
/// skipped while an admin sync is outstanding.
pub proof fn lemma_sync_admins_force(queue: Seq<EntryModel>, next_id: u64, crate_exists: bool)
    ensures
        next_id < u64::MAX ==> submit_outcome(
            queue,
            next_id,
            crate_exists,
            Command::SyncAdmins { force: true },
        ) == (Outcome::Enqueued { id: next_id }),
        count_named(queue, kind_name(JobKind::SyncAdmins)) > 0 ==> submit_outcome(
            queue,
            next_id,
            crate_exists,
            Command::SyncAdmins { force: false },
        ) == (Outcome::Skipped { kind: JobKind::SyncAdmins }),
{
}

/// A database dump without a connection secret is rejected and queues
/// nothing; with a secret and no archive name, the queued payload carries the
/// default archive name.
pub proof fn lemma_dump_db_secret_and_default(
    queue: Seq<EntryModel>,
    next_id: u64,
    crate_exists: bool,
    database_url: String,
)
    ensures
        database_url@.len() == 0 ==> submit_outcome(
            queue,
            next_id,
            crate_exists,
            Command::DumpDb { database_url, target_name: None },
        ) == (Outcome::Rejected { reason: Rejection::EmptyDatabaseUrl }) && queue_after(
            queue,
            next_id,
            crate_exists,
            Command::DumpDb { database_url, target_name: None },
        ) == queue,
        database_url@.len() > 0 && next_id < u64::MAX ==> queue_after(
            queue,
            next_id,
            crate_exists,
            Command::DumpDb { database_url, target_name: None },
        ).last().payload == (PayloadModel::DumpDb {
            database_url: database_url@,
            target_name: DEFAULT_TARGET_NAME@,
        }),
{
}

/// A rejected submission leaves the queue as it was, so submitting the same
/// request again is rejected once more and still changes nothing.
pub proof fn lemma_rejection_leaves_queue(
    queue: Seq<EntryModel>,
    next_id: u64,
    crate_exists: bool,
    c: Command,
)
    requires
        submit_outcome(queue, next_id, crate_exists, c) is Rejected,
    ensures
        queue_after(queue, next_id, crate_exists, c) == queue,
        queue_after(queue, next_id, crate_exists, c).len() == queue.len(),
        submit_outcome(queue_after(queue, next_id, crate_exists, c), next_id, crate_exists, c)
            == submit_outcome(queue, next_id, crate_exists, c),
{
}

} // verus!
