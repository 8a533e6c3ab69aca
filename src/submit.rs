//! One submission: validation, the single-flight guard, and the queue write.

use vstd::prelude::*;
use crate::catalog::{JobKind, kind_name};
use crate::job::{
    Command, JobPayload, Rejection, command_kind, guard_applies_spec, validate, validation_spec,
};
use crate::store::{CrateRegistry, EntryModel, QueueStore, StoreFailure, count_named};

verus! {

/// What a submission came to.
#[derive(Clone, Debug, PartialEq, Eq)]
pub enum Outcome {
    /// A new entry was queued under this identifier.
    Enqueued { id: u64 },
    /// A job of this kind is already outstanding; nothing was queued.
    Skipped { kind: JobKind },
    /// The parameters were refused; nothing was queued.
    Rejected { reason: Rejection },
    /// The queue refused the write.
    Failed { failure: StoreFailure },
}

/// The decision taken on a request once the stores have been read.
pub enum Admission {
    Reject(Rejection),
    Skip(JobKind),
    Enqueue(JobKind, JobPayload),
}

/// Whether the registry `registry` holds the crate that request `c` needs;
/// requests of other kinds need none.
pub open spec fn crate_exists_spec(registry: Seq<Seq<char>>, c: Command) -> bool {
    match c {
        Command::CheckTyposquat { name } => registry.contains(name@),
        _ => true,
    }
}

/// The decision on `c`, given whether its crate exists and whether a job of
/// its kind is outstanding.
pub open spec fn admission_matches(r: Admission, c: Command, crate_exists: bool, outstanding: bool) -> bool {
    match validation_spec(c, crate_exists) {
        Err(e) => r == Admission::Reject(e),
        Ok(p) => if guard_applies_spec(c) && outstanding {
            r == Admission::Skip(command_kind(c))
        } else {
            r is Enqueue && r->Enqueue_0 == command_kind(c) && r->Enqueue_1@ == p
        },
    }
}

/// The outcome of submitting `c` to a queue holding `queue` whose next
/// identifier is `next_id`.
pub open spec fn submit_outcome(
    queue: Seq<EntryModel>,
    next_id: u64,
    crate_exists: bool,
    c: Command,
) -> Outcome {
    match validation_spec(c, crate_exists) {
        Err(e) => Outcome::Rejected { reason: e },
        Ok(p) => if guard_applies_spec(c) && count_named(queue, kind_name(command_kind(c))) > 0 {
            Outcome::Skipped { kind: command_kind(c) }
        } else if next_id == u64::MAX {
            Outcome::Failed { failure: StoreFailure::IdsExhausted }
        } else {
            Outcome::Enqueued { id: next_id }
        },
    }
}

/// The queue after submitting `c`: one entry more exactly when it was enqueued.
pub open spec fn queue_after(
    queue: Seq<EntryModel>,
    next_id: u64,
    crate_exists: bool,
    c: Command,
) -> Seq<EntryModel> {
    match submit_outcome(queue, next_id, crate_exists, c) {
        Outcome::Enqueued { id } => queue.push(
            EntryModel {
                id,
                job_type: kind_name(command_kind(c)),
                payload: validation_spec(c, crate_exists)->Ok_0,
            },
        ),
        _ => queue,
    }
}

/// Decides on request `c`. `crate_exists` tells whether the crate that
/// [`Command::required_crate`] names exists; `outstanding` whether a job of
/// the request's kind is queued, and is read only where
/// [`Command::guard_applies`] holds.
pub fn admission(c: &Command, crate_exists: bool, outstanding: bool) -> (r: Admission)
    ensures
        admission_matches(r, *c, crate_exists, outstanding),
{
    match validate(c, crate_exists) {
        Err(e) => Admission::Reject(e),
        Ok(p) => {
            if c.guard_applies() && outstanding {
                Admission::Skip(c.kind())
            } else {
                Admission::Enqueue(c.kind(), p)
            }
        },
    }
}

/// Submits request `c`: validates it against `registry`, consults the
/// single-flight guard where it applies, and appends the job to `queue`.
pub fn submit(queue: &mut QueueStore, registry: &CrateRegistry, c: &Command) -> (r: Outcome)
    requires
        old(queue).wf(),
    ensures
        final(queue).wf(),
        r == submit_outcome(old(queue)@, old(queue).next_id_spec(), crate_exists_spec(registry@, *c), *c),
        final(queue)@ == queue_after(old(queue)@, old(queue).next_id_spec(), crate_exists_spec(registry@, *c), *c),
        final(queue).next_id_spec() == if r is Enqueued {
            (old(queue).next_id_spec() + 1) as u64
        } else {
            old(queue).next_id_spec()
        },
{
    let crate_exists = match c.required_crate() {
        Some(name) => registry.contains(name),
        None => true,
    };
    let outstanding = if c.guard_applies() {
        queue.has_kind(c.kind())
    } else {
        false
    };
    match admission(c, crate_exists, outstanding) {
        Admission::Reject(e) => Outcome::Rejected { reason: e },
        Admission::Skip(k) => Outcome::Skipped { kind: k },
        Admission::Enqueue(k, p) => match queue.append(k, p) {
            Ok(id) => Outcome::Enqueued { id },
            Err(e) => Outcome::Failed { failure: e },
        },
    }
}

} // verus!
