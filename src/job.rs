//! Submission requests, the payloads they produce, and their validation.

use vstd::prelude::*;
use vstd::string::StringExecFns;
use crate::catalog::{JobKind, kind_is_guarded};

verus! {

/// The archive name of a database dump when none is given.
pub const DEFAULT_TARGET_NAME: &'static str = "db-dump.tar.gz";

/// A request to queue one job, with the parameters of its kind.
pub enum Command {
    UpdateDownloads,
    DumpDb { database_url: String, target_name: Option<String> },
    DailyDbMaintenance,
    SquashIndex,
    NormalizeIndex { dry_run: bool },
    CheckTyposquat { name: String },
    SyncAdmins { force: bool },
}

/// The parameters that a queued job carries to the worker.
pub enum JobPayload {
    Unit,
    DumpDb { database_url: String, target_name: String },
    NormalizeIndex { dry_run: bool },
    CheckTyposquat { name: String },
}

/// The mathematical value of a [`JobPayload`].
pub ghost enum PayloadModel {
    Unit,
    DumpDb { database_url: Seq<char>, target_name: Seq<char> },
    NormalizeIndex { dry_run: bool },
    CheckTyposquat { name: Seq<char> },
}

impl View for JobPayload {
    type V = PayloadModel;

    open spec fn view(&self) -> PayloadModel {
        match self {
            JobPayload::Unit => PayloadModel::Unit,
            JobPayload::DumpDb { database_url, target_name } => PayloadModel::DumpDb {
                database_url: database_url@,
                target_name: target_name@,
            },
            JobPayload::NormalizeIndex { dry_run } => PayloadModel::NormalizeIndex {
                dry_run: *dry_run,
            },
            JobPayload::CheckTyposquat { name } => PayloadModel::CheckTyposquat { name: name@ },
        }
    }
}

/// Why a request is refused before it reaches the queue.
#[derive(Clone, Debug, PartialEq, Eq)]
pub enum Rejection {
    /// A typosquat check names the crate `name`, which the registry does not hold.
    CrateNotFound { name: String },
    /// A database dump was requested without a connection secret.
    EmptyDatabaseUrl,
}

pub open spec fn command_kind(c: Command) -> JobKind {
    match c {
        Command::UpdateDownloads => JobKind::UpdateDownloads,
        Command::DumpDb { .. } => JobKind::DumpDb,
        Command::DailyDbMaintenance => JobKind::DailyDbMaintenance,
        Command::SquashIndex => JobKind::SquashIndex,
        Command::NormalizeIndex { .. } => JobKind::NormalizeIndex,
        Command::CheckTyposquat { .. } => JobKind::CheckTyposquat,
        Command::SyncAdmins { .. } => JobKind::SyncAdmins,
    }
}

/// Whether the single-flight guard is consulted for this request.
pub open spec fn guard_applies_spec(c: Command) -> bool {
    match c {
        Command::UpdateDownloads => true,
        Command::SyncAdmins { force } => !force,
        _ => false,
    }
}

/// The archive name that a dump request resolves to.
pub open spec fn resolved_target(t: Option<String>) -> Seq<char> {
    match t {
        Some(s) => s@,
        None => DEFAULT_TARGET_NAME@,
    }
}

/// The outcome of validation: the payload to queue, or the reason for refusal.
/// `crate_exists` tells whether the registry holds the crate that a typosquat
/// check names.
pub open spec fn validation_spec(c: Command, crate_exists: bool) -> Result<PayloadModel, Rejection> {
    match c {
        Command::DumpDb { database_url, target_name } => if database_url@.len() == 0 {
            Err(Rejection::EmptyDatabaseUrl)
        } else {
            Ok(
                PayloadModel::DumpDb {
                    database_url: database_url@,
                    target_name: resolved_target(target_name),
                },
            )
        },
        Command::NormalizeIndex { dry_run } => Ok(PayloadModel::NormalizeIndex { dry_run }),
        Command::CheckTyposquat { name } => if crate_exists {
            Ok(PayloadModel::CheckTyposquat { name: name@ })
        } else {
            Err(Rejection::CrateNotFound { name })
        },
        _ => Ok(PayloadModel::Unit),
    }
}

/// Whether `r` is the executable form of the validation outcome `m`.
pub open spec fn validation_matches(
    r: Result<JobPayload, Rejection>,
    m: Result<PayloadModel, Rejection>,
) -> bool {
    match m {
        Ok(p) => r is Ok && r->Ok_0@ == p,
        Err(e) => r is Err && r->Err_0 == e,
    }
}

/// The text shown to the user for a rejection.
pub open spec fn rejection_text(r: Rejection) -> Seq<char> {
    match r {
        Rejection::CrateNotFound { name } =>
            "cannot enqueue a typosquat check for a crate that doesn't exist: "@ + name@,
        Rejection::EmptyDatabaseUrl => "cannot enqueue a database dump without a database URL"@,
    }
}

impl Rejection {
    /// The text shown to the user, naming the missing crate where there is one.
    pub fn message(&self) -> (r: String)
        ensures
            r@ == rejection_text(*self),
    {
        match self {
            Rejection::CrateNotFound { name } => {
                let mut m = "cannot enqueue a typosquat check for a crate that doesn't exist: ".to_owned();
                m.append(name.as_str());
                m
            },
            Rejection::EmptyDatabaseUrl => "cannot enqueue a database dump without a database URL".to_owned(),
        }
    }
}

impl Command {
    /// The catalog kind of this request.
    pub fn kind(&self) -> (r: JobKind)
        ensures
            r == command_kind(*self),
    {
        match self {
            Command::UpdateDownloads => JobKind::UpdateDownloads,
            Command::DumpDb { .. } => JobKind::DumpDb,
            Command::DailyDbMaintenance => JobKind::DailyDbMaintenance,
            Command::SquashIndex => JobKind::SquashIndex,
            Command::NormalizeIndex { .. } => JobKind::NormalizeIndex,
            Command::CheckTyposquat { .. } => JobKind::CheckTyposquat,
            Command::SyncAdmins { .. } => JobKind::SyncAdmins,
        }
    }

    /// Whether admission of this request first looks for an outstanding job of
    /// its kind: always for download updates, for admin syncs unless forced.
    pub fn guard_applies(&self) -> (r: bool)
        ensures
            r == guard_applies_spec(*self),
            r ==> kind_is_guarded(command_kind(*self)),
    {
        match self {
            Command::UpdateDownloads => true,
            Command::SyncAdmins { force } => !*force,
            _ => false,
        }
    }

    /// The crate name that must exist in the registry before this request is
    /// admitted, if any.
    pub fn required_crate(&self) -> (r: Option<&String>)
        ensures
            match *self {
                Command::CheckTyposquat { name } => r == Some(&name),
                _ => r is None,
            },
    {
        match self {
            Command::CheckTyposquat { name } => Some(name),
            _ => None,
        }
    }
}

/// Checks a request's parameters and builds the payload to queue.
/// `crate_exists` is only read for a typosquat check.
pub fn validate(c: &Command, crate_exists: bool) -> (r: Result<JobPayload, Rejection>)
    ensures
        validation_matches(r, validation_spec(*c, crate_exists)),
{
    match c {
        Command::DumpDb { database_url, target_name } => {
            if database_url.as_str().is_empty() {
                return Err(Rejection::EmptyDatabaseUrl);
            }
            let target = match target_name {
                Some(t) => t.clone(),
                None => DEFAULT_TARGET_NAME.to_owned(),
            };
            Ok(JobPayload::DumpDb { database_url: database_url.clone(), target_name: target })
        },
        Command::NormalizeIndex { dry_run } => Ok(JobPayload::NormalizeIndex { dry_run: *dry_run }),
        Command::CheckTyposquat { name } => {
            if crate_exists {
                Ok(JobPayload::CheckTyposquat { name: name.clone() })
            } else {
                Err(Rejection::CrateNotFound { name: name.clone() })
            }
        },
        _ => Ok(JobPayload::Unit),
    }
}

} // verus!
