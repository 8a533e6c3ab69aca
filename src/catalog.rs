//! The closed set of job kinds and their stable queue names.

use vstd::prelude::*;

verus! {

/// One kind of background work that can be queued.
#[derive(Clone, Copy, Debug, PartialEq, Eq, Structural)]
pub enum JobKind {
    UpdateDownloads,
    DumpDb,
    DailyDbMaintenance,
    SquashIndex,
    NormalizeIndex,
    CheckTyposquat,
    SyncAdmins,
}

/// The stable name under which a kind is stored in the queue.
pub open spec fn kind_name(k: JobKind) -> Seq<char> {
    match k {
        JobKind::UpdateDownloads => "update_downloads"@,
        JobKind::DumpDb => "dump_db"@,
        JobKind::DailyDbMaintenance => "daily_db_maintenance"@,
        JobKind::SquashIndex => "squash_index"@,
        JobKind::NormalizeIndex => "normalize_index"@,
        JobKind::CheckTyposquat => "check_typosquat"@,
        JobKind::SyncAdmins => "sync_admins"@,
    }
}

/// Whether a kind takes part in single-flight admission at all.
pub open spec fn kind_is_guarded(k: JobKind) -> bool {
    k == JobKind::UpdateDownloads || k == JobKind::SyncAdmins
}

/// Every kind of the catalog, in declaration order.
pub open spec fn catalog_spec() -> Seq<JobKind> {
    seq![
        JobKind::UpdateDownloads,
        JobKind::DumpDb,
        JobKind::DailyDbMaintenance,
        JobKind::SquashIndex,
        JobKind::NormalizeIndex,
        JobKind::CheckTyposquat,
        JobKind::SyncAdmins,
    ]
}

impl JobKind {
    /// The stable queue name of this kind.
    pub fn job_name(&self) -> (r: &'static str)
        ensures
            r@ == kind_name(*self),
    {
        match self {
            JobKind::UpdateDownloads => "update_downloads",
            JobKind::DumpDb => "dump_db",
            JobKind::DailyDbMaintenance => "daily_db_maintenance",
            JobKind::SquashIndex => "squash_index",
            JobKind::NormalizeIndex => "normalize_index",
            JobKind::CheckTyposquat => "check_typosquat",
            JobKind::SyncAdmins => "sync_admins",
        }
    }

    /// Whether this kind can be subject to the single-flight guard.
    pub fn is_guarded(&self) -> (r: bool)
        ensures
            r == kind_is_guarded(*self),
    {
        match self {
            JobKind::UpdateDownloads | JobKind::SyncAdmins => true,
            _ => false,
        }
    }
}

/// All kinds of the catalog.
pub fn all_kinds() -> (r: Vec<JobKind>)
    ensures
        r@ == catalog_spec(),
{
    let r = vec![
        JobKind::UpdateDownloads,
        JobKind::DumpDb,
        JobKind::DailyDbMaintenance,
        JobKind::SquashIndex,
        JobKind::NormalizeIndex,
        JobKind::CheckTyposquat,
        JobKind::SyncAdmins,
    ];
    assert(r@ =~= catalog_spec());
    r
}

/// The catalog holds exactly seven kinds, each once, and every kind is in it.
pub proof fn lemma_catalog_complete(k: JobKind)
    ensures
        catalog_spec().len() == 7,
        catalog_spec().contains(k),
        forall|i: int, j: int|
            0 <= i < j < 7 ==> #[trigger] catalog_spec()[i] != #[trigger] catalog_spec()[j],
{
    match k {
        JobKind::UpdateDownloads => assert(catalog_spec()[0] == k),
        JobKind::DumpDb => assert(catalog_spec()[1] == k),
        JobKind::DailyDbMaintenance => assert(catalog_spec()[2] == k),
        JobKind::SquashIndex => assert(catalog_spec()[3] == k),
        JobKind::NormalizeIndex => assert(catalog_spec()[4] == k),
        JobKind::CheckTyposquat => assert(catalog_spec()[5] == k),
        JobKind::SyncAdmins => assert(catalog_spec()[6] == k),
    }
}

/// Distinct kinds have distinct queue names, so a count by name is a count by kind.
pub proof fn lemma_kind_name_injective(a: JobKind, b: JobKind)
    ensures
        kind_name(a) == kind_name(b) <==> a == b,
{
    reveal_strlit("update_downloads");
    reveal_strlit("dump_db");
    reveal_strlit("daily_db_maintenance");
    reveal_strlit("squash_index");
    reveal_strlit("normalize_index");
    reveal_strlit("check_typosquat");
    reveal_strlit("sync_admins");
    if a != b {
        assert(kind_name(a)[0] != kind_name(b)[0] || kind_name(a)[1] != kind_name(b)[1]
            || kind_name(a).len() != kind_name(b).len());
    }
}

} // verus!
