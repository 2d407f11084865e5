//! What happens when the server starts.

use vstd::prelude::*;

verus! {

/// Whether one of the steps before `n` failed.
pub open spec fn fails_before(worked: Seq<bool>, n: int) -> bool {
    exists|i: int| 0 <= i < n && !#[trigger] worked[i]
}

/// Finds the first index of the database that could not be made; in production the server does
/// not start where there is one. Elsewhere it starts in any case.
pub fn ensure_indexes(worked: &Vec<bool>, production: bool) -> (r: Option<usize>)
    ensures
        match r {
            Some(i) => production && i < worked@.len() && !worked@[i as int] && !fails_before(
                worked@,
                i as int,
            ),
            None => !production || !fails_before(worked@, worked@.len() as int),
        },
{
    if !production {
        return None;
    }
    let mut i: usize = 0;
    while i < worked.len()
        invariant
            i <= worked.len(),
            production,
            !fails_before(worked@, i as int),
        decreases worked.len() - i,
    {
        if !worked[i] {
            return Some(i);
        }
        i += 1;
    }
    None
}

/// Whether a report of stored files is worth a line, and which: what was removed or is missing
/// counts before what was only counted anew.
#[derive(Clone, Copy, Debug, PartialEq, Eq)]
pub enum ReconcileNote {
    Removed,
    UsageRebuilt,
    Nothing,
}

/// Decides which line a report of stored files is worth.
pub fn reconcile_note(orphans_deleted: u64, missing: u64, usage_updated: u64) -> (r: ReconcileNote)
    ensures
        r == (if orphans_deleted > 0 || missing > 0 {
            ReconcileNote::Removed
        } else if usage_updated > 0 {
            ReconcileNote::UsageRebuilt
        } else {
            ReconcileNote::Nothing
        }),
{
    if orphans_deleted > 0 || missing > 0 {
        ReconcileNote::Removed
    } else if usage_updated > 0 {
        ReconcileNote::UsageRebuilt
    } else {
        ReconcileNote::Nothing
    }
}

/// The word for whether approval is on.
#[verifier::allow_in_spec]
pub fn whitelist_word(enabled: bool) -> &'static str
    returns
        (if enabled {
            "enabled"
        } else {
            "disabled"
        }),
{
    if enabled {
        "enabled"
    } else {
        "disabled"
    }
}

} // verus!
