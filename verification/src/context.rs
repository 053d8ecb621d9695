//! Where the program keeps its data, and the lock marker among it.
//!
//! Automatic theme switching is locked while a marker file exists. The
//! library decides what locking and unlocking ask of that file; creating,
//! removing and looking for it is the caller's part.

use vstd::prelude::*;

verus! {

/// What is to be done with the lock marker.
#[derive(Clone, Copy, Debug, PartialEq, Eq, Structural)]
pub enum MarkerOp {
    /// Nothing: the marker is already as asked.
    Keep,
    /// The marker file is to be created.
    Create,
    /// The marker file is to be removed.
    Remove,
}

/// What locking asks of the marker, given whether it exists.
pub open spec fn plan_lock(marker_exists: bool) -> MarkerOp {
    if marker_exists {
        MarkerOp::Keep
    } else {
        MarkerOp::Create
    }
}

/// What unlocking asks of the marker, given whether it exists.
pub open spec fn plan_unlock(marker_exists: bool) -> MarkerOp {
    if marker_exists {
        MarkerOp::Remove
    } else {
        MarkerOp::Keep
    }
}

/// Whether the marker exists once `op` has been carried out.
pub open spec fn marker_after(marker_exists: bool, op: MarkerOp) -> bool {
    match op {
        MarkerOp::Keep => marker_exists,
        MarkerOp::Create => true,
        MarkerOp::Remove => false,
    }
}

/// Locking is idempotent: whatever the marker was, after locking it
/// exists, and locking again asks for nothing and leaves it in place.
pub proof fn lemma_lock_is_idempotent(marker_exists: bool)
    ensures
        marker_after(marker_exists, plan_lock(marker_exists)),
        plan_lock(marker_after(marker_exists, plan_lock(marker_exists))) == MarkerOp::Keep,
        plan_lock(true) == MarkerOp::Keep && marker_after(true, MarkerOp::Keep),
{
}

/// Unlocking is idempotent: whatever the marker was, after unlocking it is
/// gone, and unlocking again asks for nothing and leaves it absent.
pub proof fn lemma_unlock_is_idempotent(marker_exists: bool)
    ensures
        !marker_after(marker_exists, plan_unlock(marker_exists)),
        plan_unlock(marker_after(marker_exists, plan_unlock(marker_exists))) == MarkerOp::Keep,
        plan_unlock(false) == MarkerOp::Keep && !marker_after(false, MarkerOp::Keep),
{
}

/// Unlocking undoes locking and locking undoes unlocking.
pub proof fn lemma_lock_and_unlock_undo_each_other(marker_exists: bool)
    ensures
        !marker_after(true, plan_unlock(marker_after(marker_exists, plan_lock(marker_exists)))),
        marker_after(false, plan_lock(marker_after(marker_exists, plan_unlock(marker_exists)))),
{
}

/// The places where the program keeps its data.
#[derive(Debug, Clone, PartialEq, Eq)]
pub struct DataRepo {
    /// The program's directory under the user's data directory.
    pub app_data_dir: String,
    /// The marker file whose existence means that the theme is locked.
    pub theme_lock_file: String,
}

impl DataRepo {
    /// A repository at the given places.
    pub fn new(app_data_dir: String, theme_lock_file: String) -> (repo: DataRepo)
        ensures
            repo.app_data_dir == app_data_dir,
            repo.theme_lock_file == theme_lock_file,
    {
        DataRepo { app_data_dir, theme_lock_file }
    }

    /// What locking the theme asks of the marker file: nothing where it
    /// exists, its creation where it does not. The theme's name plays no
    /// part.
    pub fn lock_theme(&self, _theme: &str, marker_exists: bool) -> (op: MarkerOp)
        ensures
            op == plan_lock(marker_exists),
    {
        if marker_exists {
            MarkerOp::Keep
        } else {
            MarkerOp::Create
        }
    }

    /// What unlocking the theme asks of the marker file: its removal where
    /// it exists, nothing where it does not.
    pub fn unlock_theme(&self, marker_exists: bool) -> (op: MarkerOp)
        ensures
            op == plan_unlock(marker_exists),
    {
        if marker_exists {
            MarkerOp::Remove
        } else {
            MarkerOp::Keep
        }
    }
}

/// What one run of the program works with.
#[derive(Debug, Clone, PartialEq, Eq)]
pub struct Context {
    pub data: DataRepo,
}

impl Context {
    pub fn new(data: DataRepo) -> (ctx: Context)
        ensures
            ctx.data == data,
    {
        Self { data }
    }
}

} // verus!
