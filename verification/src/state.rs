//! Process-wide shared state: the profile store behind a reader/writer
//! lock.
//!
//! Any number of readers may proceed together; a mutation takes the
//! exclusive write lock for exactly one logical operation — no lock is
//! held across a user-interaction step. Only well-formed stores go into
//! the lock, so every reader sees the store invariant. Each mutating
//! operation hands back the store as it was before and after the change,
//! so the caller can persist the new state and roll back in memory if
//! persistence fails.

use vstd::prelude::*;
use vstd::rwlock::{RwLock, RwLockPredicate};
use vstd::string::*;
use crate::errors::AppError;
use crate::provider::{AppType, Provider};
use crate::store::{has_id, idx_of, ProfileStore};

verus! {

/// The lock invariant: only a store satisfying its invariant may be
/// stored.
pub struct StoreInv {}

impl RwLockPredicate<ProfileStore> for StoreInv {
    open spec fn inv(self, v: ProfileStore) -> bool {
        v.wf()
    }
}

/// The process-wide application state: the one piece of shared mutable
/// state, guarded by a single reader/writer lock.
pub struct AppState {
    config: RwLock<ProfileStore, StoreInv>,
}

/// Builds the shared state around a loaded store snapshot. A snapshot
/// that breaks the store invariant is rejected, so everything behind the
/// lock is well formed.
pub fn get_state(config: ProfileStore) -> (r: Result<AppState, AppError>)
    ensures
        r is Ok <==> config.wf(),
{
    if config.validate() {
        Ok(AppState { config: RwLock::new(config, Ghost(StoreInv {  })) })
    } else {
        Err(
            AppError::InvalidInput(
                String::from_str("the loaded profile store is not well formed"),
            ),
        )
    }
}

impl AppState {
    #[verifier::type_invariant]
    spec fn lock_wf(self) -> bool {
        self.config.pred() == (StoreInv {  })
    }

    /// A copy of the whole store, taken under a read lock.
    pub fn snapshot(&self) -> (r: ProfileStore)
        ensures
            r.wf(),
    {
        proof {
            use_type_invariant(self);
        }
        let handle = self.config.acquire_read();
        let snap = handle.borrow().duplicate();
        handle.release_read();
        snap
    }

    /// Adds a profile under the write lock. On success returns the store
    /// before and after the change, for persistence and rollback.
    pub fn add(&self, p: Provider) -> (r: Result<(ProfileStore, ProfileStore), AppError>)
        ensures
            match r {
                Ok(pair) => {
                    let (b, a) = pair;
                    &&& b.wf() && a.wf()
                    &&& !has_id(b.part_of(p.app_type).providers@, p.id@)
                    &&& a.part_of(p.app_type).providers@ == b.part_of(p.app_type).providers@.push(
                        p,
                    )
                    &&& a.part_of(p.app_type).active == b.part_of(p.app_type).active
                    &&& a.others_unchanged(b, p.app_type)
                },
                Err(e) => e is Conflict,
            },
    {
        proof {
            use_type_invariant(self);
        }
        let (mut store, handle) = self.config.acquire_write();
        let before = store.duplicate();
        let r = store.add(p);
        match r {
            Ok(_) => {
                let after = store.duplicate();
                handle.release_write(store);
                Ok((before, after))
            },
            Err(e) => {
                handle.release_write(store);
                Err(e)
            },
        }
    }

    /// Replaces a stored profile under the write lock. On success
    /// returns the store before and after the change.
    pub fn update(&self, id: &String, updated: Provider) -> (r: Result<
        (ProfileStore, ProfileStore),
        AppError,
    >)
        requires
            updated.id@ == id@,
        ensures
            match r {
                Ok(pair) => {
                    let (b, a) = pair;
                    let t = updated.app_type;
                    let ps = b.part_of(t).providers@;
                    &&& b.wf() && a.wf()
                    &&& has_id(ps, id@)
                    &&& a.part_of(t).providers@ == ps.update(idx_of(ps, id@), updated)
                    &&& a.part_of(t).active == b.part_of(t).active
                    &&& a.others_unchanged(b, t)
                },
                Err(e) => e is NotFound || e is InvalidInput,
            },
    {
        proof {
            use_type_invariant(self);
        }
        let (mut store, handle) = self.config.acquire_write();
        let matches_type = match store.get(id) {
            Some(existing) => existing.app_type == updated.app_type,
            None => true,
        };
        if !matches_type {
            handle.release_write(store);
            return Err(
                AppError::InvalidInput(
                    String::from_str("a profile never changes its tool family"),
                ),
            );
        }
        let before = store.duplicate();
        let r = store.update(id, updated);
        match r {
            Ok(_) => {
                let after = store.duplicate();
                handle.release_write(store);
                Ok((before, after))
            },
            Err(e) => {
                handle.release_write(store);
                Err(e)
            },
        }
    }

    /// Removes a profile under the write lock, clearing the active
    /// pointer that named it. On success returns the store before and
    /// after the change.
    pub fn remove(&self, id: &String) -> (r: Result<(ProfileStore, ProfileStore), AppError>)
        ensures
            match r {
                Ok(pair) => {
                    let (b, a) = pair;
                    let t = b.type_of_id(id@);
                    let ps = b.part_of(t).providers@;
                    &&& b.wf() && a.wf()
                    &&& b.contains_id(id@)
                    &&& a.part_of(t).providers@ == ps.remove(idx_of(ps, id@))
                    &&& !has_id(a.part_of(t).providers@, id@)
                    &&& match b.part_of(t).active {
                        Some(x) => if x@ == id@ {
                            a.part_of(t).active is None
                        } else {
                            a.part_of(t).active == b.part_of(t).active
                        },
                        None => a.part_of(t).active is None,
                    }
                    &&& a.others_unchanged(b, t)
                },
                Err(e) => e is NotFound,
            },
    {
        proof {
            use_type_invariant(self);
        }
        let (mut store, handle) = self.config.acquire_write();
        let before = store.duplicate();
        let r = store.remove(id);
        match r {
            Ok(_) => {
                let after = store.duplicate();
                handle.release_write(store);
                Ok((before, after))
            },
            Err(e) => {
                handle.release_write(store);
                Err(e)
            },
        }
    }

    /// Activates a profile for its family under the write lock. On
    /// success returns the store before and after the change.
    pub fn set_active(&self, t: AppType, id: &String) -> (r: Result<
        (ProfileStore, ProfileStore),
        AppError,
    >)
        ensures
            match r {
                Ok(pair) => {
                    let (b, a) = pair;
                    &&& b.wf() && a.wf()
                    &&& has_id(b.part_of(t).providers@, id@)
                    &&& a.part_of(t).providers@ == b.part_of(t).providers@
                    &&& (a.part_of(t).active matches Some(x) && x@ == id@)
                    &&& a.others_unchanged(b, t)
                },
                Err(e) => e is NotFound || e is InvalidInput,
            },
    {
        proof {
            use_type_invariant(self);
        }
        let (mut store, handle) = self.config.acquire_write();
        let before = store.duplicate();
        let r = store.set_active(t, id);
        match r {
            Ok(_) => {
                let after = store.duplicate();
                handle.release_write(store);
                Ok((before, after))
            },
            Err(e) => {
                handle.release_write(store);
                Err(e)
            },
        }
    }

    /// A copy of the stored profile with the given identifier, read
    /// under a read lock.
    pub fn get(&self, id: &String) -> (r: Option<Provider>)
        ensures
            r matches Some(p) ==> p.id@ == id@,
    {
        proof {
            use_type_invariant(self);
        }
        let handle = self.config.acquire_read();
        let r = match handle.borrow().get(id) {
            Some(p) => Some(p.duplicate()),
            None => None,
        };
        handle.release_read();
        r
    }

    /// Copies of a family's profiles in display order, read under a read
    /// lock.
    pub fn list(&self, t: AppType) -> (r: Vec<Provider>)
        ensures
            forall|i: int| 0 <= i < r@.len() ==> (#[trigger] r@[i]).app_type == t,
    {
        proof {
            use_type_invariant(self);
        }
        let handle = self.config.acquire_read();
        let r = handle.borrow().list(t);
        handle.release_read();
        r
    }

    /// A copy of a family's active profile, read under a read lock; the
    /// result belongs to that family.
    pub fn get_active(&self, t: AppType) -> (r: Option<Provider>)
        ensures
            r matches Some(p) ==> p.app_type == t,
    {
        proof {
            use_type_invariant(self);
        }
        let handle = self.config.acquire_read();
        let store = handle.borrow();
        let r = store.get_active(t);
        proof {
            match store.part_of(t).active {
                Some(a) => {
                    let ps = store.part_of(t).providers@;
                    let w = idx_of(ps, a@);
                },
                None => {},
            }
        }
        handle.release_read();
        r
    }

    /// Replaces the store with an earlier snapshot under the write lock:
    /// the rollback after a failed persistence call. A snapshot that
    /// breaks the store invariant is rejected.
    pub fn try_restore(&self, snap: &ProfileStore) -> (r: Result<(), AppError>)
        ensures
            r is Ok <==> snap.wf(),
    {
        proof {
            use_type_invariant(self);
        }
        if !snap.validate() {
            return Err(
                AppError::InvalidInput(
                    String::from_str("the snapshot to restore is not well formed"),
                ),
            );
        }
        let (store, handle) = self.config.acquire_write();
        let mut store = store;
        store.restore(snap);
        handle.release_write(store);
        Ok(())
    }
}

/// Relies on `std::time::SystemTime::now` and
/// `SystemTime::duration_since` the Unix epoch: the current time in whole
/// seconds. Nothing can be promised of the clock's value except that the
/// result is never negative.
#[verifier::external_body]
pub fn current_timestamp() -> (r: i64)
    ensures
        r >= 0,
{
    std::time::SystemTime::now()
        .duration_since(std::time::UNIX_EPOCH)
        .map(|d| i64::try_from(d.as_secs()).unwrap_or(i64::MAX))
        .unwrap_or(0)
}

} // verus!
