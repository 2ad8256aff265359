//! The profile store: one ordered collection of profiles and one active
//! pointer per tool family.
//!
//! Invariants: identifiers are unique within a family's partition, every
//! profile sits in the partition of its own family, and the active
//! pointer, when set, names an existing profile of that partition.
//! Removing the active profile clears the pointer; activating across
//! partitions is rejected; every mutation preserves the invariant.

use vstd::prelude::*;
use vstd::string::*;
use crate::errors::AppError;
use crate::provider::{clone_opt_string, AppType, Provider};

verus! {

/// One tool family's slice of the store: its profiles in display order
/// and the identifier of the active profile, if any.
#[derive(Debug)]
pub struct Partition {
    pub providers: Vec<Provider>,
    pub active: Option<String>,
}

/// Whether some profile in the sequence has the identifier.
pub open spec fn has_id(ps: Seq<Provider>, id: Seq<char>) -> bool {
    exists|i: int| 0 <= i < ps.len() && (#[trigger] ps[i]).id@ == id
}

/// The index of the profile with the identifier.
pub open spec fn idx_of(ps: Seq<Provider>, id: Seq<char>) -> int {
    choose|i: int| 0 <= i < ps.len() && (#[trigger] ps[i]).id@ == id
}

/// Identifiers are pairwise distinct.
pub open spec fn ids_unique(ps: Seq<Provider>) -> bool {
    forall|i: int, j: int|
        0 <= i < j < ps.len() ==> (#[trigger] ps[i]).id@ != (#[trigger] ps[j]).id@
}

/// A well-formed partition for a family: unique identifiers, every
/// profile of that family, and an active pointer that names an existing
/// profile.
pub open spec fn partition_wf(part: Partition, t: AppType) -> bool {
    &&& ids_unique(part.providers@)
    &&& forall|i: int|
        0 <= i < part.providers@.len() ==> (#[trigger] part.providers@[i]).app_type == t
    &&& match part.active {
        Some(a) => has_id(part.providers@, a@),
        None => true,
    }
}

impl Partition {
    /// An empty partition.
    pub fn empty() -> (r: Partition)
        ensures
            r.providers@ =~= Seq::<Provider>::empty(),
            r.active is None,
    {
        Partition { providers: Vec::new(), active: None }
    }

    /// An exact copy.
    pub fn duplicate(&self) -> (r: Partition)
        ensures
            r.providers@ == self.providers@,
            r.active == self.active,
    {
        let n = self.providers.len();
        let mut ps: Vec<Provider> = Vec::new();
        let mut i: usize = 0;
        while i < n
            invariant
                0 <= i <= n,
                n == self.providers@.len(),
                ps@ =~= self.providers@.subrange(0, i as int),
            decreases n - i,
        {
            ps.push(self.providers[i].duplicate());
            i = i + 1;
        }
        proof {
            assert(self.providers@.subrange(0, n as int) =~= self.providers@);
        }
        Partition { providers: ps, active: clone_opt_string(&self.active) }
    }
}

/// The index of the profile with the identifier, if any.
fn vec_find(ps: &Vec<Provider>, id: &String) -> (r: Option<usize>)
    ensures
        match r {
            Some(i) => i < ps@.len() && ps@[i as int].id@ == id@,
            None => !has_id(ps@, id@),
        },
{
    let n = ps.len();
    let mut i: usize = 0;
    while i < n
        invariant
            0 <= i <= n,
            n == ps@.len(),
            forall|j: int| 0 <= j < i ==> (#[trigger] ps@[j]).id@ != id@,
        decreases n - i,
    {
        if ps[i].id.eq(id) {
            return Some(i);
        }
        i = i + 1;
    }
    None
}

/// Adds a profile to a partition of its own family; a taken identifier
/// is a conflict and changes nothing.
fn part_add(part: &mut Partition, p: Provider) -> (r: Result<(), AppError>)
    requires
        partition_wf(*old(part), p.app_type),
    ensures
        partition_wf(*final(part), p.app_type),
        match r {
            Ok(_) => {
                &&& !has_id(old(part).providers@, p.id@)
                &&& final(part).providers@ == old(part).providers@.push(p)
                &&& final(part).active == old(part).active
            },
            Err(e) => {
                &&& e is Conflict
                &&& has_id(old(part).providers@, p.id@)
                &&& *final(part) == *old(part)
            },
        },
{
    match vec_find(&part.providers, &p.id) {
        Some(_) => Err(AppError::Conflict),
        None => {
            part.providers.push(p);
            proof {
                let ps0 = old(part).providers@;
                let ps = part.providers@;
                assert forall|i: int, j: int| 0 <= i < j < ps.len() implies (#[trigger] ps[i]).id@
                    != (#[trigger] ps[j]).id@ by {
                    if j == ps.len() - 1 {
                        assert(ps[i] == ps0[i]);
                    }
                }
                match &part.active {
                    Some(a) => {
                        let w = idx_of(ps0, a@);
                        assert(ps[w] == ps0[w]);
                    },
                    None => {},
                }
            }
            Ok(())
        },
    }
}

/// Replaces the profile with the given identifier; a missing identifier
/// changes nothing.
fn part_update(part: &mut Partition, id: &String, updated: Provider, t: AppType) -> (r: Result<
    (),
    AppError,
>)
    requires
        partition_wf(*old(part), t),
        updated.id@ == id@,
        updated.app_type == t,
    ensures
        partition_wf(*final(part), t),
        match r {
            Ok(_) => {
                &&& has_id(old(part).providers@, id@)
                &&& final(part).providers@ == old(part).providers@.update(
                    idx_of(old(part).providers@, id@),
                    updated,
                )
                &&& final(part).active == old(part).active
            },
            Err(e) => {
                &&& e is NotFound
                &&& !has_id(old(part).providers@, id@)
                &&& *final(part) == *old(part)
            },
        },
{
    match vec_find(&part.providers, id) {
        None => Err(AppError::NotFound),
        Some(i) => {
            part.providers.set(i, updated);
            proof {
                let ps0 = old(part).providers@;
                let ps = part.providers@;
                let w = idx_of(ps0, id@);
                assert(0 <= w < ps0.len() && ps0[w].id@ == id@);
                assert(w == i) by {
                    if w != i {
                        assert(ps0[w].id@ != ps0[i as int].id@);
                    }
                }
                assert(ps =~= ps0.update(w, updated));
                assert forall|x: int, y: int| 0 <= x < y < ps.len() implies (#[trigger] ps[x]).id@
                    != (#[trigger] ps[y]).id@ by {
                    assert(ps0[x].id@ != ps0[y].id@);
                    assert(ps[x].id@ == ps0[x].id@ || x == i);
                    assert(ps[y].id@ == ps0[y].id@ || y == i);
                }
                match &part.active {
                    Some(a) => {
                        let w2 = idx_of(ps0, a@);
                        assert(ps[w2].id@ == a@);
                    },
                    None => {},
                }
            }
            Ok(())
        },
    }
}

/// Removes the profile with the given identifier and clears the active
/// pointer if it named it; a missing identifier changes nothing.
fn part_remove(part: &mut Partition, id: &String, t: AppType) -> (r: Result<(), AppError>)
    requires
        partition_wf(*old(part), t),
    ensures
        partition_wf(*final(part), t),
        match r {
            Ok(_) => {
                &&& has_id(old(part).providers@, id@)
                &&& final(part).providers@ == old(part).providers@.remove(
                    idx_of(old(part).providers@, id@),
                )
                &&& !has_id(final(part).providers@, id@)
                &&& match old(part).active {
                    Some(a) => if a@ == id@ {
                        final(part).active is None
                    } else {
                        final(part).active == old(part).active
                    },
                    None => final(part).active is None,
                }
            },
            Err(e) => {
                &&& e is NotFound
                &&& !has_id(old(part).providers@, id@)
                &&& *final(part) == *old(part)
            },
        },
{
    match vec_find(&part.providers, id) {
        None => Err(AppError::NotFound),
        Some(i) => {
            part.providers.remove(i);
            let keep_active = match &part.active {
                Some(a) => !a.eq(id),
                None => false,
            };
            if !keep_active {
                part.active = None;
            }
            proof {
                let ps0 = old(part).providers@;
                let ps = part.providers@;
                let w = idx_of(ps0, id@);
                assert(0 <= w < ps0.len() && ps0[w].id@ == id@);
                assert(w == i) by {
                    if w != i {
                        assert(ps0[w].id@ != ps0[i as int].id@);
                    }
                }
                assert(ps =~= ps0.remove(w));
                assert forall|x: int| 0 <= x < ps.len() implies (#[trigger] ps[x]).id@ != id@ by {
                    if x < w {
                        assert(ps[x] == ps0[x]);
                        assert(ps0[x].id@ != ps0[w].id@);
                    } else {
                        assert(ps[x] == ps0[x + 1]);
                        assert(ps0[w].id@ != ps0[x + 1].id@);
                    }
                }
                assert forall|x: int, y: int| 0 <= x < y < ps.len() implies (#[trigger] ps[x]).id@
                    != (#[trigger] ps[y]).id@ by {
                    let x0 = if x < w {
                        x
                    } else {
                        x + 1
                    };
                    let y0 = if y < w {
                        y
                    } else {
                        y + 1
                    };
                    assert(ps[x] == ps0[x0] && ps[y] == ps0[y0]);
                    assert(ps0[x0].id@ != ps0[y0].id@);
                }
                match &part.active {
                    Some(a) => {
                        assert(a@ != id@);
                        let w2 = idx_of(ps0, a@);
                        assert(ps0[w2].id@ == a@);
                        assert(w2 != w);
                        if w2 < w {
                            assert(ps[w2] == ps0[w2]);
                        } else {
                            assert(ps[w2 - 1] == ps0[w2]);
                        }
                    },
                    None => {},
                }
            }
            Ok(())
        },
    }
}

/// Points the partition's active pointer at an existing profile.
fn part_set_active(part: &mut Partition, id: &String, t: AppType) -> (r: bool)
    requires
        partition_wf(*old(part), t),
    ensures
        partition_wf(*final(part), t),
        final(part).providers@ == old(part).providers@,
        r == has_id(old(part).providers@, id@),
        r ==> (final(part).active matches Some(a) && a@ == id@),
        !r ==> *final(part) == *old(part),
{
    match vec_find(&part.providers, id) {
        Some(_) => {
            part.active = Some(id.clone());
            true
        },
        None => false,
    }
}

/// The shared profile store: one partition per tool family.
#[derive(Debug)]
pub struct ProfileStore {
    pub claude: Partition,
    pub codex: Partition,
    pub gemini: Partition,
}

impl ProfileStore {
    /// The partition of a tool family.
    pub open spec fn part_of(self, t: AppType) -> Partition {
        match t {
            AppType::Claude => self.claude,
            AppType::Codex => self.codex,
            AppType::Gemini => self.gemini,
        }
    }

    /// Whether any partition holds the identifier.
    pub open spec fn contains_id(self, id: Seq<char>) -> bool {
        has_id(self.claude.providers@, id) || has_id(self.codex.providers@, id) || has_id(
            self.gemini.providers@,
            id,
        )
    }

    /// The family whose partition holds the identifier.
    pub open spec fn type_of_id(self, id: Seq<char>) -> AppType {
        if has_id(self.claude.providers@, id) {
            AppType::Claude
        } else if has_id(self.codex.providers@, id) {
            AppType::Codex
        } else {
            AppType::Gemini
        }
    }

    /// The store invariant.
    pub open spec fn wf(self) -> bool {
        &&& partition_wf(self.claude, AppType::Claude)
        &&& partition_wf(self.codex, AppType::Codex)
        &&& partition_wf(self.gemini, AppType::Gemini)
    }

    /// The partitions of the families other than `t` are unchanged.
    pub open spec fn others_unchanged(self, other: ProfileStore, t: AppType) -> bool {
        match t {
            AppType::Claude => self.codex.providers@ == other.codex.providers@ && self.codex.active
                == other.codex.active && self.gemini.providers@ == other.gemini.providers@
                && self.gemini.active == other.gemini.active,
            AppType::Codex => self.claude.providers@ == other.claude.providers@
                && self.claude.active == other.claude.active && self.gemini.providers@
                == other.gemini.providers@ && self.gemini.active == other.gemini.active,
            AppType::Gemini => self.claude.providers@ == other.claude.providers@
                && self.claude.active == other.claude.active && self.codex.providers@
                == other.codex.providers@ && self.codex.active == other.codex.active,
        }
    }

    /// An empty, well-formed store.
    pub fn new() -> (r: ProfileStore)
        ensures
            r.wf(),
            r.claude.providers@ =~= Seq::<Provider>::empty(),
            r.codex.providers@ =~= Seq::<Provider>::empty(),
            r.gemini.providers@ =~= Seq::<Provider>::empty(),
            r.claude.active is None,
            r.codex.active is None,
            r.gemini.active is None,
    {
        ProfileStore {
            claude: Partition::empty(),
            codex: Partition::empty(),
            gemini: Partition::empty(),
        }
    }

    /// An exact copy, partition by partition.
    pub fn duplicate(&self) -> (r: ProfileStore)
        ensures
            r.claude.providers@ == self.claude.providers@,
            r.claude.active == self.claude.active,
            r.codex.providers@ == self.codex.providers@,
            r.codex.active == self.codex.active,
            r.gemini.providers@ == self.gemini.providers@,
            r.gemini.active == self.gemini.active,
            r.wf() == self.wf(),
    {
        ProfileStore {
            claude: self.claude.duplicate(),
            codex: self.codex.duplicate(),
            gemini: self.gemini.duplicate(),
        }
    }

    /// Replaces the whole store with a snapshot, for rollback after a
    /// failed persistence call.
    pub fn restore(&mut self, snap: &ProfileStore)
        ensures
            final(self).claude.providers@ == snap.claude.providers@,
            final(self).claude.active == snap.claude.active,
            final(self).codex.providers@ == snap.codex.providers@,
            final(self).codex.active == snap.codex.active,
            final(self).gemini.providers@ == snap.gemini.providers@,
            final(self).gemini.active == snap.gemini.active,
            final(self).wf() == snap.wf(),
    {
        *self = snap.duplicate();
    }

    /// Adds a newly created profile to the partition of its own family.
    /// Fails with a conflict exactly when the identifier is already taken
    /// there, leaving the store unchanged.
    pub fn add(&mut self, p: Provider) -> (r: Result<(), AppError>)
        requires
            old(self).wf(),
        ensures
            final(self).wf(),
            match r {
                Ok(_) => {
                    &&& !has_id(old(self).part_of(p.app_type).providers@, p.id@)
                    &&& final(self).part_of(p.app_type).providers@ == old(self).part_of(
                        p.app_type,
                    ).providers@.push(p)
                    &&& final(self).part_of(p.app_type).active == old(self).part_of(
                        p.app_type,
                    ).active
                    &&& final(self).others_unchanged(*old(self), p.app_type)
                },
                Err(e) => {
                    &&& e is Conflict
                    &&& has_id(old(self).part_of(p.app_type).providers@, p.id@)
                    &&& *final(self) == *old(self)
                },
            },
    {
        match p.app_type {
            AppType::Claude => part_add(&mut self.claude, p),
            AppType::Codex => part_add(&mut self.codex, p),
            AppType::Gemini => part_add(&mut self.gemini, p),
        }
    }

    /// Replaces the stored profile with the merged result of an edit.
    /// The identifier and tool family are immutable: the caller passes a
    /// replacement with the same identifier and the stored family. Fails
    /// exactly when the identifier is absent, leaving the store
    /// unchanged.
    pub fn update(&mut self, id: &String, updated: Provider) -> (r: Result<(), AppError>)
        requires
            old(self).wf(),
            updated.id@ == id@,
            old(self).contains_id(id@) ==> old(self).type_of_id(id@) == updated.app_type,
        ensures
            final(self).wf(),
            match r {
                Ok(_) => {
                    let t = updated.app_type;
                    let ps = old(self).part_of(t).providers@;
                    &&& old(self).contains_id(id@)
                    &&& has_id(ps, id@)
                    &&& final(self).part_of(t).providers@ == ps.update(idx_of(ps, id@), updated)
                    &&& final(self).part_of(t).active == old(self).part_of(t).active
                    &&& final(self).others_unchanged(*old(self), t)
                },
                Err(e) => {
                    &&& e is NotFound
                    &&& !old(self).contains_id(id@)
                    &&& *final(self) == *old(self)
                },
            },
    {
        let r = match updated.app_type {
            AppType::Claude => part_update(&mut self.claude, id, updated, AppType::Claude),
            AppType::Codex => part_update(&mut self.codex, id, updated, AppType::Codex),
            AppType::Gemini => part_update(&mut self.gemini, id, updated, AppType::Gemini),
        };
        proof {
            if r is Err {
                assert(!old(self).contains_id(id@));
            }
        }
        r
    }

    /// Removes the profile with the given identifier, wherever it is,
    /// and clears that partition's active pointer if it named it. Fails
    /// exactly when the identifier is absent, leaving the store
    /// unchanged.
    pub fn remove(&mut self, id: &String) -> (r: Result<(), AppError>)
        requires
            old(self).wf(),
        ensures
            final(self).wf(),
            match r {
                Ok(_) => {
                    let t = old(self).type_of_id(id@);
                    let ps = old(self).part_of(t).providers@;
                    &&& old(self).contains_id(id@)
                    &&& final(self).part_of(t).providers@ == ps.remove(idx_of(ps, id@))
                    &&& !has_id(final(self).part_of(t).providers@, id@)
                    &&& match old(self).part_of(t).active {
                        Some(a) => if a@ == id@ {
                            final(self).part_of(t).active is None
                        } else {
                            final(self).part_of(t).active == old(self).part_of(t).active
                        },
                        None => final(self).part_of(t).active is None,
                    }
                    &&& final(self).others_unchanged(*old(self), t)
                },
                Err(e) => {
                    &&& e is NotFound
                    &&& !old(self).contains_id(id@)
                    &&& *final(self) == *old(self)
                },
            },
    {
        let in_claude = vec_find(&self.claude.providers, id).is_some();
        if in_claude {
            let r = part_remove(&mut self.claude, id, AppType::Claude);
            return r;
        }
        let in_codex = vec_find(&self.codex.providers, id).is_some();
        if in_codex {
            let r = part_remove(&mut self.codex, id, AppType::Codex);
            return r;
        }
        let r = part_remove(&mut self.gemini, id, AppType::Gemini);
        r
    }

    /// Points a family's active pointer at an existing profile of that
    /// family. An identifier found in another family's partition is
    /// rejected as invalid input; an unknown identifier is not found.
    /// Either failure leaves the store unchanged.
    pub fn set_active(&mut self, t: AppType, id: &String) -> (r: Result<(), AppError>)
        requires
            old(self).wf(),
        ensures
            final(self).wf(),
            match r {
                Ok(_) => {
                    &&& has_id(old(self).part_of(t).providers@, id@)
                    &&& final(self).part_of(t).providers@ == old(self).part_of(t).providers@
                    &&& (final(self).part_of(t).active matches Some(a) && a@ == id@)
                    &&& final(self).others_unchanged(*old(self), t)
                },
                Err(e) => {
                    &&& *final(self) == *old(self)
                    &&& !has_id(old(self).part_of(t).providers@, id@)
                    &&& if old(self).contains_id(id@) {
                        e is InvalidInput
                    } else {
                        e is NotFound
                    }
                },
            },
    {
        let done = match t {
            AppType::Claude => part_set_active(&mut self.claude, id, AppType::Claude),
            AppType::Codex => part_set_active(&mut self.codex, id, AppType::Codex),
            AppType::Gemini => part_set_active(&mut self.gemini, id, AppType::Gemini),
        };
        if done {
            Ok(())
        } else {
            let elsewhere = vec_find(&self.claude.providers, id).is_some() || vec_find(
                &self.codex.providers,
                id,
            ).is_some() || vec_find(&self.gemini.providers, id).is_some();
            if elsewhere {
                Err(
                    AppError::InvalidInput(
                        String::from_str("the profile belongs to another tool family"),
                    ),
                )
            } else {
                Err(AppError::NotFound)
            }
        }
    }

    /// The stored profile with the given identifier, from whichever
    /// partition holds it.
    pub fn get(&self, id: &String) -> (r: Option<&Provider>)
        requires
            self.wf(),
        ensures
            match r {
                Some(p) => {
                    let t = self.type_of_id(id@);
                    let ps = self.part_of(t).providers@;
                    &&& self.contains_id(id@)
                    &&& *p == ps[idx_of(ps, id@)]
                    &&& p.id@ == id@
                },
                None => !self.contains_id(id@),
            },
    {
        match vec_find(&self.claude.providers, id) {
            Some(i) => {
                proof {
                    self.lemma_idx_works(self.claude.providers@, id@, i as int);
                }
                return Some(&self.claude.providers[i]);
            },
            None => {},
        }
        match vec_find(&self.codex.providers, id) {
            Some(i) => {
                proof {
                    self.lemma_idx_works(self.codex.providers@, id@, i as int);
                }
                return Some(&self.codex.providers[i]);
            },
            None => {},
        }
        match vec_find(&self.gemini.providers, id) {
            Some(i) => {
                proof {
                    self.lemma_idx_works(self.gemini.providers@, id@, i as int);
                }
                return Some(&self.gemini.providers[i]);
            },
            None => {},
        }
        None
    }

    proof fn lemma_idx_works(self, ps: Seq<Provider>, id: Seq<char>, i: int)
        requires
            self.wf(),
            ps == self.claude.providers@ || ps == self.codex.providers@ || ps
                == self.gemini.providers@,
            0 <= i < ps.len(),
            ps[i].id@ == id,
        ensures
            ps[idx_of(ps, id)] == ps[i],
    {
        let w = idx_of(ps, id);
        assert(0 <= w < ps.len() && ps[w].id@ == id);
        if w != i {
            if ps == self.claude.providers@ {
                assert(ids_unique(ps));
            } else if ps == self.codex.providers@ {
                assert(ids_unique(ps));
            } else {
                assert(ids_unique(ps));
            }
            if w < i {
                assert(ps[w].id@ != ps[i].id@);
            } else {
                assert(ps[i].id@ != ps[w].id@);
            }
        }
    }

    /// Copies of the profiles of a family, in display order.
    pub fn list(&self, t: AppType) -> (r: Vec<Provider>)
        ensures
            r@ == self.part_of(t).providers@,
    {
        let part = match t {
            AppType::Claude => &self.claude,
            AppType::Codex => &self.codex,
            AppType::Gemini => &self.gemini,
        };
        let d = part.duplicate();
        d.providers
    }

    /// A copy of the active profile of a family, if one is set.
    pub fn get_active(&self, t: AppType) -> (r: Option<Provider>)
        requires
            self.wf(),
        ensures
            match self.part_of(t).active {
                Some(a) => {
                    let ps = self.part_of(t).providers@;
                    r matches Some(p) && p == ps[idx_of(ps, a@)] && p.id@ == a@
                },
                None => r is None,
            },
    {
        let part = match t {
            AppType::Claude => &self.claude,
            AppType::Codex => &self.codex,
            AppType::Gemini => &self.gemini,
        };
        match &part.active {
            None => None,
            Some(a) => {
                match vec_find(&part.providers, a) {
                    Some(i) => {
                        proof {
                            self.lemma_idx_works(part.providers@, a@, i as int);
                        }
                        Some(part.providers[i].duplicate())
                    },
                    None => {
                        proof {
                            assert(has_id(part.providers@, a@));
                        }
                        None
                    },
                }
            },
        }
    }

    /// Whether the store satisfies its invariant, decided at run time —
    /// used to admit a loaded snapshot.
    pub fn validate(&self) -> (b: bool)
        ensures
            b == self.wf(),
    {
        part_validate(&self.claude, AppType::Claude) && part_validate(&self.codex, AppType::Codex)
            && part_validate(&self.gemini, AppType::Gemini)
    }
}

/// Whether a partition satisfies its invariant, decided at run time.
fn part_validate(part: &Partition, t: AppType) -> (b: bool)
    ensures
        b == partition_wf(*part, t),
{
    let n = part.providers.len();
    let mut i: usize = 0;
    while i < n
        invariant
            0 <= i <= n,
            n == part.providers@.len(),
            forall|x: int, y: int|
                0 <= x < y < i ==> (#[trigger] part.providers@[x]).id@ != (
                #[trigger] part.providers@[y]).id@,
            forall|x: int| 0 <= x < i ==> (#[trigger] part.providers@[x]).app_type == t,
        decreases n - i,
    {
        if !(part.providers[i].app_type == t) {
            return false;
        }
        let mut j: usize = 0;
        while j < i
            invariant
                0 <= j <= i < n,
                n == part.providers@.len(),
                forall|y: int| 0 <= y < j ==> (#[trigger] part.providers@[y]).id@ != part.providers@[i as int].id@,
            decreases i - j,
        {
            if part.providers[j].id.eq(&part.providers[i].id) {
                return false;
            }
            j = j + 1;
        }
        proof {
            assert forall|x: int, y: int| 0 <= x < y < i + 1 implies (
            #[trigger] part.providers@[x]).id@ != (#[trigger] part.providers@[y]).id@ by {
                if y == i {
                    assert(part.providers@[x].id@ != part.providers@[i as int].id@);
                }
            }
        }
        i = i + 1;
    }
    match &part.active {
        Some(a) => {
            match vec_find(&part.providers, a) {
                Some(_) => true,
                None => false,
            }
        },
        None => true,
    }
}

} // verus!
