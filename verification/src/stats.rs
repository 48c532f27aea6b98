//! Per-user submission counters, kept beside the core workflow.

use vstd::prelude::*;

verus! {

use vstd::pervasive::VecAdditionalExecFns;

/// Counters for one user: how many submissions were offered, accepted and
/// declined.
#[derive(Clone, Copy, Debug, PartialEq, Eq)]
pub struct UserStats {
    pub user_id: i64,
    pub offered_count: i64,
    pub accepted_count: i64,
    pub declined_count: i64,
}

impl UserStats {
    pub fn new(user_id: i64, offered_count: i64, accepted_count: i64, declined_count: i64) -> (r:
        Self)
        ensures
            r == (UserStats { user_id, offered_count, accepted_count, declined_count }),
    {
        Self { user_id, offered_count, accepted_count, declined_count }
    }

    pub fn empty(user_id: i64) -> (r: Self)
        ensures
            r == (UserStats { user_id, offered_count: 0, accepted_count: 0, declined_count: 0 }),
    {
        Self::new(user_id, 0, 0, 0)
    }
}

/// Whether some entry of `s` counts for `user_id`.
pub open spec fn has_stat(s: Seq<UserStats>, user_id: i64) -> bool {
    exists|i: int| 0 <= i < s.len() && s[i].user_id == user_id
}

/// The statistics store: at most one counter row per user, updated by
/// upsert-increment.
pub struct StatsRepo {
    rows: Vec<UserStats>,
}

impl View for StatsRepo {
    type V = Seq<UserStats>;

    closed spec fn view(&self) -> Seq<UserStats> {
        self.rows@
    }
}

impl StatsRepo {
    /// The store invariant: one counter row per user.
    pub open spec fn wf(&self) -> bool {
        forall|i: int, j: int|
            0 <= i < j < self@.len() ==> self@[i].user_id != self@[j].user_id
    }

    pub fn new() -> (r: Self)
        ensures
            r@ == Seq::<UserStats>::empty(),
            r.wf(),
    {
        Self { rows: Vec::new() }
    }

    /// Position of the row for `user_id`, if any.
    fn find_index(&self, user_id: i64) -> (r: Option<usize>)
        ensures
            match r {
                Some(i) => i < self@.len() && self@[i as int].user_id == user_id,
                None => !has_stat(self@, user_id),
            },
    {
        let n = self.rows.len();
        let mut i: usize = 0;
        while i < n
            invariant
                n == self@.len(),
                i <= n,
                forall|j: int| 0 <= j < i ==> self@[j].user_id != user_id,
            decreases n - i,
        {
            if self.rows[i].user_id == user_id {
                return Some(i);
            }
            i += 1;
        }
        None
    }

    /// The counters recorded for `user_id`, if any.
    pub fn get_stat_for_user(&self, user_id: i64) -> (r: Option<UserStats>)
        ensures
            match r {
                Some(s) => exists|i: int|
                    0 <= i < self@.len() && self@[i] == s && s.user_id == user_id,
                None => !has_stat(self@, user_id),
            },
    {
        match self.find_index(user_id) {
            Some(i) => Some(self.rows[i]),
            None => None,
        }
    }

    /// The counters recorded for `user_id`, or all-zero counters for a user
    /// not yet seen.
    pub fn get_stat_for_user_or_default(&self, user_id: i64) -> (r: UserStats)
        ensures
            r.user_id == user_id,
            has_stat(self@, user_id) ==> exists|i: int|
                0 <= i < self@.len() && self@[i] == r,
            !has_stat(self@, user_id) ==> r == (UserStats {
                user_id,
                offered_count: 0,
                accepted_count: 0,
                declined_count: 0,
            }),
    {
        match self.get_stat_for_user(user_id) {
            Some(s) => s,
            None => UserStats::empty(user_id),
        }
    }

    /// Counts one more offered submission for the user: a fresh row starts
    /// at one offered, an existing row has its offered counter raised by
    /// one, sticking at the machine bound.
    pub fn increment_offered(&mut self, user_id: i64)
        requires
            old(self).wf(),
        ensures
            final(self).wf(),
            !has_stat(old(self)@, user_id) ==> final(self)@ == old(self)@.push(UserStats {
                user_id,
                offered_count: 1,
                accepted_count: 0,
                declined_count: 0,
            }),
            has_stat(old(self)@, user_id) ==> exists|i: int|
                0 <= i < old(self)@.len() && old(self)@[i].user_id == user_id && final(self)@
                    == old(self)@.update(i, (UserStats {
                    offered_count: saturating_inc(old(self)@[i].offered_count),
                    ..old(self)@[i]
                })),
    {
        match self.find_index(user_id) {
            Some(i) => {
                let mut row = self.rows[i];
                row.offered_count = inc_i64(row.offered_count);
                self.rows.set(i, row);
            },
            None => {
                self.rows.push(UserStats::new(user_id, 1, 0, 0));
            },
        }
    }

    /// Counts one more accepted submission: a fresh row starts at one
    /// offered and one accepted, an existing row has its accepted counter
    /// raised by one, sticking at the machine bound.
    pub fn increment_accepted(&mut self, user_id: i64)
        requires
            old(self).wf(),
        ensures
            final(self).wf(),
            !has_stat(old(self)@, user_id) ==> final(self)@ == old(self)@.push(UserStats {
                user_id,
                offered_count: 1,
                accepted_count: 1,
                declined_count: 0,
            }),
            has_stat(old(self)@, user_id) ==> exists|i: int|
                0 <= i < old(self)@.len() && old(self)@[i].user_id == user_id && final(self)@
                    == old(self)@.update(i, (UserStats {
                    accepted_count: saturating_inc(old(self)@[i].accepted_count),
                    ..old(self)@[i]
                })),
    {
        match self.find_index(user_id) {
            Some(i) => {
                let mut row = self.rows[i];
                row.accepted_count = inc_i64(row.accepted_count);
                self.rows.set(i, row);
            },
            None => {
                self.rows.push(UserStats::new(user_id, 1, 1, 0));
            },
        }
    }

    /// Counts one more declined submission: a fresh row starts at one
    /// offered and one declined, an existing row has its declined counter
    /// raised by one, sticking at the machine bound.
    pub fn increment_declined(&mut self, user_id: i64)
        requires
            old(self).wf(),
        ensures
            final(self).wf(),
            !has_stat(old(self)@, user_id) ==> final(self)@ == old(self)@.push(UserStats {
                user_id,
                offered_count: 1,
                accepted_count: 0,
                declined_count: 1,
            }),
            has_stat(old(self)@, user_id) ==> exists|i: int|
                0 <= i < old(self)@.len() && old(self)@[i].user_id == user_id && final(self)@
                    == old(self)@.update(i, (UserStats {
                    declined_count: saturating_inc(old(self)@[i].declined_count),
                    ..old(self)@[i]
                })),
    {
        match self.find_index(user_id) {
            Some(i) => {
                let mut row = self.rows[i];
                row.declined_count = inc_i64(row.declined_count);
                self.rows.set(i, row);
            },
            None => {
                self.rows.push(UserStats::new(user_id, 1, 0, 1));
            },
        }
    }
}

/// A counter raised by one, sticking at the machine bound.
pub open spec fn saturating_inc(v: i64) -> i64 {
    if v < i64::MAX {
        (v + 1) as i64
    } else {
        i64::MAX
    }
}

fn inc_i64(v: i64) -> (r: i64)
    ensures
        r == saturating_inc(v),
{
    if v < i64::MAX {
        v + 1
    } else {
        i64::MAX
    }
}

} // verus!
