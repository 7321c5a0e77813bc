//! Bounding the number of sessions handled at once.

use vstd::prelude::*;

verus! {

/// The connection limit used when none is configured.
pub const DEFAULT_MAX_CONCURRENT: u32 = 5;

/// The count after one admission attempt at `active` in-flight sessions under
/// `limit`: one more when there is room, nothing when the limit is reached.
pub open spec fn admit_spec(active: nat, limit: nat) -> Option<nat> {
    if active < limit {
        Some(active + 1)
    } else {
        None
    }
}

/// The count after one admitted session ends.
pub open spec fn release_spec(active: nat) -> nat {
    if active > 0 {
        (active - 1) as nat
    } else {
        0
    }
}

/// One admission attempt on a shared counter: the new count, or `None` when
/// the connection is to be rejected. Meant for a compare-and-swap update.
pub fn admit_count(active: u32, limit: u32) -> (r: Option<u32>)
    ensures
        r matches Some(n) ==> admit_spec(active as nat, limit as nat) == Some(n as nat),
        r is None ==> admit_spec(active as nat, limit as nat) is None,
{
    if active < limit {
        Some(active + 1)
    } else {
        None
    }
}

/// The shared counter after one admitted session ends.
pub fn release_count(active: u32) -> (r: u32)
    ensures
        r as nat == release_spec(active as nat),
{
    if active > 0 {
        active - 1
    } else {
        0
    }
}

/// The count of in-flight sessions and its limit.
pub struct Admission {
    active: u32,
    limit: u32,
}

impl Admission {
    /// Sessions in flight.
    pub closed spec fn active_spec(&self) -> nat {
        self.active as nat
    }

    /// The most sessions that may be in flight at once.
    pub closed spec fn limit_spec(&self) -> nat {
        self.limit as nat
    }

    /// The count never exceeds the limit.
    pub open spec fn wf(&self) -> bool {
        self.active_spec() <= self.limit_spec()
    }

    /// No session in flight, at most `limit` at once.
    pub fn new(limit: u32) -> (r: Admission)
        ensures
            r.wf(),
            r.active_spec() == 0,
            r.limit_spec() == limit,
    {
        Admission { active: 0, limit }
    }

    /// Admits one more session if the limit allows it.
    pub fn try_admit(&mut self) -> (r: bool)
        requires
            old(self).wf(),
        ensures
            final(self).wf(),
            final(self).limit_spec() == old(self).limit_spec(),
            r == admit_spec(old(self).active_spec(), old(self).limit_spec()) is Some,
            r ==> Some(final(self).active_spec()) == admit_spec(
                old(self).active_spec(),
                old(self).limit_spec(),
            ),
            !r ==> final(self).active_spec() == old(self).active_spec(),
    {
        match admit_count(self.active, self.limit) {
            Some(n) => {
                self.active = n;
                true
            },
            None => false,
        }
    }

    /// Records the end of an admitted session.
    pub fn release(&mut self)
        requires
            old(self).wf(),
        ensures
            final(self).wf(),
            final(self).limit_spec() == old(self).limit_spec(),
            final(self).active_spec() == release_spec(old(self).active_spec()),
    {
        self.active = release_count(self.active);
    }

    /// Sessions in flight.
    pub fn active(&self) -> (r: u32)
        ensures
            r == self.active_spec(),
    {
        self.active
    }

    /// The limit.
    pub fn limit(&self) -> (r: u32)
        ensures
            r == self.limit_spec(),
    {
        self.limit
    }
}

} // verus!
