//! Billing schedules: the rows that give a plan version its billing period and
//! its price ramps.
//!
//! The ramps are a document whose schema belongs to the pricing plans. This
//! crate never reads it: a row carries it, and a patch replaces it whole or
//! leaves it alone.

use crate::document::Document;
use crate::ident::Uuid;
use vstd::prelude::*;

verus! {

/// How often a plan bills.
#[derive(Debug, Clone, Copy, PartialEq, Eq, Structural)]
pub enum BillingPeriodEnum {
    Monthly,
    Quarterly,
    Annual,
}

/// The schedule of a plan version, as its row holds it.
#[derive(Debug, PartialEq, Eq)]
pub struct Schedule {
    pub id: Uuid,
    pub billing_period: BillingPeriodEnum,
    pub plan_version_id: Uuid,
    pub ramps: Document,
}

/// The row of a schedule to insert.
#[derive(Debug, PartialEq, Eq)]
pub struct ScheduleNew {
    pub id: Uuid,
    pub billing_period: BillingPeriodEnum,
    pub plan_version_id: Uuid,
    pub ramps: Document,
}

/// The changes to write to the row of a schedule: ramps that are `None` are
/// not written.
#[derive(Debug, PartialEq, Eq)]
pub struct SchedulePatch {
    pub id: Uuid,
    pub ramps: Option<Document>,
}

impl Schedule {
    /// The row after the changes of `patch` are written to it.
    ///
    /// A patch is for the row of its `id`; any other row stays as it is. On its
    /// own row it replaces the ramps if it holds some, and nothing else.
    pub open spec fn patched(self, patch: SchedulePatch) -> Schedule {
        match patch.ramps {
            Some(ramps) if patch.id == self.id => Schedule { ramps, ..self },
            _ => self,
        }
    }

    /// Writes the changes of `patch` to the row.
    pub fn apply(self, patch: SchedulePatch) -> (r: Schedule)
        ensures
            r == self.patched(patch),
    {
        if patch.id == self.id {
            match patch.ramps {
                Some(ramps) => Schedule {
                    id: self.id,
                    billing_period: self.billing_period,
                    plan_version_id: self.plan_version_id,
                    ramps,
                },
                None => self,
            }
        } else {
            self
        }
    }
}

impl ScheduleNew {
    /// The row as it stands once it is inserted: every field as it was given.
    pub fn into_schedule(self) -> (r: Schedule)
        ensures
            r.id == self.id,
            r.billing_period == self.billing_period,
            r.plan_version_id == self.plan_version_id,
            r.ramps == self.ramps,
    {
        Schedule {
            id: self.id,
            billing_period: self.billing_period,
            plan_version_id: self.plan_version_id,
            ramps: self.ramps,
        }
    }
}

/// A patch without ramps leaves the ramps of its schedule as they are; a patch
/// with ramps makes them the ramps of its schedule; the other fields stay.
pub proof fn lemma_ramps_partiality(schedule: Schedule, patch: SchedulePatch)
    requires
        patch.id == schedule.id,
    ensures
        patch.ramps is None ==> schedule.patched(patch) == schedule,
        patch.ramps matches Some(ramps) ==> schedule.patched(patch).ramps == ramps,
        schedule.patched(patch).id == schedule.id,
        schedule.patched(patch).billing_period == schedule.billing_period,
        schedule.patched(patch).plan_version_id == schedule.plan_version_id,
{
}

} // verus!
