//! Scheduled publisher payouts.
//!
//! The administrator schedules one-shot payouts that become executable once
//! the ledger clock passes their `execute_after` timestamp; executing one
//! marks it completed and folds its amount into the recipient's running
//! earnings. The host authenticates callers, supplies the clock, and
//! performs the token transfer that a successful execution reports.

use vstd::prelude::*;

verus! {

/// Lifecycle of a scheduled payout. Only `Scheduled` and `Completed` are
/// produced by the operations here; the other states are reserved for
/// richer payment pipelines.
#[derive(Clone, Copy, PartialEq, Eq, Structural, Debug)]
pub enum PayoutStatus {
    Scheduled,
    Processing,
    Completed,
    Failed,
    Cancelled,
}

/// One scheduled payment, identified by its creation rank.
#[derive(Clone, Copy, PartialEq, Eq, Debug)]
pub struct ScheduledPayout {
    pub payout_id: u64,
    pub recipient: u64,
    pub token: u64,
    pub amount: i128,
    pub scheduled_at: u64,
    pub execute_after: u64,
    pub status: PayoutStatus,
    pub campaign_id: Option<u64>,
    pub executed_at: Option<u64>,
}

/// Running totals per publisher: what is still owed and what has been paid
/// out so far.
#[derive(Clone, Copy, PartialEq, Eq, Debug)]
pub struct PublisherEarnings {
    pub publisher: u64,
    pub pending_amount: i128,
    pub total_paid: i128,
    pub last_payout: u64,
}

/// Why a payout operation was rejected; every rejection leaves the state
/// untouched.
#[derive(Clone, Copy, PartialEq, Eq, Debug)]
pub enum PayoutError {
    /// The caller is not the administrator.
    Unauthorized,
    /// The referenced payout identifier has no record.
    PayoutNotFound,
    /// The payout is not in the `Scheduled` state.
    PayoutNotScheduled,
    /// The payout's earliest execution time has not been reached.
    TooEarlyToExecute,
    /// Folding the amount into the earnings totals would leave the
    /// representable range.
    EarningsOverflow,
}

/// The payout scheduler: fixed configuration, payouts by creation rank, and
/// one earnings entry per publisher.
pub struct PayoutAutomationContract {
    pub admin: u64,
    pub token: u64,
    pub min_payout_amount: i128,
    pub payouts: Vec<ScheduledPayout>,
    pub earnings: Vec<PublisherEarnings>,
}

/// `a - b` clamped to the representable range, as `i128::saturating_sub`
/// computes it.
pub open spec fn saturating_sub_spec(a: i128, b: i128) -> i128 {
    if a - b > i128::MAX {
        i128::MAX
    } else if a - b < i128::MIN {
        i128::MIN
    } else {
        (a - b) as i128
    }
}

/// Saturating subtraction on `i128`.
fn saturating_sub(a: i128, b: i128) -> (r: i128)
    ensures
        r == saturating_sub_spec(a, b),
{
    match a.checked_sub(b) {
        Some(d) => d,
        None => if b < 0 {
            i128::MAX
        } else {
            i128::MIN
        },
    }
}

impl PayoutAutomationContract {
    pub open spec fn wf(self) -> bool {
        &&& forall|i: int|
            0 <= i < self.payouts@.len() ==> (#[trigger] self.payouts@[i]).payout_id == i + 1
        &&& forall|i: int, j: int|
            0 <= i < j < self.earnings@.len() ==> (#[trigger] self.earnings@[i]).publisher
                != (#[trigger] self.earnings@[j]).publisher
    }

    pub open spec fn has_payout(self, payout_id: u64) -> bool {
        1 <= payout_id && payout_id as int <= self.payouts@.len()
    }

    pub open spec fn payout(self, payout_id: u64) -> ScheduledPayout {
        self.payouts@[payout_id as int - 1]
    }

    pub open spec fn has_earnings(self, publisher: u64) -> bool {
        exists|i: int|
            0 <= i < self.earnings@.len() && (#[trigger] self.earnings@[i]).publisher == publisher
    }

    pub open spec fn same_config(self, other: PayoutAutomationContract) -> bool {
        &&& self.admin == other.admin
        &&& self.token == other.token
        &&& self.min_payout_amount == other.min_payout_amount
    }

    /// Set up the scheduler with its administrator, payment token, and the
    /// default minimum payout amount.
    pub fn initialize(admin: u64, token: u64) -> (v: PayoutAutomationContract)
        ensures
            v.wf(),
            v.admin == admin,
            v.token == token,
            v.min_payout_amount == 1_000_000i128,
            v.payouts@.len() == 0,
            v.earnings@.len() == 0,
    {
        PayoutAutomationContract {
            admin,
            token,
            min_payout_amount: 1_000_000,
            payouts: Vec::new(),
            earnings: Vec::new(),
        }
    }

    /// Schedule a payment of `amount` of the configured token to
    /// `recipient`, executable once the clock reaches `execute_after`.
    /// Administrator only. Returns the new payout's identifier.
    pub fn schedule_payout(
        &mut self,
        admin: u64,
        recipient: u64,
        amount: i128,
        execute_after: u64,
        campaign_id: Option<u64>,
        now: u64,
    ) -> (r: Result<u64, PayoutError>)
        requires
            old(self).wf(),
            old(self).payouts@.len() < usize::MAX,
        ensures
            final(self).wf(),
            old(self).same_config(*final(self)),
            r is Ok <==> admin == old(self).admin,
            r is Err ==> *final(self) == *old(self),
            r == Err::<u64, PayoutError>(PayoutError::Unauthorized) <==> admin != old(self).admin,
            r matches Ok(payout_id) ==> {
                &&& payout_id as int == old(self).payouts@.len() + 1
                &&& final(self).earnings@ == old(self).earnings@
                &&& final(self).payouts@ == old(self).payouts@.push(
                    ScheduledPayout {
                        payout_id,
                        recipient,
                        token: old(self).token,
                        amount,
                        scheduled_at: now,
                        execute_after,
                        status: PayoutStatus::Scheduled,
                        campaign_id,
                        executed_at: None,
                    },
                )
            },
    {
        if admin != self.admin {
            return Err(PayoutError::Unauthorized);
        }
        let payout_id: u64 = self.payouts.len() as u64 + 1;
        self.payouts.push(
            ScheduledPayout {
                payout_id,
                recipient,
                token: self.token,
                amount,
                scheduled_at: now,
                execute_after,
                status: PayoutStatus::Scheduled,
                campaign_id,
                executed_at: None,
            },
        );
        Ok(payout_id)
    }

    /// Execute a due payout: mark it completed and fold its amount into the
    /// recipient's earnings (raising `total_paid`, draining
    /// `pending_amount` with saturation, stamping `last_payout`). The host
    /// transfers the payout's amount from custody to the recipient on
    /// success. Anyone may trigger execution; the guard is the clock.
    pub fn execute_payout(&mut self, payout_id: u64, now: u64) -> (r: Result<i128, PayoutError>)
        requires
            old(self).wf(),
        ensures
            final(self).wf(),
            old(self).same_config(*final(self)),
            r is Err ==> *final(self) == *old(self),
            r == Err::<i128, PayoutError>(PayoutError::PayoutNotFound) <==> !old(self).has_payout(
                payout_id,
            ),
            r == Err::<i128, PayoutError>(PayoutError::PayoutNotScheduled) <==> old(
                self,
            ).has_payout(payout_id) && old(self).payout(payout_id).status != PayoutStatus::Scheduled,
            r == Err::<i128, PayoutError>(PayoutError::TooEarlyToExecute) <==> old(self).has_payout(
                payout_id,
            ) && old(self).payout(payout_id).status == PayoutStatus::Scheduled && now < old(
                self,
            ).payout(payout_id).execute_after,
            r == Err::<i128, PayoutError>(PayoutError::EarningsOverflow) <==> old(self).has_payout(
                payout_id,
            ) && old(self).payout(payout_id).status == PayoutStatus::Scheduled && now >= old(
                self,
            ).payout(payout_id).execute_after && (exists|j: int|
                0 <= j < old(self).earnings@.len() && (#[trigger] old(
                    self,
                ).earnings@[j]).publisher == old(self).payout(payout_id).recipient && !(i128::MIN
                    <= old(self).earnings@[j].total_paid + old(self).payout(payout_id).amount
                    <= i128::MAX)),
            r is Ok <==> old(self).has_payout(payout_id) && old(self).payout(payout_id).status
                == PayoutStatus::Scheduled && now >= old(self).payout(payout_id).execute_after && (
            forall|j: int|
                0 <= j < old(self).earnings@.len() && (#[trigger] old(
                    self,
                ).earnings@[j]).publisher == old(self).payout(payout_id).recipient ==> i128::MIN
                    <= old(self).earnings@[j].total_paid + old(self).payout(payout_id).amount
                    <= i128::MAX),
            r matches Ok(moved) ==> {
                let pre = old(self).payout(payout_id);
                &&& moved == pre.amount
                &&& final(self).payouts@ == old(self).payouts@.update(
                    payout_id as int - 1,
                    ScheduledPayout {
                        status: PayoutStatus::Completed,
                        executed_at: Some(now),
                        ..pre
                    },
                )
                &&& (old(self).has_earnings(pre.recipient) ==> {
                    &&& final(self).earnings@.len() == old(self).earnings@.len()
                    &&& (forall|j: int|
                        0 <= j < old(self).earnings@.len() ==> {
                            let a = (#[trigger] old(self).earnings@[j]);
                            let b = final(self).earnings@[j];
                            if a.publisher == pre.recipient {
                                b == PublisherEarnings {
                                    pending_amount: saturating_sub_spec(
                                        a.pending_amount,
                                        pre.amount,
                                    ),
                                    total_paid: (a.total_paid + pre.amount) as i128,
                                    last_payout: now,
                                    ..a
                                }
                            } else {
                                b == a
                            }
                        })
                })
                &&& (!old(self).has_earnings(pre.recipient) ==> final(self).earnings@ == old(
                    self,
                ).earnings@.push(
                    PublisherEarnings {
                        publisher: pre.recipient,
                        pending_amount: saturating_sub_spec(0, pre.amount),
                        total_paid: pre.amount,
                        last_payout: now,
                    },
                ))
            },
    {
        if !(1 <= payout_id && payout_id <= self.payouts.len() as u64) {
            return Err(PayoutError::PayoutNotFound);
        }
        let idx: usize = (payout_id - 1) as usize;
        let payout = self.payouts[idx];
        if payout.status != PayoutStatus::Scheduled {
            return Err(PayoutError::PayoutNotScheduled);
        }
        if now < payout.execute_after {
            return Err(PayoutError::TooEarlyToExecute);
        }
        match find_earnings(&self.earnings, payout.recipient) {
            Some(e_idx) => {
                let entry = self.earnings[e_idx];
                let total: i128 = match entry.total_paid.checked_add(payout.amount) {
                    Some(t) => t,
                    None => { return Err(PayoutError::EarningsOverflow) },
                };
                self.payouts.set(
                    idx,
                    ScheduledPayout {
                        status: PayoutStatus::Completed,
                        executed_at: Some(now),
                        ..payout
                    },
                );
                self.earnings.set(
                    e_idx,
                    PublisherEarnings {
                        pending_amount: saturating_sub(entry.pending_amount, payout.amount),
                        total_paid: total,
                        last_payout: now,
                        ..entry
                    },
                );
                Ok(payout.amount)
            },
            None => {
                self.payouts.set(
                    idx,
                    ScheduledPayout {
                        status: PayoutStatus::Completed,
                        executed_at: Some(now),
                        ..payout
                    },
                );
                self.earnings.push(
                    PublisherEarnings {
                        publisher: payout.recipient,
                        pending_amount: saturating_sub(0, payout.amount),
                        total_paid: payout.amount,
                        last_payout: now,
                    },
                );
                Ok(payout.amount)
            },
        }
    }

    /// Credit pending earnings to a publisher, creating the entry on first
    /// use. Administrator only.
    pub fn add_publisher_earnings(&mut self, admin: u64, publisher: u64, amount: i128) -> (r:
        Result<(), PayoutError>)
        requires
            old(self).wf(),
        ensures
            final(self).wf(),
            old(self).same_config(*final(self)),
            r is Err ==> *final(self) == *old(self),
            r == Err::<(), PayoutError>(PayoutError::Unauthorized) <==> admin != old(self).admin,
            r == Err::<(), PayoutError>(PayoutError::EarningsOverflow) <==> admin == old(self).admin
                && (exists|j: int|
                0 <= j < old(self).earnings@.len() && (#[trigger] old(
                    self,
                ).earnings@[j]).publisher == publisher && !(i128::MIN <= old(
                    self,
                ).earnings@[j].pending_amount + amount <= i128::MAX)),
            r is Ok <==> admin == old(self).admin && (forall|j: int|
                0 <= j < old(self).earnings@.len() && (#[trigger] old(
                    self,
                ).earnings@[j]).publisher == publisher ==> i128::MIN <= old(
                    self,
                ).earnings@[j].pending_amount + amount <= i128::MAX),
            r is Ok ==> {
                &&& final(self).payouts@ == old(self).payouts@
                &&& (old(self).has_earnings(publisher) ==> {
                    &&& final(self).earnings@.len() == old(self).earnings@.len()
                    &&& (forall|j: int|
                        0 <= j < old(self).earnings@.len() ==> {
                            let a = (#[trigger] old(self).earnings@[j]);
                            let b = final(self).earnings@[j];
                            if a.publisher == publisher {
                                b == PublisherEarnings {
                                    pending_amount: (a.pending_amount + amount) as i128,
                                    ..a
                                }
                            } else {
                                b == a
                            }
                        })
                })
                &&& (!old(self).has_earnings(publisher) ==> final(self).earnings@ == old(
                    self,
                ).earnings@.push(
                    PublisherEarnings {
                        publisher,
                        pending_amount: amount,
                        total_paid: 0,
                        last_payout: 0,
                    },
                ))
            },
    {
        if admin != self.admin {
            return Err(PayoutError::Unauthorized);
        }
        match find_earnings(&self.earnings, publisher) {
            Some(e_idx) => {
                let entry = self.earnings[e_idx];
                let pending: i128 = match entry.pending_amount.checked_add(amount) {
                    Some(p) => p,
                    None => { return Err(PayoutError::EarningsOverflow) },
                };
                self.earnings.set(e_idx, PublisherEarnings { pending_amount: pending, ..entry });
                Ok(())
            },
            None => {
                self.earnings.push(
                    PublisherEarnings {
                        publisher,
                        pending_amount: amount,
                        total_paid: 0,
                        last_payout: 0,
                    },
                );
                Ok(())
            },
        }
    }

    /// Read one scheduled payout.
    pub fn get_payout(&self, payout_id: u64) -> (r: Option<ScheduledPayout>)
        ensures
            self.has_payout(payout_id) ==> r == Some(self.payout(payout_id)),
            !self.has_payout(payout_id) ==> r is None,
    {
        if 1 <= payout_id && payout_id <= self.payouts.len() as u64 {
            let idx: usize = (payout_id - 1) as usize;
            Some(self.payouts[idx])
        } else {
            None
        }
    }

    /// Read a publisher's earnings entry, if one exists.
    pub fn get_publisher_earnings(&self, publisher: u64) -> (r: Option<PublisherEarnings>)
        ensures
            r is Some <==> self.has_earnings(publisher),
            r matches Some(e) ==> e.publisher == publisher && self.earnings@.contains(e),
    {
        match find_earnings(&self.earnings, publisher) {
            Some(e_idx) => {
                let entry = self.earnings[e_idx];
                proof {
                    assert(self.earnings@[e_idx as int] == entry);
                }
                Some(entry)
            },
            None => None,
        }
    }
}

/// Linear scan for a publisher's earnings entry.
fn find_earnings(earnings: &Vec<PublisherEarnings>, publisher: u64) -> (r: Option<usize>)
    ensures
        r matches Some(i) ==> i < earnings@.len() && earnings@[i as int].publisher == publisher,
        r is None ==> forall|j: int| 0 <= j < earnings@.len() ==> earnings@[j].publisher
            != publisher,
{
    let mut i: usize = 0;
    while i < earnings.len()
        invariant
            i <= earnings.len(),
            forall|j: int| 0 <= j < i ==> earnings@[j].publisher != publisher,
        decreases earnings.len() - i,
    {
        if earnings[i].publisher == publisher {
            return Some(i);
        }
        i = i + 1;
    }
    None
}

} // verus!
