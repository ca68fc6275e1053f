//! Conditional escrow settlement engine.
//!
//! The vault holds deposited funds per escrow and releases them to the
//! beneficiary only once three independent conditions hold at the same time:
//! the time lock has elapsed, enough distinct required approvers have
//! approved, and the latest oracle-reported performance score meets the
//! escrow's threshold (an escrow without a performance record passes that
//! condition by definition). Refund-on-expiry is a depositor-protecting
//! escape hatch gated purely on the clock, never on the release gate.
//!
//! The host authenticates callers before invoking an operation, supplies the
//! ledger timestamp as `now`, and performs the token movement that a
//! successful operation reports; a failed operation leaves the state
//! untouched, so the host can treat state change and transfer as one atomic
//! step by committing only after the transfer succeeds.

use vstd::prelude::*;

verus! {

/// Lifecycle of one escrow. `Pending` is reserved for deferred funding and
/// is never produced by `create_escrow`, which locks funds immediately.
#[derive(Clone, Copy, PartialEq, Eq, Structural, Debug)]
pub enum EscrowState {
    Pending,
    Locked,
    Released,
    Refunded,
    PartiallyReleased,
}

/// One escrow record: immutable identity and terms, plus the three mutable
/// balance buckets whose sum always equals the original deposit.
#[derive(Clone, Copy, PartialEq, Eq, Debug)]
pub struct Escrow {
    pub campaign_id: u64,
    pub depositor: u64,
    pub beneficiary: u64,
    pub amount: i128,
    pub locked_amount: i128,
    pub released_amount: i128,
    pub refunded_amount: i128,
    pub state: EscrowState,
    pub time_lock_until: u64,
    pub performance_threshold: u32,
    pub created_at: u64,
    pub locked_at: Option<u64>,
    pub released_at: Option<u64>,
    pub expires_at: u64,
}

/// An approval as recorded for one approver.
#[derive(Clone, Copy, PartialEq, Eq, Debug)]
pub struct EscrowApproval {
    pub approved: bool,
    pub timestamp: u64,
}

/// Latest oracle-reported delivery snapshot for an escrow; replaced
/// wholesale on every update.
#[derive(Clone, Copy, PartialEq, Eq, Debug)]
pub struct PerformanceMetrics {
    pub current_performance: u32,
    pub views_delivered: u64,
    pub clicks_delivered: u64,
    pub last_updated: u64,
}

/// An approval together with the approver it came from.
#[derive(Clone, Copy, PartialEq, Eq, Debug)]
pub struct ApprovalRecord {
    pub approver: u64,
    pub approval: EscrowApproval,
}

/// Per-escrow approval registry: who may approve, who has approved, and the
/// counter the release gate consults. An approver's first approval counts;
/// later calls refresh the recorded timestamp without inflating the counter.
pub struct ApprovalRegistry {
    pub required: Vec<u64>,
    pub records: Vec<ApprovalRecord>,
    pub count: u32,
}

/// Everything the vault stores for one escrow identifier.
pub struct EscrowEntry {
    pub escrow: Escrow,
    pub registry: ApprovalRegistry,
    pub performance: Option<PerformanceMetrics>,
}

/// Why an escrow operation was rejected. Every rejection aborts the whole
/// operation before any state change.
#[derive(Clone, Copy, PartialEq, Eq, Debug)]
pub enum EscrowError {
    /// The deposit or release amount was not positive, or exceeded the
    /// locked balance.
    InvalidAmount,
    /// A performance threshold outside 0..=100.
    InvalidThreshold,
    /// A timestamp computation would exceed the clock's range.
    TimestampOverflow,
    /// The referenced escrow identifier has no record.
    EscrowNotFound,
    /// The caller is not registered as a required approver for this escrow.
    NotRequiredApprover,
    /// Approvals are closed because the escrow is already fully released.
    AlreadyReleased,
    /// The approval counter cannot grow any further.
    ApprovalOverflow,
    /// The caller may not perform this operation.
    Unauthorized,
    /// The time lock has not elapsed yet.
    TimeLockActive,
    /// Fewer approvals than the configured quorum.
    ApprovalRequired,
    /// The reported performance score is below the escrow's threshold.
    PerformanceBelowThreshold,
    /// A performance score outside 0..=100.
    InvalidPerformance,
    /// No locked funds remain to release.
    NothingToRelease,
    /// The escrow has not reached its expiry timestamp.
    NotYetExpired,
    /// No locked funds remain to refund.
    NothingToRefund,
}

/// The escrow vault: configuration fixed at initialization and one entry per
/// escrow, identified by its creation rank (first escrow has identifier 1).
pub struct EscrowVaultContract {
    pub admin: u64,
    pub token: u64,
    pub oracle: u64,
    pub min_approval_threshold: u32,
    pub entries: Vec<EscrowEntry>,
}

/// Balance conservation and state/balance consistency of one escrow record.
pub open spec fn escrow_wf(e: Escrow) -> bool {
    &&& e.amount > 0
    &&& e.locked_amount >= 0
    &&& e.released_amount >= 0
    &&& e.refunded_amount >= 0
    &&& e.locked_amount + e.released_amount + e.refunded_amount == e.amount
    &&& e.performance_threshold <= 100
    &&& e.state != EscrowState::Pending
    &&& (e.state == EscrowState::Locked ==> e.locked_amount == e.amount)
    &&& (e.state == EscrowState::Released ==> e.locked_amount == 0 && e.released_amount
        == e.amount)
    &&& (e.state == EscrowState::Refunded ==> e.locked_amount == 0)
    &&& (e.state == EscrowState::PartiallyReleased ==> e.released_amount > 0
        && e.refunded_amount == 0)
}

/// Well-formedness of one approval registry: the counter matches the number
/// of recorded approvals, approvers are distinct, registered, and recorded
/// as having approved.
pub open spec fn registry_wf(r: ApprovalRegistry) -> bool {
    &&& r.count as int == r.records@.len()
    &&& forall|i: int, j: int|
        0 <= i < j < r.records@.len() ==> #[trigger] r.records@[i].approver
            != #[trigger] r.records@[j].approver
    &&& forall|i: int|
        0 <= i < r.records@.len() ==> r.required@.contains(#[trigger] r.records@[i].approver)
    &&& forall|i: int| 0 <= i < r.records@.len() ==> (#[trigger] r.records@[i]).approval.approved
}

/// Well-formedness of one stored entry.
pub open spec fn entry_wf(e: EscrowEntry) -> bool {
    &&& escrow_wf(e.escrow)
    &&& registry_wf(e.registry)
}

impl EscrowVaultContract {
    /// Every stored escrow is well formed. Operations require and preserve
    /// this.
    pub open spec fn wf(self) -> bool {
        forall|i: int| 0 <= i < self.entries@.len() ==> entry_wf(#[trigger] self.entries@[i])
    }

    /// Escrow identifiers are creation ranks: 1 up to the number of escrows.
    pub open spec fn has_escrow(self, escrow_id: u64) -> bool {
        1 <= escrow_id && escrow_id as int <= self.entries@.len()
    }

    pub open spec fn entry(self, escrow_id: u64) -> EscrowEntry {
        self.entries@[escrow_id as int - 1]
    }

    /// The configuration never changes after initialization.
    pub open spec fn same_config(self, other: EscrowVaultContract) -> bool {
        &&& self.admin == other.admin
        &&& self.token == other.token
        &&& self.oracle == other.oracle
        &&& self.min_approval_threshold == other.min_approval_threshold
    }
}

/// The temporal condition of the release gate.
pub open spec fn time_ok(e: Escrow, now: u64) -> bool {
    now >= e.time_lock_until
}

/// The quorum condition of the release gate.
pub open spec fn approvals_ok(count: u32, min_approval_threshold: u32) -> bool {
    count >= min_approval_threshold
}

/// The performance condition of the release gate: a missing record passes by
/// definition, so escrows without a performance requirement are never
/// permanently blocked.
pub open spec fn perf_ok(e: Escrow, perf: Option<PerformanceMetrics>) -> bool {
    match perf {
        Some(p) => p.current_performance >= e.performance_threshold,
        None => true,
    }
}

/// The release gate: all three conditions at once.
pub open spec fn release_gate(
    e: Escrow,
    count: u32,
    perf: Option<PerformanceMetrics>,
    min_approval_threshold: u32,
    now: u64,
) -> bool {
    time_ok(e, now) && approvals_ok(count, min_approval_threshold) && perf_ok(e, perf)
}

impl EscrowVaultContract {
    /// The release gate as evaluated against the vault's stored state for
    /// one escrow.
    pub open spec fn gate_holds(self, escrow_id: u64, now: u64) -> bool {
        release_gate(
            self.entry(escrow_id).escrow,
            self.entry(escrow_id).registry.count,
            self.entry(escrow_id).performance,
            self.min_approval_threshold,
            now,
        )
    }

    /// Who may trigger a full or partial release of an escrow: its
    /// depositor or the administrator.
    pub open spec fn release_authorized(self, caller: u64, escrow_id: u64) -> bool {
        caller == self.entry(escrow_id).escrow.depositor || caller == self.admin
    }

    /// When a full or partial release is permitted: the escrow exists, the
    /// caller is its depositor or the administrator, the release gate
    /// holds, and locked funds remain.
    pub open spec fn release_allowed(self, caller: u64, escrow_id: u64, now: u64) -> bool {
        &&& self.has_escrow(escrow_id)
        &&& self.release_authorized(caller, escrow_id)
        &&& self.gate_holds(escrow_id, now)
        &&& self.entry(escrow_id).escrow.locked_amount > 0
    }

    /// When a refund is permitted: expiry reached and locked funds remain,
    /// independent of approvals and performance.
    pub open spec fn refund_allowed(self, escrow_id: u64, now: u64) -> bool {
        &&& self.has_escrow(escrow_id)
        &&& now >= self.entry(escrow_id).escrow.expires_at
        &&& self.entry(escrow_id).escrow.locked_amount > 0
    }
}

/// Balances only ever move one way: deposits are fixed, `released_amount`
/// and `refunded_amount` never decrease, `locked_amount` never increases,
/// and no escrow is ever deleted.
pub open spec fn balances_monotonic(pre: EscrowVaultContract, post: EscrowVaultContract) -> bool {
    &&& post.entries@.len() >= pre.entries@.len()
    &&& forall|i: int|
        0 <= i < pre.entries@.len() ==> {
            let a = (#[trigger] pre.entries@[i]).escrow;
            let b = (#[trigger] post.entries@[i]).escrow;
            &&& b.amount == a.amount
            &&& b.released_amount >= a.released_amount
            &&& b.refunded_amount >= a.refunded_amount
            &&& b.locked_amount <= a.locked_amount
        }
}

impl EscrowVaultContract {
    /// Set up a vault with its administrator, settlement token, performance
    /// oracle, and the default approval quorum of one.
    pub fn initialize(admin: u64, token: u64, oracle: u64) -> (v: EscrowVaultContract)
        ensures
            v.wf(),
            v.admin == admin,
            v.token == token,
            v.oracle == oracle,
            v.min_approval_threshold == 1,
            v.entries@.len() == 0,
    {
        EscrowVaultContract { admin, token, oracle, min_approval_threshold: 1, entries: Vec::new() }
    }

    /// Number of escrows created so far; the identifier of the next escrow
    /// will be one past this.
    pub fn escrow_count(&self) -> (n: u64)
        ensures
            n as int == self.entries@.len(),
    {
        self.entries.len() as u64
    }

    /// Read one escrow record.
    pub fn get_escrow(&self, escrow_id: u64) -> (r: Option<Escrow>)
        ensures
            self.has_escrow(escrow_id) ==> r == Some(self.entry(escrow_id).escrow),
            !self.has_escrow(escrow_id) ==> r is None,
    {
        if 1 <= escrow_id && escrow_id <= self.entries.len() as u64 {
            let idx: usize = (escrow_id - 1) as usize;
            Some(self.entries[idx].escrow)
        } else {
            None
        }
    }

    /// Read the latest performance record, if the oracle reported one.
    pub fn get_performance(&self, escrow_id: u64) -> (r: Option<PerformanceMetrics>)
        ensures
            self.has_escrow(escrow_id) ==> r == self.entry(escrow_id).performance,
            !self.has_escrow(escrow_id) ==> r is None,
    {
        if 1 <= escrow_id && escrow_id <= self.entries.len() as u64 {
            let idx: usize = (escrow_id - 1) as usize;
            self.entries[idx].performance
        } else {
            None
        }
    }

    /// Read the approval counter the release gate consults; zero for an
    /// unknown escrow.
    pub fn get_approval_count(&self, escrow_id: u64) -> (r: u32)
        ensures
            self.has_escrow(escrow_id) ==> r == self.entry(escrow_id).registry.count,
            !self.has_escrow(escrow_id) ==> r == 0,
    {
        if 1 <= escrow_id && escrow_id <= self.entries.len() as u64 {
            let idx: usize = (escrow_id - 1) as usize;
            self.entries[idx].registry.count
        } else {
            0
        }
    }

    /// Whether `who` was registered at creation as a required approver of
    /// this escrow; a pure lookup.
    pub fn is_required_approver(&self, escrow_id: u64, who: u64) -> (r: bool)
        ensures
            r == (self.has_escrow(escrow_id) && self.entry(
                escrow_id,
            ).registry.required@.contains(who)),
    {
        if 1 <= escrow_id && escrow_id <= self.entries.len() as u64 {
            let idx: usize = (escrow_id - 1) as usize;
            contains_u64(&self.entries[idx].registry.required, who)
        } else {
            false
        }
    }

    /// Read-only capability query: would the release gate pass right now?
    /// Evaluated from stored state on every call, never cached, so it
    /// reflects approvals and performance reports up to this moment.
    pub fn can_release(&self, escrow_id: u64, now: u64) -> (r: bool)
        ensures
            r == (self.has_escrow(escrow_id) && self.gate_holds(escrow_id, now)),
    {
        if 1 <= escrow_id && escrow_id <= self.entries.len() as u64 {
            let idx: usize = (escrow_id - 1) as usize;
            let entry = &self.entries[idx];
            let time_is_ok: bool = now >= entry.escrow.time_lock_until;
            let approvals_are_ok: bool = entry.registry.count >= self.min_approval_threshold;
            let perf_is_ok: bool = match entry.performance {
                Some(p) => p.current_performance >= entry.escrow.performance_threshold,
                None => true,
            };
            time_is_ok && approvals_are_ok && perf_is_ok
        } else {
            false
        }
    }
}

impl EscrowVaultContract {
    /// Evaluate the release gate against stored state, reporting the first
    /// unmet condition in the order: time lock, approval quorum,
    /// performance threshold.
    fn check_can_release(
        e: &Escrow,
        count: u32,
        perf: &Option<PerformanceMetrics>,
        min_approval_threshold: u32,
        now: u64,
    ) -> (r: Result<(), EscrowError>)
        ensures
            r is Ok <==> release_gate(*e, count, *perf, min_approval_threshold, now),
            r == Err::<(), EscrowError>(EscrowError::TimeLockActive) <==> !time_ok(*e, now),
            r == Err::<(), EscrowError>(EscrowError::ApprovalRequired) <==> time_ok(*e, now)
                && !approvals_ok(count, min_approval_threshold),
            r == Err::<(), EscrowError>(EscrowError::PerformanceBelowThreshold) <==> time_ok(
                *e,
                now,
            ) && approvals_ok(count, min_approval_threshold) && !perf_ok(*e, *perf),
    {
        if now < e.time_lock_until {
            return Err(EscrowError::TimeLockActive);
        }
        if count < min_approval_threshold {
            return Err(EscrowError::ApprovalRequired);
        }
        if let Some(p) = perf {
            if p.current_performance < e.performance_threshold {
                return Err(EscrowError::PerformanceBelowThreshold);
            }
        }
        Ok(())
    }

    /// Release the entire remaining locked balance to the beneficiary.
    /// Only the depositor or the administrator may trigger it, and only
    /// while the release gate holds; the returned amount is what the host
    /// must transfer from custody to the beneficiary.
    pub fn release_escrow(&mut self, caller: u64, escrow_id: u64, now: u64) -> (r: Result<
        i128,
        EscrowError,
    >)
        requires
            old(self).wf(),
        ensures
            final(self).wf(),
            old(self).same_config(*final(self)),
            balances_monotonic(*old(self), *final(self)),
            r is Ok <==> old(self).release_allowed(caller, escrow_id, now),
            r is Err ==> *final(self) == *old(self),
            r == Err::<i128, EscrowError>(EscrowError::EscrowNotFound) <==> !old(self).has_escrow(
                escrow_id,
            ),
            r == Err::<i128, EscrowError>(EscrowError::Unauthorized) <==> old(self).has_escrow(
                escrow_id,
            ) && !old(self).release_authorized(caller, escrow_id),
            r == Err::<i128, EscrowError>(EscrowError::TimeLockActive) <==> old(self).has_escrow(
                escrow_id,
            ) && old(self).release_authorized(caller, escrow_id) && !time_ok(
                old(self).entry(escrow_id).escrow,
                now,
            ),
            r == Err::<i128, EscrowError>(EscrowError::ApprovalRequired) <==> old(self).has_escrow(
                escrow_id,
            ) && old(self).release_authorized(caller, escrow_id) && time_ok(
                old(self).entry(escrow_id).escrow,
                now,
            ) && !approvals_ok(
                old(self).entry(escrow_id).registry.count,
                old(self).min_approval_threshold,
            ),
            r == Err::<i128, EscrowError>(EscrowError::PerformanceBelowThreshold) <==> old(
                self,
            ).has_escrow(escrow_id) && old(self).release_authorized(caller, escrow_id) && time_ok(
                old(self).entry(escrow_id).escrow,
                now,
            ) && approvals_ok(
                old(self).entry(escrow_id).registry.count,
                old(self).min_approval_threshold,
            ) && !perf_ok(old(self).entry(escrow_id).escrow, old(self).entry(escrow_id).performance),
            r == Err::<i128, EscrowError>(EscrowError::NothingToRelease) <==> old(self).has_escrow(
                escrow_id,
            ) && old(self).release_authorized(caller, escrow_id) && old(self).gate_holds(
                escrow_id,
                now,
            ) && old(self).entry(escrow_id).escrow.locked_amount <= 0,
            r matches Ok(moved) ==> {
                let pre = old(self).entry(escrow_id).escrow;
                &&& moved == pre.locked_amount
                &&& final(self).entries@.len() == old(self).entries@.len()
                &&& (forall|j: int|
                    0 <= j < old(self).entries@.len() && j != escrow_id - 1
                        ==> final(self).entries@[j] == old(self).entries@[j])
                &&& final(self).entry(escrow_id).escrow == (Escrow {
                    locked_amount: 0,
                    released_amount: pre.amount,
                    state: EscrowState::Released,
                    released_at: Some(now),
                    ..pre
                })
                &&& final(self).entry(escrow_id).registry == old(self).entry(escrow_id).registry
                &&& final(self).entry(escrow_id).performance == old(self).entry(
                    escrow_id,
                ).performance
            },
    {
        if !(1 <= escrow_id && escrow_id <= self.entries.len() as u64) {
            return Err(EscrowError::EscrowNotFound);
        }
        let idx: usize = (escrow_id - 1) as usize;
        if caller != self.entries[idx].escrow.depositor && caller != self.admin {
            return Err(EscrowError::Unauthorized);
        }
        if let Err(gate_err) = Self::check_can_release(
            &self.entries[idx].escrow,
            self.entries[idx].registry.count,
            &self.entries[idx].performance,
            self.min_approval_threshold,
            now,
        ) {
            return Err(gate_err);
        }
        if self.entries[idx].escrow.locked_amount <= 0 {
            return Err(EscrowError::NothingToRelease);
        }
        let mut entry = self.entries.remove(idx);
        let locked: i128 = entry.escrow.locked_amount;
        entry.escrow.locked_amount = 0;
        entry.escrow.released_amount = entry.escrow.amount;
        entry.escrow.state = EscrowState::Released;
        entry.escrow.released_at = Some(now);
        let ghost gentry = entry;
        self.entries.insert(idx, entry);
        proof {
            assert(self.entries@ =~= old(self).entries@.update(idx as int, gentry));
        }
        Ok(locked)
    }
}

/// Whether `who` already has an approval on record in this registry.
pub open spec fn approved_by(r: ApprovalRegistry, who: u64) -> bool {
    exists|i: int| 0 <= i < r.records@.len() && (#[trigger] r.records@[i]).approver == who
}

impl EscrowVaultContract {
    /// Create a new escrow: the host transfers `amount` of the settlement
    /// token from the depositor into custody before committing this state
    /// change. The escrow locks immediately, with the time lock and expiry
    /// measured from `now`, and every listed principal registered as a
    /// required approver. Returns the new escrow's identifier.
    pub fn create_escrow(
        &mut self,
        depositor: u64,
        campaign_id: u64,
        beneficiary: u64,
        amount: i128,
        time_lock_duration: u64,
        performance_threshold: u32,
        expires_in: u64,
        required_approvers: Vec<u64>,
        now: u64,
    ) -> (r: Result<u64, EscrowError>)
        requires
            old(self).wf(),
        ensures
            final(self).wf(),
            old(self).same_config(*final(self)),
            balances_monotonic(*old(self), *final(self)),
            r is Ok <==> amount > 0 && performance_threshold <= 100 && now + time_lock_duration
                <= u64::MAX && now + expires_in <= u64::MAX,
            r is Err ==> *final(self) == *old(self),
            r == Err::<u64, EscrowError>(EscrowError::InvalidAmount) <==> amount <= 0,
            r == Err::<u64, EscrowError>(EscrowError::InvalidThreshold) <==> amount > 0
                && performance_threshold > 100,
            r == Err::<u64, EscrowError>(EscrowError::TimestampOverflow) <==> amount > 0
                && performance_threshold <= 100 && (now + time_lock_duration > u64::MAX || now
                + expires_in > u64::MAX),
            r matches Ok(escrow_id) ==> {
                &&& escrow_id as int == old(self).entries@.len() + 1
                &&& final(self).entries@.len() == old(self).entries@.len() + 1
                &&& (forall|j: int|
                    0 <= j < old(self).entries@.len() ==> final(self).entries@[j] == old(
                        self,
                    ).entries@[j])
                &&& final(self).has_escrow(escrow_id)
                &&& ({
                    let e = final(self).entry(escrow_id).escrow;
                    &&& e.campaign_id == campaign_id
                    &&& e.depositor == depositor
                    &&& e.beneficiary == beneficiary
                    &&& e.amount == amount
                    &&& e.locked_amount == amount
                    &&& e.released_amount == 0
                    &&& e.refunded_amount == 0
                    &&& e.state == EscrowState::Locked
                    &&& e.time_lock_until == now + time_lock_duration
                    &&& e.performance_threshold == performance_threshold
                    &&& e.created_at == now
                    &&& e.locked_at == Some(now)
                    &&& e.released_at is None
                    &&& e.expires_at == now + expires_in
                })
                &&& final(self).entry(escrow_id).registry.required@ == required_approvers@
                &&& final(self).entry(escrow_id).registry.records@.len() == 0
                &&& final(self).entry(escrow_id).registry.count == 0
                &&& final(self).entry(escrow_id).performance is None
            },
    {
        if amount <= 0 {
            return Err(EscrowError::InvalidAmount);
        }
        if performance_threshold > 100 {
            return Err(EscrowError::InvalidThreshold);
        }
        if time_lock_duration > u64::MAX - now || expires_in > u64::MAX - now {
            return Err(EscrowError::TimestampOverflow);
        }
        let escrow = Escrow {
            campaign_id,
            depositor,
            beneficiary,
            amount,
            locked_amount: amount,
            released_amount: 0,
            refunded_amount: 0,
            state: EscrowState::Locked,
            time_lock_until: now + time_lock_duration,
            performance_threshold,
            created_at: now,
            locked_at: Some(now),
            released_at: None,
            expires_at: now + expires_in,
        };
        let entry = EscrowEntry {
            escrow,
            registry: ApprovalRegistry { required: required_approvers, records: Vec::new(), count: 0 },
            performance: None,
        };
        self.entries.push(entry);
        Ok(self.entries.len() as u64)
    }

    /// Record one approval from a registered required approver. The first
    /// approval from each approver increments the counter the release gate
    /// consults; a repeated approval only refreshes the recorded timestamp,
    /// so no approver can inflate the quorum alone. Approvals close once
    /// the escrow is fully released.
    pub fn approve_release(&mut self, approver: u64, escrow_id: u64, now: u64) -> (r: Result<
        (),
        EscrowError,
    >)
        requires
            old(self).wf(),
        ensures
            final(self).wf(),
            old(self).same_config(*final(self)),
            balances_monotonic(*old(self), *final(self)),
            r is Ok <==> old(self).has_escrow(escrow_id) && old(self).entry(
                escrow_id,
            ).registry.required@.contains(approver) && old(self).entry(escrow_id).escrow.state
                != EscrowState::Released && !(!approved_by(
                old(self).entry(escrow_id).registry,
                approver,
            ) && old(self).entry(escrow_id).registry.count == u32::MAX),
            r is Err ==> *final(self) == *old(self),
            r == Err::<(), EscrowError>(EscrowError::NotRequiredApprover) <==> !(old(
                self,
            ).has_escrow(escrow_id) && old(self).entry(escrow_id).registry.required@.contains(
                approver,
            )),
            r == Err::<(), EscrowError>(EscrowError::AlreadyReleased) <==> old(self).has_escrow(
                escrow_id,
            ) && old(self).entry(escrow_id).registry.required@.contains(approver) && old(
                self,
            ).entry(escrow_id).escrow.state == EscrowState::Released,
            r is Ok ==> {
                let pre = old(self).entry(escrow_id).registry;
                let post = final(self).entry(escrow_id).registry;
                &&& final(self).entries@.len() == old(self).entries@.len()
                &&& (forall|j: int|
                    0 <= j < old(self).entries@.len() && j != escrow_id - 1
                        ==> final(self).entries@[j] == old(self).entries@[j])
                &&& final(self).entry(escrow_id).escrow == old(self).entry(escrow_id).escrow
                &&& final(self).entry(escrow_id).performance == old(self).entry(
                    escrow_id,
                ).performance
                &&& post.required@ == pre.required@
                &&& approved_by(post, approver)
                &&& (approved_by(pre, approver) ==> post.count == pre.count && post.records@.len()
                    == pre.records@.len())
                &&& (!approved_by(pre, approver) ==> post.count == pre.count + 1
                    && post.records@ == pre.records@.push(
                    ApprovalRecord {
                        approver,
                        approval: EscrowApproval { approved: true, timestamp: now },
                    },
                ))
                &&& (forall|j: int|
                    0 <= j < pre.records@.len() ==> (#[trigger] post.records@[j]).approver
                        == pre.records@[j].approver)
                &&& (forall|j: int|
                    0 <= j < pre.records@.len() && pre.records@[j].approver != approver
                        ==> #[trigger] post.records@[j] == pre.records@[j])
            },
    {
        if !(1 <= escrow_id && escrow_id <= self.entries.len() as u64) {
            return Err(EscrowError::NotRequiredApprover);
        }
        let idx: usize = (escrow_id - 1) as usize;
        if !contains_u64(&self.entries[idx].registry.required, approver) {
            return Err(EscrowError::NotRequiredApprover);
        }
        if self.entries[idx].escrow.state == EscrowState::Released {
            return Err(EscrowError::AlreadyReleased);
        }
        let found = find_approval(&self.entries[idx].registry.records, approver);
        let approval = EscrowApproval { approved: true, timestamp: now };
        match found {
            Some(i) => {
                let mut entry = self.entries.remove(idx);
                entry.registry.records.set(i, ApprovalRecord { approver, approval });
                let ghost gentry = entry;
                self.entries.insert(idx, entry);
                proof {
                    assert(gentry.registry.records@[i as int].approver == approver);
                    assert(approved_by(gentry.registry, approver));
                    assert(approved_by(old(self).entry(escrow_id).registry, approver));
                    assert(self.entries@ =~= old(self).entries@.update(idx as int, gentry));
                }
                Ok(())
            },
            None => {
                if self.entries[idx].registry.count == u32::MAX {
                    return Err(EscrowError::ApprovalOverflow);
                }
                let mut entry = self.entries.remove(idx);
                entry.registry.records.push(ApprovalRecord { approver, approval });
                entry.registry.count = entry.registry.count + 1;
                let ghost gentry = entry;
                self.entries.insert(idx, entry);
                proof {
                    assert(gentry.registry.records@[gentry.registry.records@.len() - 1].approver
                        == approver);
                    assert(approved_by(gentry.registry, approver));
                    assert(self.entries@ =~= old(self).entries@.update(idx as int, gentry));
                }
                Ok(())
            },
        }
    }

    /// Release part of the locked balance to the beneficiary. Same caller
    /// rule and gate as a full release; the amount must be positive and at
    /// most the locked balance. The escrow can be drained over several
    /// partial releases. The host transfers `amount` from custody to the
    /// beneficiary on success.
    pub fn release_partial(&mut self, caller: u64, escrow_id: u64, amount: i128, now: u64) -> (r:
        Result<(), EscrowError>)
        requires
            old(self).wf(),
        ensures
            final(self).wf(),
            old(self).same_config(*final(self)),
            balances_monotonic(*old(self), *final(self)),
            r is Ok <==> old(self).has_escrow(escrow_id) && old(self).release_authorized(
                caller,
                escrow_id,
            ) && old(self).gate_holds(escrow_id, now) && 0 < amount <= old(self).entry(
                escrow_id,
            ).escrow.locked_amount,
            r is Err ==> *final(self) == *old(self),
            r == Err::<(), EscrowError>(EscrowError::EscrowNotFound) <==> !old(self).has_escrow(
                escrow_id,
            ),
            r == Err::<(), EscrowError>(EscrowError::Unauthorized) <==> old(self).has_escrow(
                escrow_id,
            ) && !old(self).release_authorized(caller, escrow_id),
            r == Err::<(), EscrowError>(EscrowError::InvalidAmount) <==> old(self).has_escrow(
                escrow_id,
            ) && old(self).release_authorized(caller, escrow_id) && old(self).gate_holds(
                escrow_id,
                now,
            ) && !(0 < amount <= old(self).entry(escrow_id).escrow.locked_amount),
            r is Ok ==> {
                let pre = old(self).entry(escrow_id).escrow;
                &&& final(self).entries@.len() == old(self).entries@.len()
                &&& (forall|j: int|
                    0 <= j < old(self).entries@.len() && j != escrow_id - 1
                        ==> final(self).entries@[j] == old(self).entries@[j])
                &&& final(self).entry(escrow_id).escrow == (Escrow {
                    locked_amount: (pre.locked_amount - amount) as i128,
                    released_amount: (pre.released_amount + amount) as i128,
                    state: EscrowState::PartiallyReleased,
                    ..pre
                })
                &&& final(self).entry(escrow_id).registry == old(self).entry(escrow_id).registry
                &&& final(self).entry(escrow_id).performance == old(self).entry(
                    escrow_id,
                ).performance
            },
    {
        if !(1 <= escrow_id && escrow_id <= self.entries.len() as u64) {
            return Err(EscrowError::EscrowNotFound);
        }
        let idx: usize = (escrow_id - 1) as usize;
        if caller != self.entries[idx].escrow.depositor && caller != self.admin {
            return Err(EscrowError::Unauthorized);
        }
        if let Err(gate_err) = Self::check_can_release(
            &self.entries[idx].escrow,
            self.entries[idx].registry.count,
            &self.entries[idx].performance,
            self.min_approval_threshold,
            now,
        ) {
            return Err(gate_err);
        }
        if amount <= 0 || amount > self.entries[idx].escrow.locked_amount {
            return Err(EscrowError::InvalidAmount);
        }
        let mut entry = self.entries.remove(idx);
        entry.escrow.locked_amount = entry.escrow.locked_amount - amount;
        entry.escrow.released_amount = entry.escrow.released_amount + amount;
        entry.escrow.state = EscrowState::PartiallyReleased;
        let ghost gentry = entry;
        self.entries.insert(idx, entry);
        proof {
            assert(self.entries@ =~= old(self).entries@.update(idx as int, gentry));
        }
        Ok(())
    }

    /// Refund the remaining locked balance to the depositor once the escrow
    /// has expired. Any authenticated caller may trigger it: the guard is
    /// the clock, not the caller's identity, so the depositor's escape
    /// hatch works even if approvers and the oracle never act. The returned
    /// amount is what the host must transfer from custody back to the
    /// depositor.
    pub fn refund_escrow(&mut self, escrow_id: u64, now: u64) -> (r: Result<i128, EscrowError>)
        requires
            old(self).wf(),
        ensures
            final(self).wf(),
            old(self).same_config(*final(self)),
            balances_monotonic(*old(self), *final(self)),
            r is Ok <==> old(self).refund_allowed(escrow_id, now),
            r is Err ==> *final(self) == *old(self),
            r == Err::<i128, EscrowError>(EscrowError::EscrowNotFound) <==> !old(self).has_escrow(
                escrow_id,
            ),
            r == Err::<i128, EscrowError>(EscrowError::NotYetExpired) <==> old(self).has_escrow(
                escrow_id,
            ) && now < old(self).entry(escrow_id).escrow.expires_at,
            r == Err::<i128, EscrowError>(EscrowError::NothingToRefund) <==> old(self).has_escrow(
                escrow_id,
            ) && now >= old(self).entry(escrow_id).escrow.expires_at && old(self).entry(
                escrow_id,
            ).escrow.locked_amount <= 0,
            r matches Ok(moved) ==> {
                let pre = old(self).entry(escrow_id).escrow;
                &&& moved == pre.locked_amount
                &&& final(self).entries@.len() == old(self).entries@.len()
                &&& (forall|j: int|
                    0 <= j < old(self).entries@.len() && j != escrow_id - 1
                        ==> final(self).entries@[j] == old(self).entries@[j])
                &&& final(self).entry(escrow_id).escrow == (Escrow {
                    locked_amount: 0,
                    refunded_amount: pre.locked_amount,
                    state: EscrowState::Refunded,
                    ..pre
                })
                &&& final(self).entry(escrow_id).registry == old(self).entry(escrow_id).registry
                &&& final(self).entry(escrow_id).performance == old(self).entry(
                    escrow_id,
                ).performance
            },
    {
        if !(1 <= escrow_id && escrow_id <= self.entries.len() as u64) {
            return Err(EscrowError::EscrowNotFound);
        }
        let idx: usize = (escrow_id - 1) as usize;
        if now < self.entries[idx].escrow.expires_at {
            return Err(EscrowError::NotYetExpired);
        }
        if self.entries[idx].escrow.locked_amount <= 0 {
            return Err(EscrowError::NothingToRefund);
        }
        let mut entry = self.entries.remove(idx);
        let refund: i128 = entry.escrow.locked_amount;
        entry.escrow.locked_amount = 0;
        entry.escrow.refunded_amount = refund;
        entry.escrow.state = EscrowState::Refunded;
        let ghost gentry = entry;
        self.entries.insert(idx, entry);
        proof {
            assert(self.entries@ =~= old(self).entries@.update(idx as int, gentry));
        }
        Ok(refund)
    }

    /// Replace the performance record for an escrow wholesale; last write
    /// wins, no history is kept. Only the registered oracle principal may
    /// report, and scores are percentages in 0..=100.
    pub fn update_performance(
        &mut self,
        oracle: u64,
        escrow_id: u64,
        performance: u32,
        views: u64,
        clicks: u64,
        now: u64,
    ) -> (r: Result<(), EscrowError>)
        requires
            old(self).wf(),
        ensures
            final(self).wf(),
            old(self).same_config(*final(self)),
            balances_monotonic(*old(self), *final(self)),
            r is Ok <==> oracle == old(self).oracle && performance <= 100 && old(self).has_escrow(
                escrow_id,
            ),
            r is Err ==> *final(self) == *old(self),
            r == Err::<(), EscrowError>(EscrowError::Unauthorized) <==> oracle != old(self).oracle,
            r == Err::<(), EscrowError>(EscrowError::InvalidPerformance) <==> oracle == old(
                self,
            ).oracle && performance > 100,
            r == Err::<(), EscrowError>(EscrowError::EscrowNotFound) <==> oracle == old(self).oracle
                && performance <= 100 && !old(self).has_escrow(escrow_id),
            r is Ok ==> {
                &&& final(self).entries@.len() == old(self).entries@.len()
                &&& (forall|j: int|
                    0 <= j < old(self).entries@.len() && j != escrow_id - 1
                        ==> final(self).entries@[j] == old(self).entries@[j])
                &&& final(self).entry(escrow_id).escrow == old(self).entry(escrow_id).escrow
                &&& final(self).entry(escrow_id).registry == old(self).entry(escrow_id).registry
                &&& final(self).entry(escrow_id).performance == Some(
                    PerformanceMetrics {
                        current_performance: performance,
                        views_delivered: views,
                        clicks_delivered: clicks,
                        last_updated: now,
                    },
                )
            },
    {
        if oracle != self.oracle {
            return Err(EscrowError::Unauthorized);
        }
        if performance > 100 {
            return Err(EscrowError::InvalidPerformance);
        }
        if !(1 <= escrow_id && escrow_id <= self.entries.len() as u64) {
            return Err(EscrowError::EscrowNotFound);
        }
        let idx: usize = (escrow_id - 1) as usize;
        let mut entry = self.entries.remove(idx);
        entry.performance = Some(
            PerformanceMetrics {
                current_performance: performance,
                views_delivered: views,
                clicks_delivered: clicks,
                last_updated: now,
            },
        );
        let ghost gentry = entry;
        self.entries.insert(idx, entry);
        proof {
            assert(self.entries@ =~= old(self).entries@.update(idx as int, gentry));
        }
        Ok(())
    }
}

/// Conservation: at every observable point, the three balance buckets of a
/// stored escrow are non-negative and sum to the original deposit.
pub proof fn lemma_conservation(v: EscrowVaultContract, escrow_id: u64)
    requires
        v.wf(),
        v.has_escrow(escrow_id),
    ensures
        ({
            let e = v.entry(escrow_id).escrow;
            &&& e.locked_amount >= 0
            &&& e.released_amount >= 0
            &&& e.refunded_amount >= 0
            &&& e.locked_amount + e.released_amount + e.refunded_amount == e.amount
        }),
{
    assert(entry_wf(v.entries@[escrow_id as int - 1]));
}

/// Gate monotonicity: once the release gate passes it keeps passing while
/// time advances and approvals accumulate, provided the performance record
/// is not overwritten. The release gate can only close again through a
/// later performance report whose score falls below the escrow's
/// threshold, which is why the record is held fixed here.
pub proof fn lemma_gate_monotonic(
    e: Escrow,
    count0: u32,
    count1: u32,
    perf: Option<PerformanceMetrics>,
    min_approval_threshold: u32,
    t0: u64,
    t1: u64,
)
    requires
        release_gate(e, count0, perf, min_approval_threshold, t0),
        count1 >= count0,
        t1 >= t0,
    ensures
        release_gate(e, count1, perf, min_approval_threshold, t1),
{
}

/// Terminal-state closure: once an escrow is fully released or refunded,
/// nothing is locked any more, so no full release, partial release of any
/// amount, or refund is permitted again, for any caller at any time.
pub proof fn lemma_terminal_state_closure(v: EscrowVaultContract, escrow_id: u64)
    requires
        v.wf(),
        v.has_escrow(escrow_id),
        v.entry(escrow_id).escrow.state == EscrowState::Released || v.entry(escrow_id).escrow.state
            == EscrowState::Refunded,
    ensures
        v.entry(escrow_id).escrow.locked_amount == 0,
        forall|caller: u64, now: u64| !v.release_allowed(caller, escrow_id, now),
        forall|now: u64| !v.refund_allowed(escrow_id, now),
{
    assert(entry_wf(v.entries@[escrow_id as int - 1]));
}

/// Linear scan for the index of an approver's record.
fn find_approval(records: &Vec<ApprovalRecord>, who: u64) -> (r: Option<usize>)
    ensures
        r matches Some(i) ==> i < records@.len() && records@[i as int].approver == who,
        r is None ==> forall|j: int| 0 <= j < records@.len() ==> records@[j].approver != who,
{
    let mut i: usize = 0;
    while i < records.len()
        invariant
            i <= records.len(),
            forall|j: int| 0 <= j < i ==> records@[j].approver != who,
        decreases records.len() - i,
    {
        if records[i].approver == who {
            return Some(i);
        }
        i = i + 1;
    }
    None
}

/// Linear scan for a principal in a registration list.
fn contains_u64(v: &Vec<u64>, x: u64) -> (r: bool)
    ensures
        r == v@.contains(x),
{
    let mut i: usize = 0;
    while i < v.len()
        invariant
            i <= v.len(),
            forall|j: int| 0 <= j < i ==> v@[j] != x,
        decreases v.len() - i,
    {
        if v[i] == x {
            return true;
        }
        i = i + 1;
    }
    false
}

} // verus!
