//! The vesting schedule record and the arithmetic of linear unlocking.

use vstd::prelude::*;
use crate::error::Address;

verus! {

/// One grant to one beneficiary.
///
/// A record is created once and never deleted. Its terms (`total_amount`,
/// `start_time`, `cliff_duration`, `vesting_duration`) never change; only a
/// claim raises `released_amount`, only a revocation sets `revoked`, only a
/// recovery sets `recovered`, and only an administrator flips `paused`.
#[derive(Clone, Copy, Debug, PartialEq, Eq, Structural)]
pub struct VestingSchedule {
    /// Identifier, unique within the engine that created the record.
    pub id: u64,
    /// The only address entitled to claim.
    pub beneficiary: Address,
    /// Units granted in total.
    pub total_amount: u64,
    /// Units already transferred to the beneficiary.
    pub released_amount: u64,
    /// Instant at which vesting starts to accrue.
    pub start_time: u64,
    /// Interval after `start_time` during which nothing is released.
    pub cliff_duration: u64,
    /// Interval after `start_time` over which the whole grant unlocks.
    pub vesting_duration: u64,
    /// Once set, nothing more is released to the beneficiary.
    pub revoked: bool,
    /// Schedule-level pause, independent of the global one.
    pub paused: bool,
    /// Set when the unreleased remainder of a revoked grant has been
    /// returned to the treasury.
    pub recovered: bool,
}

impl VestingSchedule {
    /// The invariant of a stored record.
    pub open spec fn valid(self) -> bool {
        &&& self.total_amount > 0
        &&& self.vesting_duration > 0
        &&& self.cliff_duration <= self.vesting_duration
        &&& self.released_amount <= self.total_amount
        &&& self.start_time + self.vesting_duration <= u64::MAX
        &&& self.recovered ==> self.revoked
    }

    /// First instant at which anything is released.
    pub open spec fn cliff_end(self) -> int {
        self.start_time + self.cliff_duration
    }

    /// First instant at which the whole grant is unlocked.
    pub open spec fn vesting_end(self) -> int {
        self.start_time + self.vesting_duration
    }

    /// Units unlocked by the passage of time alone at `at_time`: nothing
    /// before the cliff has passed, everything once the vesting interval is
    /// over, and in between the elapsed share of the grant, rounded down.
    pub open spec fn unlocked_at(self, at_time: int) -> int {
        if at_time < self.cliff_end() {
            0
        } else if at_time >= self.vesting_end() {
            self.total_amount as int
        } else {
            self.total_amount * (at_time - self.start_time) / (self.vesting_duration as int)
        }
    }

    /// Units the beneficiary may claim at `at_time`: what is unlocked and not
    /// yet released, never negative, and nothing at all once revoked.
    pub open spec fn releasable_at(self, at_time: int) -> int {
        if self.revoked || self.unlocked_at(at_time) <= self.released_amount {
            0
        } else {
            self.unlocked_at(at_time) - self.released_amount
        }
    }

    /// Units the treasury may take back: the unreleased remainder of a
    /// revoked grant, once.
    pub open spec fn recoverable(self) -> int {
        if self.revoked && !self.recovered && self.released_amount <= self.total_amount {
            self.total_amount - self.released_amount
        } else {
            0
        }
    }

    /// What may become of a stored record over time: its identity and terms
    /// stay, `released_amount` only grows, and a revocation or a recovery is
    /// never undone; once revoked, `released_amount` stays where it is.
    pub open spec fn continues_as(self, later: VestingSchedule) -> bool {
        &&& later.id == self.id
        &&& later.beneficiary == self.beneficiary
        &&& later.total_amount == self.total_amount
        &&& later.start_time == self.start_time
        &&& later.cliff_duration == self.cliff_duration
        &&& later.vesting_duration == self.vesting_duration
        &&& later.released_amount >= self.released_amount
        &&& self.revoked ==> later.revoked && later.released_amount == self.released_amount
        &&& self.recovered ==> later.recovered
    }

    /// Units that have left the vault on account of this grant, to the
    /// beneficiary and to the treasury together.
    pub open spec fn paid_out(self) -> int {
        if self.recovered && self.released_amount <= self.total_amount {
            self.total_amount as int
        } else {
            self.released_amount as int
        }
    }
}

impl VestingSchedule {
    /// Tells whether a record read back from storage satisfies the invariant
    /// of a stored record.
    pub fn is_valid(&self) -> (ok: bool)
        ensures
            ok == self.valid(),
    {
        self.total_amount > 0 && self.vesting_duration > 0 && self.cliff_duration
            <= self.vesting_duration && self.released_amount <= self.total_amount
            && self.start_time.checked_add(self.vesting_duration).is_some() && (!self.recovered
            || self.revoked)
    }
}

/// The elapsed share of a grant never exceeds the grant.
pub proof fn lemma_share_bounded(total: int, elapsed: int, duration: int)
    requires
        0 <= total,
        0 <= elapsed < duration,
    ensures
        0 <= total * elapsed / duration <= total,
{
    assert(0 <= total * elapsed <= total * duration) by (nonlinear_arith)
        requires
            0 <= total,
            0 <= elapsed < duration,
    ;
    vstd::arithmetic::div_mod::lemma_div_is_ordered(total * elapsed, total * duration, duration);
    vstd::arithmetic::div_mod::lemma_div_multiples_vanish(total, duration);
    vstd::arithmetic::div_mod::lemma_div_pos_is_pos(total * elapsed, duration);
    assert(total * duration == duration * total) by (nonlinear_arith);
}

/// At every instant the unlocked amount lies between nothing and the grant.
pub proof fn lemma_unlocked_bounded(schedule: VestingSchedule, at_time: int)
    ensures
        0 <= schedule.unlocked_at(at_time) <= schedule.total_amount,
{
    if schedule.cliff_end() <= at_time < schedule.vesting_end() {
        lemma_share_bounded(
            schedule.total_amount as int,
            at_time - schedule.start_time,
            schedule.vesting_duration as int,
        );
    }
}

/// Computes the units unlocked by time alone at `at_time`.
///
/// Works on every record and every instant: the product of amount and
/// elapsed time is formed in 128 bits, where it always fits, before the
/// division.
pub fn unlocked_amount(schedule: &VestingSchedule, at_time: u64) -> (amount: u64)
    ensures
        amount == schedule.unlocked_at(at_time as int),
        amount <= schedule.total_amount,
{
    if at_time < schedule.start_time {
        return 0;
    }
    let elapsed: u64 = at_time - schedule.start_time;
    if elapsed < schedule.cliff_duration {
        return 0;
    }
    if elapsed >= schedule.vesting_duration {
        return schedule.total_amount;
    }
    let total: u128 = schedule.total_amount as u128;
    let span: u128 = elapsed as u128;
    let duration: u128 = schedule.vesting_duration as u128;
    proof {
        assert(total * span <= 0xffff_ffff_ffff_ffff * 0xffff_ffff_ffff_ffff) by (nonlinear_arith)
            requires
                0 <= total <= 0xffff_ffff_ffff_ffff,
                0 <= span <= 0xffff_ffff_ffff_ffff,
        ;
        lemma_share_bounded(total as int, span as int, duration as int);
    }
    let share: u128 = total * span / duration;
    share as u64
}

/// Computes the units the beneficiary may claim at `at_time`.
///
/// A pure read: nothing before `start_time + cliff_duration`, the elapsed
/// share less what was released in between, the unreleased remainder from
/// `start_time + vesting_duration` on, and nothing once revoked.
pub fn releasable_amount(schedule: &VestingSchedule, at_time: u64) -> (amount: u64)
    ensures
        amount == schedule.releasable_at(at_time as int),
{
    if schedule.revoked {
        return 0;
    }
    let unlocked: u64 = unlocked_amount(schedule, at_time);
    if unlocked <= schedule.released_amount {
        0
    } else {
        unlocked - schedule.released_amount
    }
}

/// Computes the units the treasury may take back from a revoked grant.
pub fn recoverable_amount(schedule: &VestingSchedule) -> (amount: u64)
    ensures
        amount == schedule.recoverable(),
{
    if schedule.revoked && !schedule.recovered
        && schedule.released_amount <= schedule.total_amount {
        schedule.total_amount - schedule.released_amount
    } else {
        0
    }
}

} // verus!
