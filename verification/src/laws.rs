//! What holds of the engine as a whole, proved from the contracts of its
//! operations.
//!
//! The platform serializes the operations against one engine, so a history
//! is a sequence of operations, each applied to the state the previous one
//! left. [`run`] is that history; the laws below speak of single steps and of
//! whole histories.

use vstd::prelude::*;
use crate::admin::{ControlView, GlobalPauseState};
use crate::engine::{EngineView, TransferRequest};
use crate::error::{Address, TransferError, VestingError};
use crate::schedule::{lemma_unlocked_bounded, VestingSchedule};

verus! {

/// The admin control module and the engine it governs, side by side.
#[verifier::ext_equal]
pub struct SystemView {
    pub control: ControlView,
    pub engine: EngineView,
}

/// One call of a state-changing operation, with its arguments and, where the
/// operation involves the backend, with what the backend answered.
pub enum Operation {
    Pause { caller: Address },
    Unpause { caller: Address },
    AddAdmin { caller: Address, new_admin: Address },
    RemoveAdmin { caller: Address, admin: Address },
    CreateSchedule {
        beneficiary: Address,
        total_amount: u64,
        start_time: u64,
        cliff_duration: u64,
        vesting_duration: u64,
        caller: Address,
    },
    Claim { id: u64, caller: Address, at_time: u64, outcome: Result<(), TransferError> },
    Revoke { id: u64, caller: Address },
    RecoverUnvested { id: u64, caller: Address, outcome: Result<(), TransferError> },
    PauseSchedule { id: u64, caller: Address },
    UnpauseSchedule { id: u64, caller: Address },
    TakeEvents,
}

impl SystemView {
    /// Both parts satisfy their invariants.
    pub open spec fn valid(self) -> bool {
        &&& self.control.valid()
        &&& self.engine.valid()
    }

    /// The system after one operation.
    pub open spec fn step(self, op: Operation) -> SystemView {
        match op {
            Operation::Pause { caller } => SystemView {
                control: self.control.after_pause(caller),
                ..self
            },
            Operation::Unpause { caller } => SystemView {
                control: self.control.after_unpause(caller),
                ..self
            },
            Operation::AddAdmin { caller, new_admin } => SystemView {
                control: self.control.after_add_admin(caller, new_admin),
                ..self
            },
            Operation::RemoveAdmin { caller, admin } => SystemView {
                control: self.control.after_remove_admin(caller, admin),
                ..self
            },
            Operation::CreateSchedule {
                beneficiary,
                total_amount,
                start_time,
                cliff_duration,
                vesting_duration,
                caller,
            } => match self.engine.create_check(
                self.control,
                beneficiary,
                total_amount,
                start_time,
                cliff_duration,
                vesting_duration,
                caller,
            ) {
                Ok(created) => SystemView { engine: self.engine.after_create(created), ..self },
                Err(_) => self,
            },
            Operation::Claim { id, caller, at_time, outcome } => SystemView {
                engine: self.engine.after_claim(self.control, id, caller, at_time, outcome),
                ..self
            },
            Operation::Revoke { id, caller } => SystemView {
                engine: self.engine.after_revoke(self.control, id, caller),
                ..self
            },
            Operation::RecoverUnvested { id, caller, outcome } => SystemView {
                engine: self.engine.after_recovery(self.control, id, caller, outcome),
                ..self
            },
            Operation::PauseSchedule { id, caller } => SystemView {
                engine: self.engine.after_schedule_pause(self.control, id, caller, true),
                ..self
            },
            Operation::UnpauseSchedule { id, caller } => SystemView {
                engine: self.engine.after_schedule_pause(self.control, id, caller, false),
                ..self
            },
            Operation::TakeEvents => SystemView {
                engine: EngineView { events: Seq::empty(), ..self.engine },
                ..self
            },
        }
    }

    /// The error with which an operation is refused, if it is refused.
    pub open spec fn refusal(self, op: Operation) -> Option<VestingError> {
        match op {
            Operation::Pause { caller } | Operation::Unpause { caller } | Operation::AddAdmin {
                caller,
                ..
            } => self.control.authorize(caller).err(),
            Operation::RemoveAdmin { caller, admin } => self.control.remove_admin_result(
                caller,
                admin,
            ).err(),
            Operation::CreateSchedule {
                beneficiary,
                total_amount,
                start_time,
                cliff_duration,
                vesting_duration,
                caller,
            } => self.engine.create_check(
                self.control,
                beneficiary,
                total_amount,
                start_time,
                cliff_duration,
                vesting_duration,
                caller,
            ).err(),
            Operation::Claim { id, caller, at_time, outcome } => self.engine.claim_result(
                self.control,
                id,
                caller,
                at_time,
                outcome,
            ).err(),
            Operation::Revoke { id, caller } => self.engine.revoke_result(
                self.control,
                id,
                caller,
            ).err(),
            Operation::RecoverUnvested { id, caller, outcome } => self.engine.recovery_result(
                self.control,
                id,
                caller,
                outcome,
            ).err(),
            Operation::PauseSchedule { id, caller } | Operation::UnpauseSchedule {
                id,
                caller,
            } => self.engine.schedule_pause_result(self.control, id, caller).err(),
            Operation::TakeEvents => None,
        }
    }

    /// The system after a whole history of operations, applied in order.
    pub open spec fn run(self, history: Seq<Operation>) -> SystemView
        decreases history.len(),
    {
        if history.len() == 0 {
            self
        } else {
            self.run(history.drop_last()).step(history.last())
        }
    }

    /// Every schedule of `self` is still there in `later`, under the same id
    /// and terms, with no less released.
    pub open spec fn continues_as(self, later: SystemView) -> bool {
        &&& later.engine.vault == self.engine.vault
        &&& later.engine.treasury == self.engine.treasury
        &&& later.engine.schedules.len() >= self.engine.schedules.len()
        &&& forall|i: int|
            #![trigger self.engine.schedules[i]]
            0 <= i < self.engine.schedules.len() ==> self.engine.schedules[i].continues_as(
                later.engine.schedules[i],
            )
    }
}

/// The amount released lies between nothing and the grant, for every stored
/// schedule of a valid engine.
pub proof fn law_released_within_total(engine: EngineView, id: u64)
    requires
        engine.valid(),
        engine.contains_id(id),
    ensures
        0 <= engine.schedule(id).released_amount <= engine.schedule(id).total_amount,
        engine.schedule(id).id == id,
{
}

/// One operation, whatever it is and whoever calls it, keeps the system
/// valid, deletes no schedule, alters no terms and lowers no released amount.
pub proof fn law_step_keeps_invariants(system: SystemView, op: Operation)
    requires
        system.valid(),
    ensures
        system.step(op).valid(),
        system.continues_as(system.step(op)),
{
    let next = system.step(op);
    match op {
        Operation::Claim { id, caller, at_time, outcome } => {
            if system.engine.claim_result(system.control, id, caller, at_time, outcome) is Ok {
                lemma_unlocked_bounded(system.engine.schedule(id), at_time as int);
            }
        },
        _ => {},
    }
    assert forall|i: int| 0 <= i < next.engine.schedules.len() implies {
        &&& (#[trigger] next.engine.schedules[i]).id == i
        &&& next.engine.schedules[i].valid()
    } by {
        if i < system.engine.schedules.len() {
            assert(system.engine.schedules[i].valid());
        }
    }
    assert forall|i: int|
        #![trigger system.engine.schedules[i]]
        0 <= i < system.engine.schedules.len() implies system.engine.schedules[i].continues_as(
        next.engine.schedules[i],
    ) by {
        assert(system.engine.schedules[i].valid());
    }
}

/// After any history of operations the system is valid, and every schedule
/// it started with is still stored under its id, with its terms unchanged,
/// with at least as much released as before and never more than its grant;
/// a schedule that was revoked has exactly as much released as it had.
///
/// In particular no interleaving of claims against one schedule releases
/// more than was granted.
pub proof fn law_history_keeps_invariants(system: SystemView, history: Seq<Operation>)
    requires
        system.valid(),
    ensures
        system.run(history).valid(),
        system.continues_as(system.run(history)),
        forall|id: u64|
            #![trigger system.engine.contains_id(id)]
            system.engine.contains_id(id) ==> {
                let before = system.engine.schedule(id);
                let after = system.run(history).engine.schedule(id);
                &&& system.run(history).engine.contains_id(id)
                &&& before.continues_as(after)
                &&& before.released_amount <= after.released_amount <= after.total_amount
            },
    decreases history.len(),
{
    if history.len() > 0 {
        let earlier = system.run(history.drop_last());
        law_history_keeps_invariants(system, history.drop_last());
        law_step_keeps_invariants(earlier, history.last());
        let last = system.run(history);
        assert forall|i: int|
            #![trigger system.engine.schedules[i]]
            0 <= i < system.engine.schedules.len() implies system.engine.schedules[i].continues_as(
            last.engine.schedules[i],
        ) by {
            assert(system.engine.schedules[i].continues_as(earlier.engine.schedules[i]));
            assert(earlier.engine.schedules[i].continues_as(last.engine.schedules[i]));
        }
    }
    assert forall|id: u64| #![trigger system.engine.contains_id(id)]
        system.engine.contains_id(id) implies {
        let before = system.engine.schedule(id);
        let after = system.run(history).engine.schedule(id);
        &&& system.run(history).engine.contains_id(id)
        &&& before.continues_as(after)
        &&& before.released_amount <= after.released_amount <= after.total_amount
    } by {
        assert(system.engine.schedules[id as int].continues_as(
            system.run(history).engine.schedules[id as int],
        ));
        assert(system.run(history).engine.schedules[id as int].valid());
    }
}

/// An operation that is refused, for whatever reason, leaves every stored
/// value exactly as it was.
pub proof fn law_refusal_changes_nothing(system: SystemView, op: Operation)
    requires
        system.refusal(op) is Some,
    ensures
        system.step(op) == system,
{
}

/// An operation on one schedule leaves every other schedule, the vaults and
/// the pending events exactly as they were.
pub proof fn law_operations_touch_one_schedule(system: SystemView, op: Operation, other: u64)
    requires
        system.valid(),
        system.engine.contains_id(other),
        match op {
            Operation::Claim { id, .. }
            | Operation::Revoke { id, .. }
            | Operation::RecoverUnvested { id, .. }
            | Operation::PauseSchedule { id, .. }
            | Operation::UnpauseSchedule { id, .. } => id != other,
            _ => false,
        },
    ensures
        system.step(op).engine.schedule(other) == system.engine.schedule(other),
        system.step(op).engine.schedules.len() == system.engine.schedules.len(),
        system.step(op).engine.events == system.engine.events,
        system.step(op).engine.vault == system.engine.vault,
        system.step(op).engine.treasury == system.engine.treasury,
        system.step(op).control == system.control,
{
}

/// Before the cliff has passed nothing is releasable, whatever the record
/// holds, and a claim moves nothing.
pub proof fn law_nothing_before_cliff(
    engine: EngineView,
    control: ControlView,
    id: u64,
    caller: Address,
    at_time: u64,
    outcome: Result<(), TransferError>,
)
    requires
        engine.contains_id(id),
        at_time < engine.schedule(id).start_time + engine.schedule(id).cliff_duration,
    ensures
        engine.schedule(id).releasable_at(at_time as int) == 0,
        engine.claim_check(control, id, caller, at_time) is Err,
        engine.open_schedule(control, id) is Ok && caller == engine.schedule(id).beneficiary
            ==> engine.claim_check(control, id, caller, at_time) == Err::<
            TransferRequest,
            VestingError,
        >(VestingError::NothingToClaim),
        engine.after_claim(control, id, caller, at_time, outcome) == engine,
{
}

/// Before the cliff has passed nothing is releasable from any record.
pub proof fn law_cliff_holds_everything_back(schedule: VestingSchedule, at_time: int)
    requires
        at_time < schedule.start_time + schedule.cliff_duration,
    ensures
        schedule.releasable_at(at_time) == 0,
{
}

/// The elapsed share of a grant grows with the time elapsed.
proof fn lemma_share_monotonic(total: int, earlier: int, later: int, duration: int)
    requires
        0 <= total,
        0 <= earlier <= later,
        0 < duration,
    ensures
        total * earlier / duration <= total * later / duration,
{
    assert(total * earlier <= total * later) by (nonlinear_arith)
        requires
            0 <= total,
            0 <= earlier <= later,
    ;
    vstd::arithmetic::div_mod::lemma_div_is_ordered(total * earlier, total * later, duration);
}

/// What time has unlocked never shrinks as time advances, and never exceeds
/// the grant.
pub proof fn law_unlocking_only_grows(schedule: VestingSchedule, earlier: int, later: int)
    requires
        earlier <= later,
    ensures
        0 <= schedule.unlocked_at(earlier) <= schedule.unlocked_at(later) <= schedule.total_amount,
{
    lemma_unlocked_bounded(schedule, earlier);
    lemma_unlocked_bounded(schedule, later);
    if schedule.cliff_end() <= earlier && later < schedule.vesting_end() {
        lemma_share_monotonic(
            schedule.total_amount as int,
            earlier - schedule.start_time,
            later - schedule.start_time,
            schedule.vesting_duration as int,
        );
    }
}

/// What is releasable never exceeds what is left of the grant: released and
/// releasable together stay within `total_amount`, at every instant.
pub proof fn law_releasable_within_remainder(schedule: VestingSchedule, at_time: int)
    requires
        schedule.released_amount <= schedule.total_amount,
    ensures
        0 <= schedule.releasable_at(at_time) <= schedule.total_amount - schedule.released_amount,
{
    lemma_unlocked_bounded(schedule, at_time);
}

/// Once the vesting interval is over, a schedule that is not revoked owes
/// its beneficiary exactly what has not been released yet.
pub proof fn law_everything_unlocked_at_the_end(schedule: VestingSchedule, at_time: int)
    requires
        schedule.valid(),
        !schedule.revoked,
        at_time >= schedule.start_time + schedule.vesting_duration,
    ensures
        schedule.releasable_at(at_time) == schedule.total_amount - schedule.released_amount,
{
}

/// Once the vesting interval is over, one successful claim against a
/// schedule that is neither revoked nor paused brings the amount released
/// to exactly the grant, and every claim after it, at whatever instant,
/// finds nothing to claim. A claim whose transfer fails changes nothing and
/// may be repeated.
pub proof fn law_claims_release_exactly_the_grant(
    engine: EngineView,
    control: ControlView,
    id: u64,
    at_time: u64,
    any_time: u64,
    failure: TransferError,
)
    requires
        engine.valid(),
        engine.open_schedule(control, id) is Ok,
        !engine.schedule(id).revoked,
        at_time >= engine.schedule(id).start_time + engine.schedule(id).vesting_duration,
    ensures
        ({
            let schedule = engine.schedule(id);
            let owner = schedule.beneficiary;
            let paid = engine.after_claim(control, id, owner, at_time, Ok(()));
            let refused = engine.after_claim(control, id, owner, at_time, Err(failure));
            &&& engine.claim_result(control, id, owner, at_time, Ok(())) == if schedule.released_amount
                < schedule.total_amount {
                Ok::<u64, VestingError>(
                    (schedule.total_amount - schedule.released_amount) as u64,
                )
            } else {
                Err::<u64, VestingError>(VestingError::NothingToClaim)
            }
            &&& paid.schedule(id).released_amount == schedule.total_amount
            &&& paid.claim_result(control, id, owner, any_time, Ok(())) == Err::<
                u64,
                VestingError,
            >(VestingError::NothingToClaim)
            &&& paid.after_claim(control, id, owner, any_time, Ok(())) == paid
            &&& refused == engine
        }),
{
    let schedule = engine.schedule(id);
    let paid = engine.after_claim(control, id, schedule.beneficiary, at_time, Ok(()));
    lemma_unlocked_bounded(schedule, at_time as int);
    lemma_unlocked_bounded(paid.schedule(id), any_time as int);
}

/// A second claim right after a successful one, with no time elapsed in
/// between, finds nothing to claim and changes nothing.
pub proof fn law_immediate_second_claim_is_empty(
    engine: EngineView,
    control: ControlView,
    id: u64,
    caller: Address,
    at_time: u64,
    second_outcome: Result<(), TransferError>,
)
    requires
        engine.valid(),
        engine.claim_result(control, id, caller, at_time, Ok(())) is Ok,
    ensures
        ({
            let after = engine.after_claim(control, id, caller, at_time, Ok(()));
            &&& after.claim_result(control, id, caller, at_time, second_outcome) == Err::<
                u64,
                VestingError,
            >(VestingError::NothingToClaim)
            &&& after.after_claim(control, id, caller, at_time, second_outcome) == after
            &&& after.schedule(id).released_amount == engine.schedule(id).released_amount
                + engine.claim_result(control, id, caller, at_time, Ok(()))->Ok_0
        }),
{
    lemma_unlocked_bounded(engine.schedule(id), at_time as int);
}

/// Under the global pause every claim is refused with `Paused` and changes
/// nothing; resuming puts the admin control module back exactly where it
/// was, so claims are decided as they were before the pause.
pub proof fn law_pause_blocks_and_unpause_restores(
    engine: EngineView,
    control: ControlView,
    admin: Address,
    id: u64,
    caller: Address,
    at_time: u64,
    outcome: Result<(), TransferError>,
)
    requires
        control.is_admin(admin),
    ensures
        ({
            let paused = control.after_pause(admin);
            &&& paused.is_paused()
            &&& engine.claim_result(paused, id, caller, at_time, outcome) == Err::<
                u64,
                VestingError,
            >(VestingError::Paused)
            &&& engine.after_claim(paused, id, caller, at_time, outcome) == engine
            &&& !paused.after_unpause(admin).is_paused()
            &&& !control.is_paused() ==> paused.after_unpause(admin) == control
            &&& engine.claim_check(paused.after_unpause(admin), id, caller, at_time)
                == engine.claim_check(
                ControlView { state: GlobalPauseState::Active, ..control },
                id,
                caller,
                at_time,
            )
        }),
{
    let resumed = control.after_pause(admin).after_unpause(admin);
    assert(resumed == ControlView { state: GlobalPauseState::Active, ..control });
}

/// Under the global pause no engine operation changes the engine, whoever
/// calls it and whatever it is.
pub proof fn law_global_pause_freezes_the_engine(system: SystemView, op: Operation)
    requires
        system.control.is_paused(),
        op is CreateSchedule || op is Claim || op is Revoke || op is RecoverUnvested,
    ensures
        system.step(op) == system,
{
}

/// A paused schedule refuses claims with `Paused` until it is resumed; to
/// resume it puts it back exactly where it was.
pub proof fn law_schedule_pause_blocks_and_unpause_restores(
    engine: EngineView,
    control: ControlView,
    admin: Address,
    id: u64,
    caller: Address,
    at_time: u64,
    outcome: Result<(), TransferError>,
)
    requires
        engine.valid(),
        engine.contains_id(id),
        control.is_admin(admin),
        !control.is_paused(),
    ensures
        ({
            let paused = engine.after_schedule_pause(control, id, admin, true);
            let resumed = paused.after_schedule_pause(control, id, admin, false);
            &&& engine.schedule_pause_result(control, id, admin) is Ok
            &&& paused.claim_result(control, id, caller, at_time, outcome) == Err::<
                u64,
                VestingError,
            >(VestingError::Paused)
            &&& paused.after_claim(control, id, caller, at_time, outcome) == paused
            &&& !engine.schedule(id).paused ==> resumed == engine
        }),
{
    let paused = engine.after_schedule_pause(control, id, admin, true);
    let resumed = paused.after_schedule_pause(control, id, admin, false);
    if !engine.schedule(id).paused {
        assert(resumed.schedules =~= engine.schedules);
    }
}

/// Revoking freezes a schedule: the amount released stays exactly what it
/// was at revocation, nothing is releasable at any later instant, every
/// claim finds nothing to claim, and the unreleased remainder is what the
/// treasury may recover.
pub proof fn law_revocation_freezes_release(
    engine: EngineView,
    control: ControlView,
    id: u64,
    admin: Address,
    caller: Address,
    any_time: u64,
    outcome: Result<(), TransferError>,
)
    requires
        engine.valid(),
        engine.revoke_result(control, id, admin) is Ok,
    ensures
        ({
            let before = engine.schedule(id);
            let revoked = engine.after_revoke(control, id, admin);
            &&& revoked.valid()
            &&& revoked.schedule(id) == VestingSchedule { revoked: true, ..before }
            &&& revoked.schedule(id).releasable_at(any_time as int) == 0
            &&& revoked.claim_result(control, id, before.beneficiary, any_time, outcome) == Err::<
                u64,
                VestingError,
            >(VestingError::NothingToClaim)
            &&& revoked.after_claim(control, id, caller, any_time, outcome) == revoked
            &&& revoked.schedule(id).recoverable() == before.total_amount
                - before.released_amount
            &&& revoked.revoke_result(control, id, admin) == Err::<(), VestingError>(
                VestingError::AlreadyRevoked,
            )
        }),
{
}

/// Revoking right after the beneficiary has claimed, at the same instant,
/// freezes the schedule at exactly the amount unlocked at that instant: that
/// much has been released, and nothing accrues however far time advances.
///
/// The clock being monotonic, nothing had been released before that was not
/// unlocked by then.
pub proof fn law_revocation_freezes_at_unlocked_amount(
    engine: EngineView,
    control: ControlView,
    id: u64,
    admin: Address,
    revoked_at: u64,
    any_time: u64,
    transfer: Result<(), TransferError>,
)
    requires
        engine.valid(),
        engine.open_schedule(control, id) is Ok,
        control.is_admin(admin),
        !engine.schedule(id).revoked,
        engine.schedule(id).released_amount <= engine.schedule(id).unlocked_at(revoked_at as int),
    ensures
        ({
            let before = engine.schedule(id);
            let claimed = engine.after_claim(control, id, before.beneficiary, revoked_at, Ok(()));
            let revoked = claimed.after_revoke(control, id, admin);
            &&& claimed.revoke_result(control, id, admin) is Ok
            &&& revoked.schedule(id).revoked
            &&& revoked.schedule(id).released_amount == before.unlocked_at(revoked_at as int)
            &&& revoked.schedule(id).releasable_at(any_time as int) == 0
            &&& revoked.after_claim(control, id, before.beneficiary, any_time, transfer)
                == revoked
            &&& revoked.schedule(id).recoverable() == before.total_amount - before.unlocked_at(
                revoked_at as int,
            )
        }),
{
    lemma_unlocked_bounded(engine.schedule(id), revoked_at as int);
}

/// A revoked schedule releases nothing, at any instant.
pub proof fn law_revoked_releases_nothing(schedule: VestingSchedule, at_time: int)
    requires
        schedule.revoked,
    ensures
        schedule.releasable_at(at_time) == 0,
{
}

/// Recovery pays the treasury once: after a successful recovery nothing is
/// left to recover, and what has left the vault on account of the schedule
/// is exactly its grant.
pub proof fn law_recovery_is_paid_once(
    engine: EngineView,
    control: ControlView,
    id: u64,
    admin: Address,
    second_outcome: Result<(), TransferError>,
)
    requires
        engine.valid(),
        engine.recovery_result(control, id, admin, Ok(())) is Ok,
    ensures
        ({
            let before = engine.schedule(id);
            let recovered = engine.after_recovery(control, id, admin, Ok(()));
            &&& engine.recovery_result(control, id, admin, Ok(())) == Ok::<u64, VestingError>(
                (before.total_amount - before.released_amount) as u64,
            )
            &&& before.revoked
            &&& recovered.valid()
            &&& recovered.schedule(id).paid_out() == before.total_amount
            &&& recovered.recovery_result(control, id, admin, second_outcome) == Err::<
                u64,
                VestingError,
            >(VestingError::NothingToClaim)
            &&& recovered.after_recovery(control, id, admin, second_outcome) == recovered
        }),
{
}

/// What has left the vault on account of a valid schedule never exceeds its
/// grant.
pub proof fn law_vault_never_overpays(schedule: VestingSchedule)
    requires
        schedule.valid(),
    ensures
        schedule.released_amount <= schedule.paid_out() <= schedule.total_amount,
{
}

/// The sole remaining administrator cannot be dismissed: the request is
/// refused with `CannotRemoveLastAdmin` and the registry stays as it was.
pub proof fn law_last_admin_cannot_be_removed(control: ControlView, admin: Address)
    requires
        control.valid(),
        control.admins.len() == 1,
        control.is_admin(admin),
    ensures
        control.remove_admin_result(admin, admin) == Err::<(), VestingError>(
            VestingError::CannotRemoveLastAdmin,
        ),
        control.after_remove_admin(admin, admin) == control,
        forall|caller: Address| caller != admin ==> !control.is_admin(caller),
{
    assert forall|caller: Address| caller != admin implies !control.is_admin(caller) by {
        if control.admins.contains(caller) {
            let rest = control.admins.remove(admin);
            assert(rest.contains(caller));
            assert(rest.len() == 0);
        }
    }
}

/// No request to the admin control module, granted or refused, leaves the
/// registry without an administrator.
pub proof fn law_registry_is_never_empty(system: SystemView, op: Operation)
    requires
        system.control.valid(),
    ensures
        system.step(op).control.valid(),
{
}

} // verus!
