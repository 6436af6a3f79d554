//! The vesting engine: the store of schedules and every operation on it.
//!
//! The engine decides; it does not move tokens. Where an operation pays out,
//! the engine first works out a [`TransferRequest`], the host's backend
//! performs it, and the ledger is written only if the backend reports
//! success. Each such operation comes in two forms: as one call that is
//! handed the backend as a function, and as a pair of calls (`authorize_..`,
//! `settle_..`) for hosts that have to perform the transfer themselves.

use vstd::prelude::*;
use crate::admin::{AdminControl, ControlView};
use crate::error::{Address, TransferError, VestingError};
use crate::schedule::{
    lemma_unlocked_bounded,
    recoverable_amount,
    releasable_amount,
    VestingSchedule,
};

verus! {

/// What the engine asks the asset-transfer backend to do.
#[derive(Clone, Copy, Debug, PartialEq, Eq, Structural)]
pub struct TransferRequest {
    /// The custodial vault that holds the locked units.
    pub from: Address,
    /// The beneficiary, or the treasury for a recovery.
    pub to: Address,
    /// Units to move; the engine never asks for none.
    pub amount: u64,
}

/// The event emitted when a schedule is created.
#[derive(Clone, Copy, Debug, PartialEq, Eq, Structural)]
pub struct ScheduleCreated {
    pub schedule_id: u64,
    pub beneficiary: Address,
    pub total_amount: u64,
    pub start_time: u64,
    pub cliff_duration: u64,
    pub vesting_duration: u64,
}

/// What the engine is, mathematically.
#[verifier::ext_equal]
pub struct EngineView {
    /// The custodial vault all grants are paid from.
    pub vault: Address,
    /// The admin vault that receives recovered funds.
    pub treasury: Address,
    /// The store: every schedule ever created, at the index that is its id.
    pub schedules: Seq<VestingSchedule>,
    /// Creation events emitted and not yet collected by the host.
    pub events: Seq<ScheduleCreated>,
}

/// The schedules of one beneficiary.
pub open spec fn granted_to(beneficiary: Address) -> spec_fn(VestingSchedule) -> bool {
    |schedule: VestingSchedule| schedule.beneficiary == beneficiary
}

impl EngineView {
    /// The invariant of the store: a schedule's id is its position, every
    /// record is valid, and the number of records fits an id.
    pub open spec fn valid(self) -> bool {
        &&& self.schedules.len() <= u64::MAX
        &&& forall|i: int|
            0 <= i < self.schedules.len() ==> {
                &&& (#[trigger] self.schedules[i]).id == i
                &&& self.schedules[i].valid()
            }
    }

    /// Whether a schedule is stored under `id`.
    pub open spec fn contains_id(self, id: u64) -> bool {
        (id as int) < self.schedules.len()
    }

    /// The schedule stored under `id`.
    pub open spec fn schedule(self, id: u64) -> VestingSchedule {
        self.schedules[id as int]
    }

    /// The store with the record of `updated.id` replaced by `updated`.
    pub open spec fn replace(self, updated: VestingSchedule) -> EngineView {
        EngineView { schedules: self.schedules.update(updated.id as int, updated), ..self }
    }

    /// All schedules of `beneficiary`, in the order of their creation.
    pub open spec fn owned_by(self, beneficiary: Address) -> Seq<VestingSchedule> {
        self.schedules.filter(granted_to(beneficiary))
    }

    /// The pause guard and the lookup in front of every operation that
    /// changes a stored schedule: the global pause is consulted first, then
    /// the schedule is looked up, then its own pause is consulted.
    pub open spec fn open_schedule(self, control: ControlView, id: u64) -> Result<
        VestingSchedule,
        VestingError,
    > {
        if control.is_paused() {
            Err(VestingError::Paused)
        } else if !self.contains_id(id) {
            Err(VestingError::NotFound)
        } else if self.schedule(id).paused {
            Err(VestingError::Paused)
        } else {
            Ok(self.schedule(id))
        }
    }

    /// The record `create_schedule` would store, or the reason it refuses.
    pub open spec fn create_check(
        self,
        control: ControlView,
        beneficiary: Address,
        total_amount: u64,
        start_time: u64,
        cliff_duration: u64,
        vesting_duration: u64,
        caller: Address,
    ) -> Result<VestingSchedule, VestingError> {
        if control.is_paused() {
            Err(VestingError::Paused)
        } else if !control.is_admin(caller) {
            Err(VestingError::Unauthorized)
        } else if total_amount == 0 || vesting_duration == 0 || cliff_duration > vesting_duration {
            Err(VestingError::InvalidParameters)
        } else if start_time + vesting_duration > u64::MAX || self.schedules.len() + 1
            > u64::MAX {
            Err(VestingError::ArithmeticOverflow)
        } else {
            Ok(
                VestingSchedule {
                    id: self.schedules.len() as u64,
                    beneficiary,
                    total_amount,
                    released_amount: 0,
                    start_time,
                    cliff_duration,
                    vesting_duration,
                    revoked: false,
                    paused: false,
                    recovered: false,
                },
            )
        }
    }

    /// The engine after `created` was stored and its creation announced.
    pub open spec fn after_create(self, created: VestingSchedule) -> EngineView {
        EngineView {
            schedules: self.schedules.push(created),
            events: self.events.push(
                ScheduleCreated {
                    schedule_id: created.id,
                    beneficiary: created.beneficiary,
                    total_amount: created.total_amount,
                    start_time: created.start_time,
                    cliff_duration: created.cliff_duration,
                    vesting_duration: created.vesting_duration,
                },
            ),
            ..self
        }
    }

    /// The transfer a claim calls for, or the reason there is none.
    pub open spec fn claim_check(
        self,
        control: ControlView,
        id: u64,
        caller: Address,
        at_time: u64,
    ) -> Result<TransferRequest, VestingError> {
        match self.open_schedule(control, id) {
            Err(e) => Err(e),
            Ok(schedule) => if caller != schedule.beneficiary {
                Err(VestingError::Unauthorized)
            } else if schedule.releasable_at(at_time as int) == 0 {
                Err(VestingError::NothingToClaim)
            } else {
                Ok(
                    TransferRequest {
                        from: self.vault,
                        to: schedule.beneficiary,
                        amount: schedule.releasable_at(at_time as int) as u64,
                    },
                )
            },
        }
    }

    /// What a claim returns, given what the backend answered.
    pub open spec fn claim_result(
        self,
        control: ControlView,
        id: u64,
        caller: Address,
        at_time: u64,
        outcome: Result<(), TransferError>,
    ) -> Result<u64, VestingError> {
        match self.claim_check(control, id, caller, at_time) {
            Err(e) => Err(e),
            Ok(request) => match outcome {
                Err(e) => Err(VestingError::TransferFailed(e)),
                Ok(_) => Ok(request.amount),
            },
        }
    }

    /// The engine after a claim, given what the backend answered: the amount
    /// transferred is added to `released_amount`, or nothing changes.
    pub open spec fn after_claim(
        self,
        control: ControlView,
        id: u64,
        caller: Address,
        at_time: u64,
        outcome: Result<(), TransferError>,
    ) -> EngineView {
        match self.claim_result(control, id, caller, at_time, outcome) {
            Err(_) => self,
            Ok(amount) => self.replace(
                VestingSchedule {
                    released_amount: (self.schedule(id).released_amount + amount) as u64,
                    ..self.schedule(id)
                },
            ),
        }
    }

    /// What a revocation returns.
    pub open spec fn revoke_result(self, control: ControlView, id: u64, caller: Address) -> Result<
        (),
        VestingError,
    > {
        match self.open_schedule(control, id) {
            Err(e) => Err(e),
            Ok(schedule) => if !control.is_admin(caller) {
                Err(VestingError::Unauthorized)
            } else if schedule.revoked {
                Err(VestingError::AlreadyRevoked)
            } else {
                Ok(())
            },
        }
    }

    /// The engine after a revocation.
    pub open spec fn after_revoke(self, control: ControlView, id: u64, caller: Address) -> EngineView {
        match self.revoke_result(control, id, caller) {
            Err(_) => self,
            Ok(_) => self.replace(VestingSchedule { revoked: true, ..self.schedule(id) }),
        }
    }

    /// The transfer a recovery calls for, or the reason there is none.
    pub open spec fn recovery_check(self, control: ControlView, id: u64, caller: Address) -> Result<
        TransferRequest,
        VestingError,
    > {
        match self.open_schedule(control, id) {
            Err(e) => Err(e),
            Ok(schedule) => if !control.is_admin(caller) {
                Err(VestingError::Unauthorized)
            } else if schedule.recoverable() == 0 {
                Err(VestingError::NothingToClaim)
            } else {
                Ok(
                    TransferRequest {
                        from: self.vault,
                        to: self.treasury,
                        amount: schedule.recoverable() as u64,
                    },
                )
            },
        }
    }

    /// What a recovery returns, given what the backend answered.
    pub open spec fn recovery_result(
        self,
        control: ControlView,
        id: u64,
        caller: Address,
        outcome: Result<(), TransferError>,
    ) -> Result<u64, VestingError> {
        match self.recovery_check(control, id, caller) {
            Err(e) => Err(e),
            Ok(request) => match outcome {
                Err(e) => Err(VestingError::TransferFailed(e)),
                Ok(_) => Ok(request.amount),
            },
        }
    }

    /// The engine after a recovery, given what the backend answered.
    pub open spec fn after_recovery(
        self,
        control: ControlView,
        id: u64,
        caller: Address,
        outcome: Result<(), TransferError>,
    ) -> EngineView {
        match self.recovery_result(control, id, caller, outcome) {
            Err(_) => self,
            Ok(_) => self.replace(VestingSchedule { recovered: true, ..self.schedule(id) }),
        }
    }

    /// What setting or clearing a schedule's own pause returns.
    pub open spec fn schedule_pause_result(
        self,
        control: ControlView,
        id: u64,
        caller: Address,
    ) -> Result<(), VestingError> {
        if !control.is_admin(caller) {
            Err(VestingError::Unauthorized)
        } else if !self.contains_id(id) {
            Err(VestingError::NotFound)
        } else {
            Ok(())
        }
    }

    /// The engine after a schedule's own pause was set to `paused`.
    pub open spec fn after_schedule_pause(
        self,
        control: ControlView,
        id: u64,
        caller: Address,
        paused: bool,
    ) -> EngineView {
        match self.schedule_pause_result(control, id, caller) {
            Err(_) => self,
            Ok(_) => self.replace(VestingSchedule { paused, ..self.schedule(id) }),
        }
    }
}

/// The vesting engine: the schedule store, the two vault addresses, and the
/// creation events not yet collected.
pub struct VestingEngine {
    vault: Address,
    treasury: Address,
    schedules: Vec<VestingSchedule>,
    events: Vec<ScheduleCreated>,
}

impl View for VestingEngine {
    type V = EngineView;

    closed spec fn view(&self) -> EngineView {
        EngineView {
            vault: self.vault,
            treasury: self.treasury,
            schedules: self.schedules@,
            events: self.events@,
        }
    }
}

impl VestingEngine {
    /// An engine without schedules, paying from `vault` and returning
    /// recovered funds to `treasury`.
    pub fn new(vault: Address, treasury: Address) -> (engine: Self)
        ensures
            engine@.valid(),
            engine@ == (EngineView {
                vault,
                treasury,
                schedules: Seq::<VestingSchedule>::empty(),
                events: Seq::<ScheduleCreated>::empty(),
            }),
    {
        VestingEngine { vault, treasury, schedules: Vec::new(), events: Vec::new() }
    }

    /// Rebuilds an engine from what was persisted: the two vault addresses
    /// and the stored records in the order of their ids. No event is
    /// pending in the engine rebuilt. Refused with `InvalidParameters` unless
    /// the records satisfy the invariant of the store.
    pub fn restore(vault: Address, treasury: Address, schedules: Vec<VestingSchedule>) -> (result:
        Result<Self, VestingError>)
        ensures
            match result {
                Ok(engine) => {
                    &&& engine@.valid()
                    &&& engine@ == (EngineView {
                        vault,
                        treasury,
                        schedules: schedules@,
                        events: Seq::<ScheduleCreated>::empty(),
                    })
                },
                Err(e) => {
                    &&& e == VestingError::InvalidParameters
                    &&& !(EngineView {
                        vault,
                        treasury,
                        schedules: schedules@,
                        events: Seq::<ScheduleCreated>::empty(),
                    }).valid()
                },
            },
    {
        let mut i: usize = 0;
        while i < schedules.len()
            invariant
                i <= schedules@.len(),
                forall|j: int|
                    0 <= j < i ==> {
                        &&& (#[trigger] schedules@[j]).id == j
                        &&& schedules@[j].valid()
                    },
            decreases schedules@.len() - i,
        {
            if schedules[i].id != i as u64 || !schedules[i].is_valid() {
                return Err(VestingError::InvalidParameters);
            }
            i += 1;
        }
        Ok(VestingEngine { vault, treasury, schedules, events: Vec::new() })
    }

    /// The custodial vault all grants are paid from.
    pub fn vault(&self) -> (vault: Address)
        ensures
            vault == self@.vault,
    {
        self.vault
    }

    /// The admin vault that receives recovered funds.
    pub fn treasury(&self) -> (treasury: Address)
        ensures
            treasury == self@.treasury,
    {
        self.treasury
    }

    /// Every schedule ever created, in the order of the ids.
    pub fn schedules(&self) -> (list: Vec<VestingSchedule>)
        ensures
            list@ == self@.schedules,
    {
        self.schedules.clone()
    }

    /// The number of schedules ever created; the next schedule gets this id.
    pub fn schedule_count(&self) -> (count: u64)
        ensures
            count == self@.schedules.len(),
    {
        self.schedules.len() as u64
    }

    /// Looks a schedule up by its id.
    pub fn get_schedule(&self, id: u64) -> (result: Result<VestingSchedule, VestingError>)
        ensures
            result == if self@.contains_id(id) {
                Ok::<VestingSchedule, VestingError>(self@.schedule(id))
            } else {
                Err::<VestingSchedule, VestingError>(VestingError::NotFound)
            },
    {
        if id < self.schedules.len() as u64 {
            Ok(self.schedules[id as usize])
        } else {
            Err(VestingError::NotFound)
        }
    }

    /// Lists the schedules of `beneficiary`, oldest first.
    pub fn list_schedules(&self, beneficiary: Address) -> (list: Vec<VestingSchedule>)
        ensures
            list@ == self@.owned_by(beneficiary),
    {
        let mut list: Vec<VestingSchedule> = Vec::new();
        let mut i: usize = 0;
        proof {
            reveal(Seq::filter);
            assert(self.schedules@.take(0) =~= Seq::<VestingSchedule>::empty());
        }
        while i < self.schedules.len()
            invariant
                i <= self.schedules@.len(),
                list@ == self.schedules@.take(i as int).filter(granted_to(beneficiary)),
            decreases self.schedules@.len() - i,
        {
            let schedule = self.schedules[i];
            proof {
                self.schedules@.take(i as int).lemma_filter_push(schedule, granted_to(beneficiary));
                assert(self.schedules@.take(i as int).push(schedule) =~= self.schedules@.take(
                    i + 1,
                ));
            }
            if schedule.beneficiary == beneficiary {
                list.push(schedule);
            }
            i += 1;
        }
        proof {
            assert(self.schedules@.take(i as int) =~= self.schedules@);
        }
        list
    }

    /// Hands over the creation events emitted since the last call, oldest
    /// first, and forgets them.
    pub fn take_events(&mut self) -> (events: Vec<ScheduleCreated>)
        ensures
            events@ == old(self)@.events,
            final(self)@ == (EngineView {
                events: Seq::<ScheduleCreated>::empty(),
                ..old(self)@
            }),
    {
        let mut events: Vec<ScheduleCreated> = Vec::new();
        core::mem::swap(&mut self.events, &mut events);
        events
    }

    fn open_schedule(&self, control: &AdminControl, id: u64) -> (result: Result<
        VestingSchedule,
        VestingError,
    >)
        requires
            self@.valid(),
        ensures
            result == self@.open_schedule(control@, id),
    {
        if control.is_paused() {
            return Err(VestingError::Paused);
        }
        if id >= self.schedules.len() as u64 {
            return Err(VestingError::NotFound);
        }
        let schedule = self.schedules[id as usize];
        if schedule.paused {
            return Err(VestingError::Paused);
        }
        Ok(schedule)
    }

    fn store(&mut self, updated: VestingSchedule)
        requires
            old(self)@.valid(),
            old(self)@.contains_id(updated.id),
            updated.valid(),
        ensures
            final(self)@.valid(),
            final(self)@ == old(self)@.replace(updated),
    {
        assert(self.schedules@.len() == self.schedules.len());
        self.schedules.set(updated.id as usize, updated);
    }

    /// Creates a schedule, at the request of an administrator, stores it
    /// under the next free id and emits its creation event.
    ///
    /// Refused with `Paused` under the global pause, `Unauthorized` unless
    /// `caller` is an administrator, `InvalidParameters` if `total_amount` or
    /// `vesting_duration` is zero or the cliff is longer than the vesting
    /// interval, and `ArithmeticOverflow` if the end of the vesting interval
    /// or the number of schedules cannot be represented; in that order.
    pub fn create_schedule(
        &mut self,
        control: &AdminControl,
        beneficiary: Address,
        total_amount: u64,
        start_time: u64,
        cliff_duration: u64,
        vesting_duration: u64,
        caller: Address,
    ) -> (result: Result<VestingSchedule, VestingError>)
        requires
            old(self)@.valid(),
        ensures
            final(self)@.valid(),
            result == old(self)@.create_check(
                control@,
                beneficiary,
                total_amount,
                start_time,
                cliff_duration,
                vesting_duration,
                caller,
            ),
            final(self)@ == match result {
                Ok(created) => old(self)@.after_create(created),
                Err(_) => old(self)@,
            },
    {
        if control.is_paused() {
            return Err(VestingError::Paused);
        }
        if !control.is_admin(caller) {
            return Err(VestingError::Unauthorized);
        }
        if total_amount == 0 || vesting_duration == 0 || cliff_duration > vesting_duration {
            return Err(VestingError::InvalidParameters);
        }
        if start_time.checked_add(vesting_duration).is_none() {
            return Err(VestingError::ArithmeticOverflow);
        }
        if (self.schedules.len() as u64).checked_add(1).is_none() {
            return Err(VestingError::ArithmeticOverflow);
        }
        let created = VestingSchedule {
            id: self.schedules.len() as u64,
            beneficiary,
            total_amount,
            released_amount: 0,
            start_time,
            cliff_duration,
            vesting_duration,
            revoked: false,
            paused: false,
            recovered: false,
        };
        self.schedules.push(created);
        self.events.push(
            ScheduleCreated {
                schedule_id: created.id,
                beneficiary,
                total_amount,
                start_time,
                cliff_duration,
                vesting_duration,
            },
        );
        Ok(created)
    }

    /// First half of a claim: decides whether `caller` may claim from the
    /// schedule at `at_time` and how much. Changes nothing.
    pub fn authorize_claim(
        &self,
        control: &AdminControl,
        id: u64,
        caller: Address,
        at_time: u64,
    ) -> (result: Result<TransferRequest, VestingError>)
        requires
            self@.valid(),
        ensures
            result == self@.claim_check(control@, id, caller, at_time),
    {
        let schedule = match self.open_schedule(control, id) {
            Ok(schedule) => schedule,
            Err(e) => { return Err(e); },
        };
        if caller != schedule.beneficiary {
            return Err(VestingError::Unauthorized);
        }
        let amount: u64 = releasable_amount(&schedule, at_time);
        if amount == 0 {
            return Err(VestingError::NothingToClaim);
        }
        Ok(TransferRequest { from: self.vault, to: schedule.beneficiary, amount })
    }

    /// Second half of a claim: given what the backend answered to the
    /// request of `authorize_claim` for the same arguments, writes the ledger
    /// if and only if the transfer succeeded.
    pub fn settle_claim(
        &mut self,
        control: &AdminControl,
        id: u64,
        caller: Address,
        at_time: u64,
        outcome: Result<(), TransferError>,
    ) -> (result: Result<u64, VestingError>)
        requires
            old(self)@.valid(),
        ensures
            final(self)@.valid(),
            result == old(self)@.claim_result(control@, id, caller, at_time, outcome),
            final(self)@ == old(self)@.after_claim(control@, id, caller, at_time, outcome),
    {
        let request = match self.authorize_claim(control, id, caller, at_time) {
            Ok(request) => request,
            Err(e) => { return Err(e); },
        };
        if let Err(e) = outcome {
            return Err(VestingError::TransferFailed(e));
        }
        assert(self.schedules@.len() == self.schedules.len());
        let schedule = self.schedules[id as usize];
        proof {
            lemma_unlocked_bounded(schedule, at_time as int);
        }
        self.store(
            VestingSchedule {
                released_amount: schedule.released_amount + request.amount,
                ..schedule
            },
        );
        Ok(request.amount)
    }

    /// Transfers what is releasable at `at_time` to the beneficiary and adds
    /// it to `released_amount`, both or neither.
    ///
    /// `transfer` is the asset-transfer backend. It is called at most once,
    /// only after every check has passed, with the request that
    /// `authorize_claim` would give; the ledger is written only if it
    /// returns `Ok`.
    pub fn claim<F: FnOnce(TransferRequest) -> Result<(), TransferError>>(
        &mut self,
        control: &AdminControl,
        id: u64,
        caller: Address,
        at_time: u64,
        transfer: F,
    ) -> (result: Result<u64, VestingError>)
        requires
            old(self)@.valid(),
            old(self)@.claim_check(control@, id, caller, at_time) matches Ok(request)
                ==> transfer.requires((request,)),
        ensures
            final(self)@.valid(),
            match old(self)@.claim_check(control@, id, caller, at_time) {
                Err(e) => result == Err::<u64, VestingError>(e) && final(self)@ == old(self)@,
                Ok(request) => exists|outcome: Result<(), TransferError>|
                    {
                        &&& #[trigger] transfer.ensures((request,), outcome)
                        &&& result == old(self)@.claim_result(
                            control@,
                            id,
                            caller,
                            at_time,
                            outcome,
                        )
                        &&& final(self)@ == old(self)@.after_claim(
                            control@,
                            id,
                            caller,
                            at_time,
                            outcome,
                        )
                    },
            },
    {
        let request = match self.authorize_claim(control, id, caller, at_time) {
            Ok(request) => request,
            Err(e) => { return Err(e); },
        };
        let outcome = transfer(request);
        self.settle_claim(control, id, caller, at_time, outcome)
    }

    /// Revokes a schedule, at the request of an administrator: from now on
    /// nothing more is released to the beneficiary. Returning the unreleased
    /// remainder to the treasury is a separate step, `recover_unvested`.
    ///
    /// Revoking what is revoked already is refused with `AlreadyRevoked`.
    pub fn revoke(&mut self, control: &AdminControl, id: u64, caller: Address) -> (result: Result<
        (),
        VestingError,
    >)
        requires
            old(self)@.valid(),
        ensures
            final(self)@.valid(),
            result == old(self)@.revoke_result(control@, id, caller),
            final(self)@ == old(self)@.after_revoke(control@, id, caller),
    {
        let schedule = match self.open_schedule(control, id) {
            Ok(schedule) => schedule,
            Err(e) => { return Err(e); },
        };
        if !control.is_admin(caller) {
            return Err(VestingError::Unauthorized);
        }
        if schedule.revoked {
            return Err(VestingError::AlreadyRevoked);
        }
        self.store(VestingSchedule { revoked: true, ..schedule });
        Ok(())
    }

    /// First half of a recovery: decides whether `caller` may take back the
    /// unreleased remainder of the schedule and how much that is. Changes
    /// nothing.
    pub fn authorize_recovery(&self, control: &AdminControl, id: u64, caller: Address) -> (result:
        Result<TransferRequest, VestingError>)
        requires
            self@.valid(),
        ensures
            result == self@.recovery_check(control@, id, caller),
    {
        let schedule = match self.open_schedule(control, id) {
            Ok(schedule) => schedule,
            Err(e) => { return Err(e); },
        };
        if !control.is_admin(caller) {
            return Err(VestingError::Unauthorized);
        }
        let amount: u64 = recoverable_amount(&schedule);
        if amount == 0 {
            return Err(VestingError::NothingToClaim);
        }
        Ok(TransferRequest { from: self.vault, to: self.treasury, amount })
    }

    /// Second half of a recovery: given what the backend answered to the
    /// request of `authorize_recovery` for the same arguments, marks the
    /// schedule as recovered if and only if the transfer succeeded.
    pub fn settle_recovery(
        &mut self,
        control: &AdminControl,
        id: u64,
        caller: Address,
        outcome: Result<(), TransferError>,
    ) -> (result: Result<u64, VestingError>)
        requires
            old(self)@.valid(),
        ensures
            final(self)@.valid(),
            result == old(self)@.recovery_result(control@, id, caller, outcome),
            final(self)@ == old(self)@.after_recovery(control@, id, caller, outcome),
    {
        let request = match self.authorize_recovery(control, id, caller) {
            Ok(request) => request,
            Err(e) => { return Err(e); },
        };
        if let Err(e) = outcome {
            return Err(VestingError::TransferFailed(e));
        }
        assert(self.schedules@.len() == self.schedules.len());
        let schedule = self.schedules[id as usize];
        self.store(VestingSchedule { recovered: true, ..schedule });
        Ok(request.amount)
    }

    /// Returns the unreleased remainder of a revoked schedule to the
    /// treasury, at the request of an administrator, once.
    ///
    /// `transfer` is the asset-transfer backend, used as in `claim`. Where
    /// nothing is left to recover (the schedule is not revoked, was
    /// recovered before, or had been released in full) the answer is
    /// `NothingToClaim`.
    pub fn recover_unvested<F: FnOnce(TransferRequest) -> Result<(), TransferError>>(
        &mut self,
        control: &AdminControl,
        id: u64,
        caller: Address,
        transfer: F,
    ) -> (result: Result<u64, VestingError>)
        requires
            old(self)@.valid(),
            old(self)@.recovery_check(control@, id, caller) matches Ok(request)
                ==> transfer.requires((request,)),
        ensures
            final(self)@.valid(),
            match old(self)@.recovery_check(control@, id, caller) {
                Err(e) => result == Err::<u64, VestingError>(e) && final(self)@ == old(self)@,
                Ok(request) => exists|outcome: Result<(), TransferError>|
                    {
                        &&& #[trigger] transfer.ensures((request,), outcome)
                        &&& result == old(self)@.recovery_result(control@, id, caller, outcome)
                        &&& final(self)@ == old(self)@.after_recovery(
                            control@,
                            id,
                            caller,
                            outcome,
                        )
                    },
            },
    {
        let request = match self.authorize_recovery(control, id, caller) {
            Ok(request) => request,
            Err(e) => { return Err(e); },
        };
        let outcome = transfer(request);
        self.settle_recovery(control, id, caller, outcome)
    }

    /// Pauses one schedule, at the request of an administrator. Not subject
    /// to the pause guard itself; pausing what is paused changes nothing.
    pub fn pause_schedule(&mut self, control: &AdminControl, id: u64, caller: Address) -> (result:
        Result<(), VestingError>)
        requires
            old(self)@.valid(),
        ensures
            final(self)@.valid(),
            result == old(self)@.schedule_pause_result(control@, id, caller),
            final(self)@ == old(self)@.after_schedule_pause(control@, id, caller, true),
    {
        self.set_schedule_pause(control, id, caller, true)
    }

    /// Resumes one schedule, at the request of an administrator. Not subject
    /// to the pause guard itself; resuming what is active changes nothing.
    pub fn unpause_schedule(&mut self, control: &AdminControl, id: u64, caller: Address) -> (result:
        Result<(), VestingError>)
        requires
            old(self)@.valid(),
        ensures
            final(self)@.valid(),
            result == old(self)@.schedule_pause_result(control@, id, caller),
            final(self)@ == old(self)@.after_schedule_pause(control@, id, caller, false),
    {
        self.set_schedule_pause(control, id, caller, false)
    }

    fn set_schedule_pause(
        &mut self,
        control: &AdminControl,
        id: u64,
        caller: Address,
        paused: bool,
    ) -> (result: Result<(), VestingError>)
        requires
            old(self)@.valid(),
        ensures
            final(self)@.valid(),
            result == old(self)@.schedule_pause_result(control@, id, caller),
            final(self)@ == old(self)@.after_schedule_pause(control@, id, caller, paused),
    {
        if !control.is_admin(caller) {
            return Err(VestingError::Unauthorized);
        }
        if id >= self.schedules.len() as u64 {
            return Err(VestingError::NotFound);
        }
        let schedule = self.schedules[id as usize];
        self.store(VestingSchedule { paused, ..schedule });
        Ok(())
    }
}

} // verus!
