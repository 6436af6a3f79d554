//! The admin control module: who may administer, and whether the engine is
//! globally paused.

use vstd::prelude::*;
use crate::error::{Address, VestingError};

verus! {

/// The two states of the global pause switch.
#[derive(Clone, Copy, Debug, PartialEq, Eq, Structural)]
pub enum GlobalPauseState {
    /// Operations proceed.
    Active,
    /// Every state-mutating engine operation is refused.
    Paused,
}

/// The set of addresses that may create, pause and revoke schedules, flip the
/// global pause switch and edit the set itself. It is never empty.
///
/// Only [`AdminControl`] changes a registry.
pub struct AdminRegistry {
    members: Vec<Address>,
}

impl View for AdminRegistry {
    type V = Set<Address>;

    closed spec fn view(&self) -> Set<Address> {
        self.members@.to_set()
    }
}

impl AdminRegistry {
    /// Representation invariant: every administrator is listed once, and at
    /// least one is listed.
    pub closed spec fn wf(&self) -> bool {
        &&& self.members@.no_duplicates()
        &&& self.members@.len() >= 1
    }

    /// A well-formed registry is a finite, non-empty set.
    pub proof fn lemma_never_empty(&self)
        requires
            self.wf(),
        ensures
            self@.finite(),
            self@.len() >= 1,
    {
        self.members@.unique_seq_to_set();
        vstd::seq_lib::seq_to_set_is_finite(self.members@);
    }

    fn new(first_admin: Address) -> (registry: Self)
        ensures
            registry.wf(),
            registry@ == Set::<Address>::empty().insert(first_admin),
    {
        let mut members: Vec<Address> = Vec::new();
        members.push(first_admin);
        proof {
            Seq::<Address>::empty().lemma_push_to_set_commute(first_admin);
            assert(Seq::<Address>::empty().to_set() =~= Set::<Address>::empty());
        }
        AdminRegistry { members }
    }

    fn position(&self, who: Address) -> (found: Option<usize>)
        ensures
            match found {
                Some(i) => i < self.members@.len() && self.members@[i as int] == who,
                None => !self.members@.contains(who),
            },
    {
        let mut i: usize = 0;
        while i < self.members.len()
            invariant
                i <= self.members@.len(),
                forall|j: int| 0 <= j < i ==> self.members@[j] != who,
            decreases self.members@.len() - i,
        {
            if self.members[i] == who {
                return Some(i);
            }
            i += 1;
        }
        None
    }

    /// Tells whether `who` is an administrator.
    pub fn contains(&self, who: Address) -> (found: bool)
        ensures
            found == self@.contains(who),
    {
        self.position(who).is_some()
    }

    /// The number of administrators.
    pub fn len(&self) -> (count: usize)
        requires
            self.wf(),
        ensures
            count == self@.len(),
            count >= 1,
    {
        proof {
            self.members@.unique_seq_to_set();
        }
        self.members.len()
    }

    /// The administrators, each listed once.
    pub fn members(&self) -> (list: Vec<Address>)
        requires
            self.wf(),
        ensures
            list@.no_duplicates(),
            list@.to_set() == self@,
    {
        self.members.clone()
    }

    fn insert(&mut self, who: Address)
        requires
            old(self).wf(),
        ensures
            final(self).wf(),
            final(self)@ == old(self)@.insert(who),
    {
        if self.position(who).is_none() {
            proof {
                self.members@.lemma_push_to_set_commute(who);
            }
            self.members.push(who);
        } else {
            assert(self@.insert(who) =~= self@);
        }
    }

    fn remove(&mut self, who: Address)
        requires
            old(self).wf(),
            !(old(self)@.contains(who) && old(self)@.len() == 1),
        ensures
            final(self).wf(),
            final(self)@ == old(self)@.remove(who),
    {
        match self.position(who) {
            None => {
                assert(self@.remove(who) =~= self@);
            },
            Some(i) => {
                let ghost before = self.members@;
                proof {
                    before.unique_seq_to_set();
                }
                self.members.remove(i);
                proof {
                    let after = self.members@;
                    assert forall|a: Address| after.contains(a) <==> (before.contains(a) && a
                        != who) by {
                        if after.contains(a) {
                            let j = choose|j: int| 0 <= j < after.len() && after[j] == a;
                            let k = if j < i { j } else { j + 1 };
                            assert(before[k] == a);
                        }
                        if before.contains(a) && a != who {
                            let k = choose|k: int| 0 <= k < before.len() && before[k] == a;
                            let j = if k < i { k } else { k - 1 };
                            assert(after[j] == a);
                        }
                    }
                    assert(after.to_set() =~= before.to_set().remove(who));
                    assert forall|j: int, k: int|
                        0 <= j < after.len() && 0 <= k < after.len() && j != k implies after[j]
                        != after[k] by {
                        let j0 = if j < i { j } else { j + 1 };
                        let k0 = if k < i { k } else { k + 1 };
                        assert(before[j0] != before[k0]);
                    }
                }
            },
        }
    }
}

/// What the admin control module is, mathematically: the set of
/// administrators and the state of the global pause switch.
#[verifier::ext_equal]
pub struct ControlView {
    pub admins: Set<Address>,
    pub state: GlobalPauseState,
}

impl ControlView {
    /// There is always someone who can administer.
    pub open spec fn valid(self) -> bool {
        &&& self.admins.finite()
        &&& self.admins.len() >= 1
    }

    /// Whether `who` is an administrator.
    pub open spec fn is_admin(self, who: Address) -> bool {
        self.admins.contains(who)
    }

    /// Whether the global pause is in force.
    pub open spec fn is_paused(self) -> bool {
        self.state == GlobalPauseState::Paused
    }

    /// Only an administrator may perform an administrative action.
    pub open spec fn authorize(self, caller: Address) -> Result<(), VestingError> {
        if self.is_admin(caller) {
            Ok(())
        } else {
            Err(VestingError::Unauthorized)
        }
    }

    /// The module after `caller` asked to pause.
    pub open spec fn after_pause(self, caller: Address) -> ControlView {
        if self.is_admin(caller) {
            ControlView { admins: self.admins, state: GlobalPauseState::Paused }
        } else {
            self
        }
    }

    /// The module after `caller` asked to resume.
    pub open spec fn after_unpause(self, caller: Address) -> ControlView {
        if self.is_admin(caller) {
            ControlView { admins: self.admins, state: GlobalPauseState::Active }
        } else {
            self
        }
    }

    /// The module after `caller` asked to admit `new_admin`.
    pub open spec fn after_add_admin(self, caller: Address, new_admin: Address) -> ControlView {
        if self.is_admin(caller) {
            ControlView { admins: self.admins.insert(new_admin), state: self.state }
        } else {
            self
        }
    }

    /// Whether dismissing `admin` would leave nobody in charge.
    pub open spec fn is_last_admin(self, admin: Address) -> bool {
        self.admins.contains(admin) && self.admins.len() == 1
    }

    /// The answer to `caller` asking to dismiss `admin`.
    pub open spec fn remove_admin_result(self, caller: Address, admin: Address) -> Result<
        (),
        VestingError,
    > {
        if !self.is_admin(caller) {
            Err(VestingError::Unauthorized)
        } else if self.is_last_admin(admin) {
            Err(VestingError::CannotRemoveLastAdmin)
        } else {
            Ok(())
        }
    }

    /// The module after `caller` asked to dismiss `admin`.
    pub open spec fn after_remove_admin(self, caller: Address, admin: Address) -> ControlView {
        if self.remove_admin_result(caller, admin) is Ok {
            ControlView { admins: self.admins.remove(admin), state: self.state }
        } else {
            self
        }
    }
}

/// The admin control module: the registry of administrators together with the
/// global pause switch they are authorized to flip.
///
/// A value of this type is handed to every engine operation, so independent
/// engines never share hidden state.
pub struct AdminControl {
    registry: AdminRegistry,
    state: GlobalPauseState,
}

impl View for AdminControl {
    type V = ControlView;

    closed spec fn view(&self) -> ControlView {
        ControlView { admins: self.registry@, state: self.state }
    }
}

impl AdminControl {
    /// Representation invariant of the registry inside.
    pub closed spec fn wf(&self) -> bool {
        self.registry.wf()
    }

    /// A well-formed module always has an administrator.
    pub proof fn lemma_valid(&self)
        requires
            self.wf(),
        ensures
            self@.valid(),
    {
        self.registry.lemma_never_empty();
    }

    /// Starts in state `Active` with `first_admin` as the only administrator.
    pub fn new(first_admin: Address) -> (control: Self)
        ensures
            control.wf(),
            control@.valid(),
            control@ == (ControlView {
                admins: Set::<Address>::empty().insert(first_admin),
                state: GlobalPauseState::Active,
            }),
    {
        let control = AdminControl {
            registry: AdminRegistry::new(first_admin),
            state: GlobalPauseState::Active,
        };
        proof {
            control.lemma_valid();
        }
        control
    }

    /// Rebuilds the module from what was persisted: the administrators, in
    /// any order and possibly repeated, and the state of the pause switch.
    /// Refused with `InvalidParameters` if no administrator is named.
    pub fn restore(admins: &Vec<Address>, state: GlobalPauseState) -> (result: Result<
        Self,
        VestingError,
    >)
        ensures
            match result {
                Ok(control) => {
                    &&& admins@.len() > 0
                    &&& control.wf()
                    &&& control@.valid()
                    &&& control@ == (ControlView { admins: admins@.to_set(), state })
                },
                Err(e) => admins@.len() == 0 && e == VestingError::InvalidParameters,
            },
    {
        if admins.len() == 0 {
            return Err(VestingError::InvalidParameters);
        }
        let mut registry = AdminRegistry::new(admins[0]);
        let mut i: usize = 1;
        proof {
            assert(admins@.take(1) =~= Seq::<Address>::empty().push(admins@[0]));
            Seq::<Address>::empty().lemma_push_to_set_commute(admins@[0]);
            assert(Seq::<Address>::empty().to_set() =~= Set::<Address>::empty());
        }
        while i < admins.len()
            invariant
                1 <= i <= admins@.len(),
                registry.wf(),
                registry@ == admins@.take(i as int).to_set(),
            decreases admins@.len() - i,
        {
            proof {
                admins@.take(i as int).lemma_push_to_set_commute(admins@[i as int]);
                assert(admins@.take(i as int).push(admins@[i as int]) =~= admins@.take(i + 1));
            }
            registry.insert(admins[i]);
            i += 1;
        }
        let control = AdminControl { registry, state };
        proof {
            assert(admins@.take(i as int) =~= admins@);
            control.lemma_valid();
        }
        Ok(control)
    }

    /// Tells whether `who` is an administrator.
    pub fn is_admin(&self, who: Address) -> (found: bool)
        ensures
            found == self@.is_admin(who),
    {
        self.registry.contains(who)
    }

    /// Tells whether the global pause is in force.
    pub fn is_paused(&self) -> (paused: bool)
        ensures
            paused == self@.is_paused(),
    {
        match self.state {
            GlobalPauseState::Active => false,
            GlobalPauseState::Paused => true,
        }
    }

    /// The state of the global pause switch.
    pub fn state(&self) -> (state: GlobalPauseState)
        ensures
            state == self@.state,
    {
        self.state
    }

    /// The registry of administrators, for reading.
    pub fn registry(&self) -> (registry: &AdminRegistry)
        requires
            self.wf(),
        ensures
            registry.wf(),
            registry@ == self@.admins,
    {
        &self.registry
    }

    /// Active to Paused, at the request of an administrator. Pausing what is
    /// paused already changes nothing and succeeds.
    pub fn pause(&mut self, caller: Address) -> (result: Result<(), VestingError>)
        requires
            old(self).wf(),
        ensures
            final(self).wf(),
            final(self)@.valid(),
            result == old(self)@.authorize(caller),
            final(self)@ == old(self)@.after_pause(caller),
    {
        proof {
            self.lemma_valid();
        }
        if !self.registry.contains(caller) {
            return Err(VestingError::Unauthorized);
        }
        self.state = GlobalPauseState::Paused;
        Ok(())
    }

    /// Paused to Active, at the request of an administrator. Resuming what is
    /// active already changes nothing and succeeds.
    pub fn unpause(&mut self, caller: Address) -> (result: Result<(), VestingError>)
        requires
            old(self).wf(),
        ensures
            final(self).wf(),
            final(self)@.valid(),
            result == old(self)@.authorize(caller),
            final(self)@ == old(self)@.after_unpause(caller),
    {
        proof {
            self.lemma_valid();
        }
        if !self.registry.contains(caller) {
            return Err(VestingError::Unauthorized);
        }
        self.state = GlobalPauseState::Active;
        Ok(())
    }

    /// Admits `new_admin`, at the request of an administrator. Admitting
    /// someone who is an administrator already changes nothing and succeeds.
    pub fn add_admin(&mut self, caller: Address, new_admin: Address) -> (result: Result<
        (),
        VestingError,
    >)
        requires
            old(self).wf(),
        ensures
            final(self).wf(),
            final(self)@.valid(),
            result == old(self)@.authorize(caller),
            final(self)@ == old(self)@.after_add_admin(caller, new_admin),
    {
        proof {
            self.lemma_valid();
        }
        if !self.registry.contains(caller) {
            return Err(VestingError::Unauthorized);
        }
        self.registry.insert(new_admin);
        proof {
            self.lemma_valid();
        }
        Ok(())
    }

    /// Dismisses `admin`, at the request of an administrator, unless that
    /// would leave the registry empty. Dismissing someone who is no
    /// administrator changes nothing and succeeds.
    pub fn remove_admin(&mut self, caller: Address, admin: Address) -> (result: Result<
        (),
        VestingError,
    >)
        requires
            old(self).wf(),
        ensures
            final(self).wf(),
            final(self)@.valid(),
            result == old(self)@.remove_admin_result(caller, admin),
            final(self)@ == old(self)@.after_remove_admin(caller, admin),
    {
        proof {
            self.lemma_valid();
        }
        if !self.registry.contains(caller) {
            return Err(VestingError::Unauthorized);
        }
        if self.registry.len() == 1 && self.registry.contains(admin) {
            return Err(VestingError::CannotRemoveLastAdmin);
        }
        self.registry.remove(admin);
        proof {
            self.lemma_valid();
        }
        Ok(())
    }
}

} // verus!
