//! A token-vesting ledger and release-authorization engine.
//!
//! The crate keeps the books of vesting grants: who may claim how much at
//! which instant, who may administer the grants, and when everything is
//! frozen. It never moves tokens and never reads a clock itself; the host
//! supplies the current time and performs the transfers the engine asks for.
//!
//! - [`schedule`]: the schedule record and the arithmetic of linear unlocking.
//! - [`admin`]: the registry of administrators and the global pause switch.
//! - [`engine`]: the schedule store and the operations on it.
//! - [`laws`]: what holds of every history of operations.
//! - [`error`]: identities and the errors every operation shares.
//!
//! Every function is verified against its contract. The contracts speak of
//! the mathematical views [`ControlView`] and [`EngineView`]; an operation
//! that is refused leaves both exactly as they were.

pub mod admin;
pub mod engine;
pub mod error;
pub mod laws;
pub mod schedule;

pub use admin::{AdminControl, AdminRegistry, ControlView, GlobalPauseState};
pub use engine::{EngineView, ScheduleCreated, TransferRequest, VestingEngine};
pub use error::{Address, TransferError, VestingError};
pub use schedule::{recoverable_amount, releasable_amount, unlocked_amount, VestingSchedule};
