//! Removal of the flash readout protection (RDP) of an STM32WL.
//!
//! The protection level is held in the low byte of the option register.
//! Level 1 can be taken back to level 0, at the price of a mass erase of the
//! flash; level 2 cannot be removed. The procedure unlocks the flash control
//! and option registers, makes sure that the mass erase will happen, writes
//! the `RDP` byte of level 0, starts the programming of the option bytes, and
//! waits for the erase to end, for thirty seconds at most.
//!
//! The crate performs no I/O. A run of the procedure is a value,
//! [`downgrade::Downgrade`]: it names the next thing to do, an
//! [`access::Action`] (read a register, write one, flush, use the clock), and
//! is told how that went, by an [`access::Event`]. Whoever drives the run
//! owns the connection to the target and the clock:
//!
//! ```text
//! let mut state = Downgrade::start();
//! while let Some(action) = state.action() {
//!     let event = /* take the action on the target */;
//!     state = state.advance(event);
//! }
//! let result = state.result();
//! ```
//!
//! The parts of the procedure are state machines of the same kind:
//! [`unlock::UnlockFlash`], [`pcrop::SetPcropRdp`], [`optstrt::SetOptstrt`]
//! and [`erase::WaitErase`].
//!
//! What holds of whole runs is stated and proved over the model of
//! [`trace`]. [`course`] follows a run in which every access succeeds:
//! which actions it takes and in which order, and how the wait for the erase
//! ends. [`safety`] holds whatever the target answers: levels 0 and 2 lead to
//! no write at all; a failed access ends the run; every word written is made
//! from the word that was read; and nothing is written once the programming
//! has been started.

pub mod access;
pub mod course;
pub mod downgrade;
pub mod erase;
pub mod optstrt;
pub mod pcrop;
pub mod probe;
pub mod rdp;
pub mod registers;
pub mod safety;
pub mod trace;
pub mod unlock;
