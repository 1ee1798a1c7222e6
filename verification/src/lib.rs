//! A simulation engine for ensembles of independent double pendulums.
//!
//! Every real quantity crosses this crate's boundary as the bit pattern of an
//! IEEE-754 double, so that what the engine stores, copies and compares is
//! exact. The engine owns the ensemble, checks what it is constructed from,
//! and applies a stepping rule to every member once per tick; the arithmetic
//! of the stepping rule itself is supplied by the caller.

pub mod binary64;
pub mod ensemble;
pub mod error;
pub mod model;
pub mod params;
pub mod state;

pub use ensemble::{advance_all, create_ensemble, state_of, Ensemble};
pub use error::EnsembleError;
pub use model::derivative;
pub use params::{Parameter, SimulationParameters};
pub use state::PendulumState;
