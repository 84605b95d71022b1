//! Host-side orchestration of the factory-test provisioning flow for a
//! secure microcontroller: lifecycle-state transitions, OTP-partition
//! individualization over a command/status console protocol, and the
//! personalization data exchange.
//!
//! The orchestration logic is written as step functions of explicit state
//! machines: each stage turns the event it observed into the next action to
//! perform, and a driver outside this crate performs the actions (debug-probe
//! and console I/O) and feeds the outcomes back in.

pub mod actions;
pub mod codec;
pub mod keys;
pub mod lc_flow;
pub mod lc_state;
pub mod perso_flow;
pub mod proto;
pub mod sram_flow;
