//! The decision layer of a sovereign, airgap-first PID 1: boot-rail plans,
//! the preflight custody rule, launch fall-through, supervision and the
//! entropy gate, each stated as a verified contract.
pub mod boot;
pub mod console;
pub mod entropy;
pub mod launch;
pub mod preflight;
pub mod rail;
pub mod supervise;
