//! The decisions of a judge slave: the worker that a judge master hands
//! submissions to.
//!
//! A slave connects to its master, shares a secret with it in a handshake, and
//! from then on serves its packets: it compiles a submission and its checker when
//! asked to judge, runs the submission on each test case that comes, and reports
//! what came of it.
//!
//! What the slave decides is in this crate, and proved: `link` decides when to
//! connect, read, wait and end, `state` what to do with each packet and with the
//! outcome of each job, and `laws` states what holds of the whole. Sockets, files
//! and compilers are left to the caller, who does what `link` and `state` tell.

pub mod judge;
pub mod keys;
pub mod language;
pub mod laws;
pub mod link;
pub mod state;
pub mod wire;
