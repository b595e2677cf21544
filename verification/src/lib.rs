//! A teaching model of entropy exhaustion in a key-management stack.
//!
//! An environmental subsystem degrades over time; once its stability falls
//! below a threshold, every key-generation request silently receives the same
//! fixed seed instead of fresh randomness.  A key-derivation layer recognises
//! that seed and hands out one constant, precomputed keypair.  An
//! access-control layer binds usernames to public keys and adjudicates
//! challenge-response signatures, so the constant keypair lets anyone who has
//! seen the degraded state authenticate as any identity created during it.

pub mod access_control;
pub mod comms;
pub mod dimensional_rift;
pub mod key_management;
