//! The participant's side of two-round FROST threshold signing.
//!
//! A signer first commits to a fresh nonce pair and later answers the coordinator's
//! signing package with a signature share. [`participant`] holds the two rounds under
//! FROST(Ed25519, SHA-512), [`randomized`] holds them under re-randomized
//! FROST(Pallas, BLAKE2b-512), where the second round takes the session's randomizer too.
//! Round one takes the participant's secret share and checks it before it draws a nonce.
//!
//! Every value that crosses the boundary of this crate is a byte string or a text, and an
//! entity has one encoding: bytes that the suite would take but would not itself write,
//! such as an encoding with something after its end, are rejected. The curve arithmetic is
//! done by the FROST crates: each call into them is a small private function of
//! [`ed25519`] or [`redpallas`] whose contract is stated, not proved. What is proved is
//! what the library makes of the answers: which bytes count as an entity, which input is
//! looked at first, which error stands for which failure, and whose identifier tags the
//! result. [`laws`] states what follows for every input.

mod bytes;
pub mod coordinator;
pub mod ed25519;
pub mod error;
pub mod keys;
pub mod laws;
pub mod participant;
pub mod randomized;
pub mod redpallas;
