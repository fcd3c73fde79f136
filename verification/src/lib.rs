//! Core logic of a clipboard watcher that launches a muted media player for
//! each new playable URL that appears on the clipboard.
//!
//! The crate holds the decision logic and its proofs: the validation policy
//! over clipboard text, the change-detection and de-duplication state of the
//! watch loop, and a model of the loop's lifecycle under an asynchronous
//! interrupt. Reading the host clipboard register, spawning the player and
//! registering the interrupt handler are capabilities injected by the
//! program around this library.

pub mod monitor;
pub mod policy;
pub mod protocol;
