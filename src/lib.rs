//! Creating a new Cargo project and opening it, as a sequence of decisions.
//!
//! The library decides; its caller performs. Each step of provisioning hands
//! the caller an action (check a path, run a tool, open files) and takes back
//! what came of it, so the whole pipeline is verified without running a
//! process.

pub mod text;
pub mod provision;
pub mod folder;
pub mod checkbox;
pub mod laws;
