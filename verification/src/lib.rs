//! Global hotkeys and key states, without the operating system.
//!
//! [`hotkeys`] holds the manager of registered hotkeys and the decisions of its
//! dispatch loop, [`registry`] the model that its contracts are stated over and
//! what holds of that model, [`modifiers`] the set of modifiers of a hotkey,
//! [`notification`] the messages that the loop is fed, and [`keys`] key codes
//! and key states.
//!
//! Nothing here calls the operating system: the caller binds, releases, waits
//! and queries, and hands over what came back.

pub mod hotkeys;
pub mod keys;
pub mod modifiers;
pub mod notification;
pub mod registry;
