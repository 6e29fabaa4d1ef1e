//! Game library built around a verified input core: a strongly keyed store of
//! current control states, a listener registry notified on every single-key
//! write, event ingestion for both push-driven (window) and poll-driven
//! (gamepad) sources, and the per-frame reset of transient delta axes.

pub mod game;
pub mod input;
