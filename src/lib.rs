//! Keeps a CEC playback device in step with the host: the commands that
//! clients send, the decisions taken on bus, hotplug and sleep signals, and
//! the translation of high-level commands into native CEC calls.
pub mod cec;
pub mod event;
pub mod hotplug;
pub mod input;
pub mod lifecycle;
pub mod media;
pub mod meta_command;
pub mod sleep;
pub mod text;
pub mod translate;
pub mod wire;
