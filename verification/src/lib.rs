//! Logic of a keyboard backlight daemon: the command catalog of the embedded
//! controller, the framing of commands for its two ioctl interfaces, and the
//! activity-driven brightness state machine.
//!
//! Nothing here performs I/O. The caller opens the controller's device node,
//! issues the ioctls for the frames that `ec` builds, listens on the input
//! devices and sleeps; this library decides what is sent, what a reply means
//! and when the backlight fades to which brightness.

pub mod activity;
pub mod command;
pub mod config;
pub mod ec;
pub mod fade;
pub mod text;
pub mod wire;
