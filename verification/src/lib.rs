//! Decision logic for switching monitor inputs when a watched USB device
//! comes and goes.
//!
//! The library decides; it performs no input or output itself. A program
//! around it lists USB devices and displays, talks DDC/CI to the displays and
//! runs external commands, and hands the library what it found. In return
//! the library says what is to be done next, and every such answer is
//! specified and proved.
//!
//! - [`usb`] and [`usb_devices`]: device identifiers, the inventory of
//!   connected devices, and what changed between two listings of it.
//! - [`pnp_detect`]: the two ways in which device changes are noticed, and
//!   what is reported to the callback in either.
//! - [`display_control`]: the identities of the displays of one listing, and
//!   whether the input of a display has to be written.
//! - [`configuration`] and [`input_source`]: which input each monitor is
//!   switched to, and how inputs are written in text.
//! - [`session`]: one switch of all displays, step by step.
//! - [`command`]: the external commands of a command line.
//! - [`app`]: the application that ties these together.
//! - [`text`]: the operations on characters that the others are built on.

pub mod app;
pub mod command;
pub mod configuration;
pub mod display_control;
pub mod input_source;
pub mod pnp_detect;
pub mod session;
pub mod text;
pub mod usb;
pub mod usb_devices;
