//! Device control and automation engine for a small dwelling.
//!
//! The engine keeps the logical state of every lamp, dimmer and beam, encodes
//! state changes into the compact binary frames the serial controller expects,
//! publishes remote-device commands, dispatches wall-switch events, debounces
//! motion sensors, and schedules one-shot delayed actions. All of that logic
//! is verified; the unverified shell around it only moves bytes and clock
//! readings in and out.

pub mod bad_room;
pub mod controller;
pub mod devices;
pub mod dispatch;
pub mod home;
pub mod mapping;
pub mod sensors;
pub mod timer;
pub mod web;
pub mod wire;
