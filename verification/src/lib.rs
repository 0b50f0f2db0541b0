//! Turns raw game-controller reports into musical note triggers.
//!
//! A report is a 256-byte snapshot of the controller. Two consecutive
//! snapshots are kept; buttons are decoded from fixed bit positions, press
//! edges are found by comparing the two snapshots, two modifier axes are
//! resolved from the shoulder and trigger buttons, and every freshly pressed
//! melody button yields the voice that an audio sink has to render.
//!
//! The library neither reads a device nor renders sound. Its caller reads
//! the device and passes the outcome to [`player::Player::update`], which
//! returns the voices to enqueue; without a device, the caller passes key
//! events to [`gamepad::Gamepad::set_key`] and
//! [`gamepad::Gamepad::unset_key`] instead.
//!
//! - [`registry`]: the buttons and the bit from which each is decoded.
//! - [`report`]: the pair of report buffers and its laws.
//! - [`device`], [`gamepad`]: the controller, with and without key emulation.
//! - [`audio`]: notes, the frequency table and the bank of voices.
//! - [`player`]: one tick of the pipeline.

pub mod audio;
pub mod device;
pub mod gamepad;
pub mod player;
pub mod registry;
pub mod report;
