//! Client-side synchronization core for a small multiplayer game.
//!
//! The crate holds the logic that a networked game client runs every tick:
//! turning key and joystick input into a bounded movement intent, applying
//! that intent to the player and camera positions, driving the remote
//! players' animation state machines, translating inbound network envelopes
//! into typed events (with a sentinel fallback for malformed payloads), and
//! applying authoritative updates to the shared world object and its label.
//!
//! Positions and intents are integer-valued: world coordinates are whole
//! units, and intent components are thousandths of a unit, so that a unit
//! intent vector has squared magnitude at most `INTENT_ONE * INTENT_ONE`.

pub mod animation;
pub mod cracker;
pub mod intent;
pub mod json;
pub mod movement;
pub mod player;
pub mod text;
