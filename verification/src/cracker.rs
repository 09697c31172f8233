//! The shared world object (the "cracker") is owned by the server: the client
//! only applies inbound "moved" events to it. One event moves the object,
//! moves its point label to a fixed offset above it, rewrites the label text
//! to the new point value, and plays the move sound cue if its audio asset is
//! already loaded — an event that races the asset load skips the cue and only
//! logs.

use vstd::prelude::*;

use crate::text::dec_str_of;
use crate::text::u64_to_dec_string;

verus! {

/// Vertical offset of the point label above the shared object.
pub const CRACKER_TEXT_OFFSET: i64 = 22;

/// An inbound authoritative update of the shared object: its new position,
/// its new point value, and whether the local player was the one who got it.
#[derive(Clone, Debug)]
pub struct MoveCrackersBevyEvent {
    pub x_position: i64,
    pub y_position: i64,
    pub points: u64,
    pub you_got_crackers: bool,
}

/// What one shared-object update changes: the object's position, the label's
/// position and text, and whether the move sound plays or is skipped with a
/// log line because its asset is not loaded yet.
#[derive(Clone, Debug)]
pub struct CrackerUpdate {
    pub object_x: i64,
    pub object_y: i64,
    pub label_x: i64,
    pub label_y: i64,
    pub label_text: String,
    pub play_move_sound: bool,
    pub log_audio_not_ready: bool,
}

/// Apply one "moved" event for the shared object: the object takes the
/// event's position, the label sits at the fixed vertical offset above it and
/// shows the point value in base ten, and the move sound plays exactly when
/// its asset is ready.
pub fn listen_for_move_cracker_bevy_event(e: &MoveCrackersBevyEvent, audio_ready: bool) -> (u:
    CrackerUpdate)
    requires
        e.y_position + CRACKER_TEXT_OFFSET <= i64::MAX,
    ensures
        u.object_x == e.x_position,
        u.object_y == e.y_position,
        u.label_x == e.x_position,
        u.label_y == e.y_position + CRACKER_TEXT_OFFSET,
        u.label_text@ == dec_str_of(e.points as nat),
        u.play_move_sound == audio_ready,
        u.log_audio_not_ready == !audio_ready,
{
    CrackerUpdate {
        object_x: e.x_position,
        object_y: e.y_position,
        label_x: e.x_position,
        label_y: e.y_position + CRACKER_TEXT_OFFSET,
        label_text: u64_to_dec_string(e.points),
        play_move_sound: audio_ready,
        log_audio_not_ready: !audio_ready,
    }
}

} // verus!
