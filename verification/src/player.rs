//! The local player's slice of the event translation layer: decoding the
//! "you joined" bootstrap envelope, falling back to a visibly-sentinel value
//! when the payload is malformed, fanning the bundled roster out as
//! individual "other player joined" events, and the quack decisions tied to
//! the quack button and the spacebar. The decode is specified exactly, as the
//! composition of the named results of the JSON accessors.

use vstd::prelude::*;

use crate::cracker::MoveCrackersBevyEvent;
use crate::json::json_array_len;
use crate::json::json_as_i64;
use crate::json::json_as_string;
use crate::json::json_as_u64;
use crate::json::json_element;
use crate::json::json_field;
use crate::json::spec_json_array_len;
use crate::json::spec_json_as_i64;
use crate::json::spec_json_as_str;
use crate::json::spec_json_as_u64;
use crate::json::spec_json_element;
use crate::json::spec_json_field;

verus! {

/// Marker for the local player entity.
#[derive(Clone, Copy, Debug, PartialEq, Eq, Default)]
pub struct Player;

/// Maximum speed given to the freshly spawned local player, in world units
/// per second.
pub const SPAWNED_PLAYER_MAX_SPEED: i64 = 500;

/// One already-present player as the bootstrap payload describes it.
#[derive(Clone, Debug)]
pub struct NewJoinerData {
    pub player_uuid: String,
    pub player_friendly_name: String,
    pub color: String,
    pub x_position: i64,
    pub y_position: i64,
}

/// The mathematical view of one roster record.
pub struct JoinerView {
    pub player_uuid: Seq<char>,
    pub player_friendly_name: Seq<char>,
    pub color: Seq<char>,
    pub x_position: int,
    pub y_position: int,
}

impl View for NewJoinerData {
    type V = JoinerView;

    open spec fn view(&self) -> JoinerView {
        JoinerView {
            player_uuid: self.player_uuid@,
            player_friendly_name: self.player_friendly_name@,
            color: self.color@,
            x_position: self.x_position as int,
            y_position: self.y_position as int,
        }
    }
}

/// The views of a sequence of roster records, in order.
pub open spec fn joiner_views(s: Seq<NewJoinerData>) -> Seq<JoinerView> {
    s.map_values(|j: NewJoinerData| j@)
}

/// The decoded "you joined" payload: the local player's own record, the
/// shared object's state, and the roster of all other players.
#[derive(Clone, Debug)]
pub struct NewJoinerDataWithAllPlayers {
    pub player_uuid: String,
    pub player_friendly_name: String,
    pub color: String,
    pub x_position: i64,
    pub y_position: i64,
    pub cracker_x: i64,
    pub cracker_y: i64,
    pub cracker_points: u64,
    pub player_points: u64,
    pub all_other_players: Vec<NewJoinerData>,
}

/// The mathematical view of the whole payload.
pub struct PayloadView {
    pub player_uuid: Seq<char>,
    pub player_friendly_name: Seq<char>,
    pub color: Seq<char>,
    pub x_position: int,
    pub y_position: int,
    pub cracker_x: int,
    pub cracker_y: int,
    pub cracker_points: int,
    pub player_points: int,
    pub all_other_players: Seq<JoinerView>,
}

impl View for NewJoinerDataWithAllPlayers {
    type V = PayloadView;

    open spec fn view(&self) -> PayloadView {
        PayloadView {
            player_uuid: self.player_uuid@,
            player_friendly_name: self.player_friendly_name@,
            color: self.color@,
            x_position: self.x_position as int,
            y_position: self.y_position as int,
            cracker_x: self.cracker_x as int,
            cracker_y: self.cracker_y as int,
            cracker_points: self.cracker_points as int,
            player_points: self.player_points as int,
            all_other_players: joiner_views(self.all_other_players@),
        }
    }
}

/// The view of a decode result.
pub open spec fn opt_payload_view(r: Option<NewJoinerDataWithAllPlayers>) -> Option<PayloadView> {
    match r {
        Some(d) => Some(d@),
        None => None,
    }
}

/// The characters of a string field of a JSON object, when the field exists
/// and is a string.
pub open spec fn spec_field_str(v: serde_json::Value, key: Seq<char>) -> Option<Seq<char>> {
    match spec_json_field(v, key) {
        Some(f) => spec_json_as_str(f),
        None => None,
    }
}

/// An `i64` field of a JSON object, when the field exists and is such a
/// number.
pub open spec fn spec_field_i64(v: serde_json::Value, key: Seq<char>) -> Option<i64> {
    match spec_json_field(v, key) {
        Some(f) => spec_json_as_i64(f),
        None => None,
    }
}

/// A `u64` field of a JSON object, when the field exists and is such a
/// number.
pub open spec fn spec_field_u64(v: serde_json::Value, key: Seq<char>) -> Option<u64> {
    match spec_json_field(v, key) {
        Some(f) => spec_json_as_u64(f),
        None => None,
    }
}

/// The decode of one roster entry: all five fields present and well typed, or
/// nothing.
pub open spec fn spec_decode_joiner(elem: serde_json::Value) -> Option<JoinerView> {
    match (
        spec_field_str(elem, "player_uuid"@),
        spec_field_str(elem, "player_friendly_name"@),
        spec_field_str(elem, "color"@),
        spec_field_i64(elem, "x_position"@),
        spec_field_i64(elem, "y_position"@),
    ) {
        (
            Some(player_uuid),
            Some(player_friendly_name),
            Some(color),
            Some(x_position),
            Some(y_position),
        ) => Some(
            JoinerView {
                player_uuid,
                player_friendly_name,
                color,
                x_position: x_position as int,
                y_position: y_position as int,
            },
        ),
        _ => None,
    }
}

/// The decode of the first `n` roster entries, in order; `None` as soon as
/// any entry is missing or malformed.
pub open spec fn spec_decode_roster(arr: serde_json::Value, n: int) -> Option<Seq<JoinerView>>
    decreases n,
{
    if n <= 0 {
        Some(Seq::empty())
    } else {
        match spec_decode_roster(arr, n - 1) {
            None => None,
            Some(prefix) => match spec_json_element(arr, n - 1) {
                None => None,
                Some(e) => match spec_decode_joiner(e) {
                    None => None,
                    Some(j) => Some(prefix.push(j)),
                },
            },
        }
    }
}

/// The all-or-nothing decode of a "you joined" payload, as a typed
/// deserialization would read it: every expected field of the payload, and
/// every entry of the bundled roster, present and well typed — or nothing.
pub open spec fn spec_decode_you_joined(v: serde_json::Value) -> Option<PayloadView> {
    match (
        spec_field_str(v, "player_uuid"@),
        spec_field_str(v, "player_friendly_name"@),
        spec_field_str(v, "color"@),
        spec_field_i64(v, "x_position"@),
        spec_field_i64(v, "y_position"@),
        spec_field_i64(v, "cracker_x"@),
        spec_field_i64(v, "cracker_y"@),
        spec_field_u64(v, "cracker_points"@),
        spec_field_u64(v, "player_points"@),
        spec_json_field(v, "all_other_players"@),
    ) {
        (
            Some(player_uuid),
            Some(player_friendly_name),
            Some(color),
            Some(x_position),
            Some(y_position),
            Some(cracker_x),
            Some(cracker_y),
            Some(cracker_points),
            Some(player_points),
            Some(roster),
        ) => match spec_json_array_len(roster) {
            None => None,
            Some(n) => match spec_decode_roster(roster, n as int) {
                None => None,
                Some(all_other_players) => Some(
                    PayloadView {
                        player_uuid,
                        player_friendly_name,
                        color,
                        x_position: x_position as int,
                        y_position: y_position as int,
                        cracker_x: cracker_x as int,
                        cracker_y: cracker_y as int,
                        cracker_points: cracker_points as int,
                        player_points: player_points as int,
                        all_other_players,
                    },
                ),
            },
        },
        _ => None,
    }
}

/// A steady-state "another player joined" event; the bootstrap roster is
/// fanned out as one of these per bundled player, so a player's appearance
/// always travels the same path.
#[derive(Clone, Debug)]
pub struct OtherPlayerJoinedWsReceived {
    pub data: NewJoinerData,
}

/// What the local player entity is spawned with.
#[derive(Clone, Debug)]
pub struct PlayerSpawn {
    pub x_position: i64,
    pub y_position: i64,
    pub player_friendly_name: String,
    pub color: String,
    pub max_speed: i64,
}

/// Everything one "you joined" envelope produces: whether the payload failed
/// to parse (and was logged), the shared-object update event, the local
/// player spawn, and the fanned-out roster events.
#[derive(Clone, Debug)]
pub struct YouJoinedOutcome {
    pub parse_failed: bool,
    pub cracker_event: MoveCrackersBevyEvent,
    pub spawn: PlayerSpawn,
    pub other_player_events: Vec<OtherPlayerJoinedWsReceived>,
}

/// The outcome a well-decoded payload `d` produces: the shared object update
/// carries the payload's cracker fields, the spawn carries the player's own
/// record, and the roster is fanned out one event per bundled player, in
/// order.
pub open spec fn translates(d: PayloadView, o: YouJoinedOutcome) -> bool {
    &&& o.cracker_event.x_position == d.cracker_x
    &&& o.cracker_event.y_position == d.cracker_y
    &&& o.cracker_event.points == d.cracker_points
    &&& !o.cracker_event.you_got_crackers
    &&& o.spawn.x_position == d.x_position
    &&& o.spawn.y_position == d.y_position
    &&& o.spawn.player_friendly_name@ == d.player_friendly_name
    &&& o.spawn.color@ == d.color
    &&& o.spawn.max_speed == SPAWNED_PLAYER_MAX_SPEED
    &&& o.other_player_events@.len() == d.all_other_players.len()
    &&& forall|i: int|
        0 <= i < d.all_other_players.len() ==> (#[trigger] o.other_player_events@[i].data)@
            == d.all_other_players[i]
}

/// The outcome a failed decode produces: a logged parse failure and the
/// deliberate sentinel — the player spawns at the origin under the name
/// `"error"`, the shared object rests at the origin with zero points, and no
/// roster events are emitted. Downstream consumers treat this exactly like
/// real data.
pub open spec fn is_fallback_outcome(o: YouJoinedOutcome) -> bool {
    &&& o.parse_failed
    &&& o.cracker_event.x_position == 0
    &&& o.cracker_event.y_position == 0
    &&& o.cracker_event.points == 0
    &&& !o.cracker_event.you_got_crackers
    &&& o.spawn.x_position == 0
    &&& o.spawn.y_position == 0
    &&& o.spawn.player_friendly_name@ == "error"@
    &&& o.spawn.color@ == "error"@
    &&& o.spawn.max_speed == SPAWNED_PLAYER_MAX_SPEED
    &&& o.other_player_events@.len() == 0
}

/// The translation contract: a decoded payload yields its own translation, a
/// failed decode yields the sentinel fallback.
pub open spec fn is_translation(parsed: Option<PayloadView>, o: YouJoinedOutcome) -> bool {
    match parsed {
        Some(d) => !o.parse_failed && translates(d, o),
        None => is_fallback_outcome(o),
    }
}

/// Turn a decode result into the events and the spawn it stands for: the
/// translation of the payload when the decode succeeded, the sentinel
/// fallback when it failed.
pub fn translate_you_joined(parsed: Option<NewJoinerDataWithAllPlayers>) -> (o: YouJoinedOutcome)
    ensures
        is_translation(opt_payload_view(parsed), o),
{
    match parsed {
        None => YouJoinedOutcome {
            parse_failed: true,
            cracker_event: MoveCrackersBevyEvent {
                x_position: 0,
                y_position: 0,
                points: 0,
                you_got_crackers: false,
            },
            spawn: PlayerSpawn {
                x_position: 0,
                y_position: 0,
                player_friendly_name: "error".to_owned(),
                color: "error".to_owned(),
                max_speed: SPAWNED_PLAYER_MAX_SPEED,
            },
            other_player_events: Vec::new(),
        },
        Some(d) => {
            let ghost all = d.all_other_players@;
            let mut rest = d.all_other_players;
            let mut events: Vec<OtherPlayerJoinedWsReceived> = Vec::new();
            while rest.len() > 0
                invariant
                    events@.len() + rest@.len() == all.len(),
                    rest@ =~= all.subrange(events@.len() as int, all.len() as int),
                    forall|i: int|
                        0 <= i < events@.len() ==> #[trigger] events@[i].data == all[i],
                decreases rest@.len(),
            {
                let item = rest.remove(0);
                events.push(OtherPlayerJoinedWsReceived { data: item });
            }
            proof {
                assert(forall|i: int|
                    0 <= i < all.len() ==> (#[trigger] events@[i].data)@ == joiner_views(all)[i]);
            }
            YouJoinedOutcome {
                parse_failed: false,
                cracker_event: MoveCrackersBevyEvent {
                    x_position: d.cracker_x,
                    y_position: d.cracker_y,
                    points: d.cracker_points,
                    you_got_crackers: false,
                },
                spawn: PlayerSpawn {
                    x_position: d.x_position,
                    y_position: d.y_position,
                    player_friendly_name: d.player_friendly_name,
                    color: d.color,
                    max_speed: SPAWNED_PLAYER_MAX_SPEED,
                },
                other_player_events: events,
            }
        },
    }
}

/// A string field of a JSON object, when present.
fn field_string(data: &serde_json::Value, key: &str) -> (r: Option<String>)
    ensures
        r is Some <==> spec_field_str(*data, key@) is Some,
        r matches Some(s) ==> spec_field_str(*data, key@) == Some(s@),
{
    match json_field(data, key) {
        Some(v) => json_as_string(v),
        None => None,
    }
}

/// An `i64` field of a JSON object, when present.
fn field_i64(data: &serde_json::Value, key: &str) -> (r: Option<i64>)
    ensures
        r == spec_field_i64(*data, key@),
{
    match json_field(data, key) {
        Some(v) => json_as_i64(v),
        None => None,
    }
}

/// A `u64` field of a JSON object, when present.
fn field_u64(data: &serde_json::Value, key: &str) -> (r: Option<u64>)
    ensures
        r == spec_field_u64(*data, key@),
{
    match json_field(data, key) {
        Some(v) => json_as_u64(v),
        None => None,
    }
}

/// One roster entry decoded from a JSON array element; `None` when any field
/// is missing or of the wrong type.
fn decode_joiner(elem: &serde_json::Value) -> (r: Option<NewJoinerData>)
    ensures
        r is Some <==> spec_decode_joiner(*elem) is Some,
        r matches Some(j) ==> spec_decode_joiner(*elem) == Some(j@),
{
    let player_uuid = match field_string(elem, "player_uuid") {
        Some(s) => s,
        None => {
            return None;
        },
    };
    let player_friendly_name = match field_string(elem, "player_friendly_name") {
        Some(s) => s,
        None => {
            return None;
        },
    };
    let color = match field_string(elem, "color") {
        Some(s) => s,
        None => {
            return None;
        },
    };
    let x_position = match field_i64(elem, "x_position") {
        Some(n) => n,
        None => {
            return None;
        },
    };
    let y_position = match field_i64(elem, "y_position") {
        Some(n) => n,
        None => {
            return None;
        },
    };
    Some(NewJoinerData { player_uuid, player_friendly_name, color, x_position, y_position })
}

/// `None` at any level below `n` makes the whole roster decode `None`.
proof fn lemma_roster_none_propagates(arr: serde_json::Value, k: int, n: int)
    requires
        0 <= k <= n,
        spec_decode_roster(arr, k) is None,
    ensures
        spec_decode_roster(arr, n) is None,
    decreases n,
{
    if n > k {
        lemma_roster_none_propagates(arr, k, n - 1);
    }
}

/// Decode a "you joined" payload: exactly `spec_decode_you_joined` — the
/// all-or-nothing read of every expected field and every roster entry.
pub fn decode_you_joined(data: &serde_json::Value) -> (r: Option<NewJoinerDataWithAllPlayers>)
    ensures
        opt_payload_view(r) == spec_decode_you_joined(*data),
{
    let player_uuid = match field_string(data, "player_uuid") {
        Some(s) => s,
        None => {
            return None;
        },
    };
    let player_friendly_name = match field_string(data, "player_friendly_name") {
        Some(s) => s,
        None => {
            return None;
        },
    };
    let color = match field_string(data, "color") {
        Some(s) => s,
        None => {
            return None;
        },
    };
    let x_position = match field_i64(data, "x_position") {
        Some(n) => n,
        None => {
            return None;
        },
    };
    let y_position = match field_i64(data, "y_position") {
        Some(n) => n,
        None => {
            return None;
        },
    };
    let cracker_x = match field_i64(data, "cracker_x") {
        Some(n) => n,
        None => {
            return None;
        },
    };
    let cracker_y = match field_i64(data, "cracker_y") {
        Some(n) => n,
        None => {
            return None;
        },
    };
    let cracker_points = match field_u64(data, "cracker_points") {
        Some(n) => n,
        None => {
            return None;
        },
    };
    let player_points = match field_u64(data, "player_points") {
        Some(n) => n,
        None => {
            return None;
        },
    };
    let roster = match json_field(data, "all_other_players") {
        Some(v) => v,
        None => {
            return None;
        },
    };
    let roster_len = match json_array_len(roster) {
        Some(n) => n,
        None => {
            return None;
        },
    };
    let mut all_other_players: Vec<NewJoinerData> = Vec::new();
    let mut i: usize = 0;
    while i < roster_len
        invariant
            i <= roster_len,
            spec_json_field(*data, "all_other_players"@) == Some(*roster),
            spec_json_array_len(*roster) == Some(roster_len),
            spec_decode_roster(*roster, i as int) == Some(joiner_views(all_other_players@)),
            all_other_players@.len() == i,
        decreases roster_len - i,
    {
        let ghost views_before = joiner_views(all_other_players@);
        let elem = match json_element(roster, i) {
            Some(e) => e,
            None => {
                proof {
                    assert(spec_decode_roster(*roster, i + 1) is None);
                    lemma_roster_none_propagates(*roster, i + 1, roster_len as int);
                }
                return None;
            },
        };
        let joiner = match decode_joiner(elem) {
            Some(j) => j,
            None => {
                proof {
                    assert(spec_decode_roster(*roster, i + 1) is None);
                    lemma_roster_none_propagates(*roster, i + 1, roster_len as int);
                }
                return None;
            },
        };
        all_other_players.push(joiner);
        i = i + 1;
        proof {
            assert(joiner_views(all_other_players@) =~= views_before.push(joiner@));
        }
    }
    let result = NewJoinerDataWithAllPlayers {
        player_uuid,
        player_friendly_name,
        color,
        x_position,
        y_position,
        cracker_x,
        cracker_y,
        cracker_points,
        player_points,
        all_other_players,
    };
    proof {
        assert(spec_decode_you_joined(*data) == Some(result@));
    }
    Some(result)
}

/// Handle one inbound "you joined" envelope: decode its payload and translate
/// the result. The outcome is the translation of exactly what the payload
/// decodes to — its own data when well formed, the sentinel fallback when
/// malformed, which downstream consumers treat like real data; the pipeline
/// never halts on a parse failure.
pub fn you_joined_ws_msg_handler(data: &serde_json::Value) -> (o: YouJoinedOutcome)
    ensures
        is_translation(spec_decode_you_joined(*data), o),
{
    let parsed = decode_you_joined(data);
    translate_you_joined(parsed)
}

/// What one quack input decides: whether the local quack sound plays, whether
/// a quack request goes out to the server, and whether a not-ready log line
/// is written instead of playing.
#[derive(Clone, Copy, Debug, PartialEq, Eq, Structural)]
pub struct QuackOutcome {
    pub play_sound: bool,
    pub send_quack_request: bool,
    pub log_audio_not_ready: bool,
}

/// The quack button: a press always sends the outbound request, plays the
/// sound when its asset is loaded, and only logs when it is not.
pub fn quack_btn_handler(pressed: bool, audio_ready: bool) -> (o: QuackOutcome)
    ensures
        o.play_sound == (pressed && audio_ready),
        o.send_quack_request == pressed,
        o.log_audio_not_ready == (pressed && !audio_ready),
{
    QuackOutcome {
        play_sound: pressed && audio_ready,
        send_quack_request: pressed,
        log_audio_not_ready: pressed && !audio_ready,
    }
}

/// The spacebar: a press always sends the outbound request — an asset that is
/// not ready skips only the dependent sound, with a log line in its place.
pub fn spacebar_quack_system(space_just_pressed: bool, audio_ready: bool) -> (o: QuackOutcome)
    ensures
        o.play_sound == (space_just_pressed && audio_ready),
        o.send_quack_request == space_just_pressed,
        o.log_audio_not_ready == (space_just_pressed && !audio_ready),
{
    QuackOutcome {
        play_sound: space_just_pressed && audio_ready,
        send_quack_request: space_just_pressed,
        log_audio_not_ready: space_just_pressed && !audio_ready,
    }
}

} // verus!
