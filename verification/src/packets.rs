//! The records that parsed packets are turned into.
//!
//! A field that holds a real number holds the [`JsonNumber`] that the packet
//! gave, or [`JsonNumber::Float`] of 0 (the number zero) where the packet gave
//! none; its real value is that number's.

use vstd::prelude::*;

use crate::json::{JsonNumber, JsonValue};

verus! {

/// A parsed packet: its opcode, the opcode's name and the parsed contents.
#[derive(Debug, PartialEq)]
pub struct ParsedPacket {
    pub opcode: String,
    pub meaning: String,
    pub parsed: PacketData,
}

/// The contents of a parsed packet, by kind.
#[derive(Debug, PartialEq)]
pub enum PacketData {
    Spawn(SpawnData),
    Move(MoveData),
    UpdatePlayers(UpdatePlayersData),
    LobbyMove(LobbyMoveData),
    Hit(HitData),
    Chat(ChatData),
    GameState(GameStateData),
    PlayerSync(PlayerSyncData),
    PlayerInit(PlayerInitData),
    Generic(GenericData),
}

/// A spawn packet (`sp`).
#[derive(Debug, PartialEq)]
pub struct SpawnData {
    pub packet_type: String,
    pub name: String,
    pub hp: JsonNumber,
    pub x: JsonNumber,
    pub y: JsonNumber,
    pub z: JsonNumber,
    pub rot_y: JsonNumber,
    pub pitch: JsonNumber,
    pub z_vel: JsonNumber,
    pub team: i32,
}

/// A move packet (`mv`).
#[derive(Debug, PartialEq)]
pub struct MoveData {
    pub packet_type: String,
    pub pos_map: JsonValue,
    pub path: JsonValue,
}

/// A look direction.
#[derive(Debug, Clone, Copy, PartialEq)]
pub struct ViewAngles {
    /// Horizontal look direction.
    pub yaw: i32,
    /// Vertical look direction.
    pub pitch: i32,
}

/// The state flags of a player.
#[derive(Debug, Clone, Copy, PartialEq)]
pub struct PlayerStateFlags {
    /// Grounded rather than airborne.
    pub on_ground: bool,
    pub is_crouching: bool,
    /// Holding the secondary weapon.
    pub using_secondary: bool,
    /// Firing from the hip rather than aiming down the sight.
    pub hip_firing: bool,
    pub flag_11: bool,
}

/// A player update packet (`k`).
#[derive(Debug, PartialEq)]
pub struct UpdatePlayersData {
    pub player_id: i32,
    /// The position of the player tracked first.
    pub first_focused_position: Position,
    /// The look direction of the player tracked first.
    pub view_angles: ViewAngles,
    pub momentum_a: JsonNumber,
    pub momentum_b: JsonNumber,
    pub focused_player_ping: i32,
    pub team_id: i32,
    pub state_flags: PlayerStateFlags,
    pub second_focused_position: Position,
    pub second_focused_view_angles: ViewAngles,
}

/// A health change, as the game reports it.
#[derive(Debug, PartialEq)]
pub struct GetHealthData {
    pub opcode: String,
    pub curr_health: i32,
    pub pos_shooter_1: i32,
    pub pos_shooter_2: i32,
}

/// A kill, as the game reports it.
#[derive(Debug, PartialEq)]
pub struct GetKillData {
    pub opcode: String,
    pub kill_score: i32,
}

/// A lobby move packet (`q`).
#[derive(Debug, PartialEq)]
pub struct LobbyMoveData {
    pub packet_type: String,
    pub player_id: String,
    pub code: String,
    pub session_id: String,
    pub state: i32,
}

/// A hit packet (`3`).
#[derive(Debug, PartialEq)]
pub struct HitData {
    pub packet_type: String,
    pub attacker_id: i32,
    pub victim_id: i32,
    pub damage: JsonNumber,
    pub effects: JsonValue,
    pub hit_info: HitInfo,
    pub meta: JsonValue,
}

/// The details of a hit.
#[derive(Debug, Clone, Copy, PartialEq)]
pub struct HitInfo {
    pub distance: JsonNumber,
    pub is_headshot: bool,
    pub is_wallbang: bool,
    pub weapon_id: i32,
}

/// A chat packet (`chi`).
#[derive(Debug, PartialEq)]
pub struct ChatData {
    pub packet_type: String,
    pub category: i32,
    pub message: String,
    pub player: String,
    pub priority: i32,
    pub meta: JsonValue,
    pub meaning: String,
}

/// A game state packet (`gsc`).
#[derive(Debug, PartialEq)]
pub struct GameStateData {
    pub packet_type: String,
    pub state_code: i32,
    pub meaning: String,
}

/// A player sync packet (`l`).
#[derive(Debug, PartialEq)]
pub struct PlayerSyncData {
    pub packet_type: String,
    pub id: i32,
    pub team: i32,
    pub position: Position,
    pub velocity: Position,
    pub rotation: JsonNumber,
    pub flags: PlayerFlags,
}

/// A point or vector in space.
#[derive(Debug, Clone, Copy, PartialEq)]
pub struct Position {
    pub x: JsonNumber,
    pub y: JsonNumber,
    pub z: JsonNumber,
}

/// The sixteen flag slots of a player sync packet, each null where the
/// packet has no such slot.
#[derive(Debug, PartialEq)]
pub struct PlayerFlags {
    pub flag1: JsonValue,
    pub flag2: JsonValue,
    pub flag3: JsonValue,
    pub flag4: JsonValue,
    pub flag5: JsonValue,
    pub flag6: JsonValue,
    pub flag7: JsonValue,
    pub flag8: JsonValue,
    pub flag9: JsonValue,
    pub flag10: JsonValue,
    pub flag11: JsonValue,
    pub flag12: JsonValue,
    pub flag13: JsonValue,
    pub flag14: JsonValue,
    pub flag15: JsonValue,
    pub flag16: JsonValue,
}

/// A player init packet (`0`).
#[derive(Debug, PartialEq)]
pub struct PlayerInitData {
    pub packet_type: String,
    pub uid: i32,
    pub class_id: i32,
    pub score: i32,
    pub position: Position2D,
    pub username: String,
    pub alive: bool,
    pub health: JsonNumber,
    pub max_health: JsonNumber,
    pub clan: String,
    pub angle: JsonNumber,
    pub game_mode: i32,
    pub weapon_id: i32,
    pub raw: Vec<JsonValue>,
    pub broadcast_flag: JsonValue,
}

/// A point in the plane.
#[derive(Debug, Clone, Copy, PartialEq)]
pub struct Position2D {
    pub x: JsonNumber,
    pub y: JsonNumber,
}

/// A packet of any other opcode, kept whole.
#[derive(Debug, PartialEq)]
pub struct GenericData {
    pub packet_type: String,
    pub name: String,
    pub raw: Vec<JsonValue>,
}

} // verus!
