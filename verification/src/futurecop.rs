//! What the mod knows of Future Cop's memory: the game modes, the layout of players and
//! entities, and which entities are the players.
use vstd::prelude::*;
use vstd::string::*;

verus! {

/// The address of the game's array of player entities.
pub const PLAYER_ARRAY_ADDR: u32 = 0x00511fd0;

/// The game modes.
#[derive(Debug, Clone, Copy, PartialEq, Eq, Structural)]
pub enum GameMode {
    CrimeWar,
    PrecinctAssault,
}

impl Default for GameMode {
    fn default() -> (r: Self)
        ensures
            r == GameMode::CrimeWar,
    {
        GameMode::CrimeWar
    }
}

/// The name of a game mode.
pub open spec fn game_mode_name(mode: GameMode) -> Seq<char> {
    match mode {
        GameMode::CrimeWar => "CrimeWar"@,
        GameMode::PrecinctAssault => "PrecinctAssault"@,
    }
}

impl GameMode {
    /// The name of the game mode.
    pub fn name(&self) -> (r: String)
        ensures
            r@ == game_mode_name(*self),
    {
        match self {
            GameMode::CrimeWar => String::from_str("CrimeWar"),
            GameMode::PrecinctAssault => String::from_str("PrecinctAssault"),
        }
    }
}

/// The health of a player entity, as the game stores it.
#[derive(Debug, Clone, Copy)]
pub struct PlayerHealth {
    pub health: i16,
    pub max_health: i16,
    pub unknown1: u32,
    pub unkonwn2: u32,
    pub low_health_threshold: u32,
}

/// The data of a player, as the game stores it. Fields named after their offsets are not
/// understood yet.
#[derive(Debug, Clone, Copy)]
pub struct Player {
    pub field_00_0f: u128,
    pub field_10_11: u16,
    pub field_12_13: u16,
    pub enemies_killed: u16, 
    pub deaths: u16,
    pub field_18_1f: u64,
    pub field_20_2f: u128,
    pub current_action: u32,
    pub field_34_37: u32,
    pub field_38_3b: u32,
    pub field_3c_3f: u32,
    pub movement_mode: u32,
    pub field_44_47: u32,
    pub field_48_4b: u32,
    pub field_4c_4f: u32,
    pub field_50_5f: u128,
    pub field_60_63: u32,
    pub field_64_67: u32,
    pub current_target_type: u32,
    pub current_target: u32,
    pub last_target: u32,
    pub field_74_77: u32,
    pub gun_weapon_timeout: u32,
    pub heavy_weapon_timeout: u32,
    pub special_weapon_timeout: u32,
    pub gun_weapon_ammo: u16,
    pub heavy_weapon_ammo: u16,
    pub special_weapon_ammo: u16,
    pub field_8a_8b: u16,
    pub field_8c_8f: u32,
    pub selected_gun_weapon: u8,
    pub selected_heavy_weapon: u8,
    pub selected_special_weapon: u8,
    pub field_93: u8,
    pub field_94_97: u32,
    pub field_98_9b: u32,
    pub field_9c_9f: u32,
    pub field_a0_a3: u32,
    pub camera_mode: u32,
    pub field_a8_ab: u32,
    pub field_ac_af: u32,
    pub field_b0_bf: u128,
    pub player_number: u8,
    pub field_c1: u8,
    pub field_c2: u8,
    pub field_c3: u8,
    pub field_c4_c7: u32,
    pub field_c8_cb: u32,
    pub field_cc_cf: u32,
    pub field_d0_df: u128,
    pub field_e0_ef: u128,
    pub field_f0_ff: u128,
    pub field_100_10f: u128,
    pub field_110_11f: u128,
    pub field_120_12f: u128,
    pub field_130_13f: u128,
    pub field_140_14f: u128,
    pub field_150_153: u32,
    pub field_154_157: u32,
    pub field_158_15b: u32,
    pub acceleration_x: i32,
    pub acceleration_z: i32,
    pub acceleration_y: i32,
    pub field_168_16b: u32,
    pub field_16c_16f: u32,
    pub field_170_17f: u128,
    pub field_180_18f: u128,
    pub field_190_19f: u128,
    pub field_1a0_1af: u128,
    pub field_1b0_1bf: u128,
    pub field_1c0_1cf: u128,
    pub field_1d0_1df: u128,
    pub field_1e0_1ef: u128,
    pub field_1f0_1ff: u128,
    pub field_200_20f: u128,
    pub field_210_21f: u128,
    pub field_220_22f: u128,
    pub field_230_23f: u128,
    pub field_240_24f: u128,
    pub field_250_25f: u128,
    pub field_260_26f: u128,
    pub field_270_27f: u128,
    pub field_280_28f: u128,
    pub field_290_29f: u128,
    pub field_2a0_2af: u128,
    pub field_2b0_2bf: u128,
    pub field_2c0_2cf: u128,
    pub field_2d0_2df: u128,
    pub field_2e0_2ef: u128,
    pub field_2f0_2ff: u128,
    pub field_300_30f: u128,
    pub field_310_31f: u128,
    pub field_320_327: u64,
    pub field_328_329: u16,
}

/// A player entity, as the game stores it; the fields that the game holds as pointers are
/// addresses here.
#[derive(Debug, Clone, Copy)]
pub struct PlayerEntity {
    pub parent: u32,
    /// Address of the entity's main method.
    pub main_method: u32,
    pub id: u32,
    pub unknown0: u32,
    pub unknown1: u32,
    pub unknown2: u32,
    pub unknown3: u32,
    pub health: PlayerHealth,
    pub unknown7: u128,
    pub unknown8: u128,
    pub unknown9: u32,
    pub position_x: u32,
    pub position_y: u32,
    pub position_z: u32,
    pub unknown10: u128,
    pub unknown11: u128,
    pub unknown12: u128,
    pub unknown13: u128,
    pub unknown14: u64,
    pub rotation:  i32,
    /// Address of the entity's [`Player`] data.
    pub player: u32,
    pub unknown15: u32,
    pub unknown16_0: u32,
    pub unknown16_1: u32,
    pub unknown16_2: u32,
    pub unknown16_3: u32,
    pub idle_animation_plays: u32,
    pub unknown17: u32,
    pub unknown18: u8,
    pub unknown19: u8,
    pub unknown20: u8,
    pub idle_timer: u8,
    pub unknown21: u128,
    pub unknown22: u128,
    pub unknown23: u128,
}

/// A position in the game world.
#[derive(Debug, Clone, Copy)]
pub struct Position {
    pub x: u32,
    pub y: u32,
    pub z: u32,
}

/// Represents basic entity/actor data.
/// Used by behavior `0xa0`.
#[derive(Debug, Clone, Copy)]
pub struct BasicEntity {
    pub next_entity: u32,
    pub update_method: u32,
    pub id: u32,
    pub unknown0xc: u32,
    pub unknown0x10: u32,
    pub unknown0x14: u16,
    pub behavior_type: u16,
    pub unknown0x18: u32,
    pub unknown0x1c: u32,
    pub unknown0x20: u16,
    pub unknown0x22: u8,
    pub map_marker: u8,
    pub unknown0x24: u32,
    pub model_data_ref: u32,
    pub model_matrix_0x2c: u32,
    pub model_matrix_0x30: u32,
    pub model_matrix_0x34: u32,
    pub model_matrix_0x38: u32,
    pub model_matrix_0x3c: u32,
    pub model_matrix_0x40: u32,
    pub model_matrix_0x44: u32,
    pub model_matrix_0x48: u32,
    pub model_matrix_0x4c: u32,
    pub position: Position,
    pub unknown0x5c: u32,
    pub unknown0x60: u32,
    pub unknown0x64: u32,
    pub unknown0x68: u32,
    pub unknown0x6c: u32,
    pub unknown0x70: u32,
    pub unknown0x74: u32,
    pub unknown0x78: u32,
    pub unknown0x7c: u32,
    pub unknown0x80: u32,
    pub unknown0x84: u32,
    pub unknown0x88: u32,
    pub unknown0x8c: u32,
    pub unknown0x90: u16,
    pub texture_offset_x: u8,
    pub texture_offset_y: u8,
    pub action_script_ref1: u32,
    pub action_script_ref2: u32,
    pub action_script_ref3: u32,
}

/// An entity, as the game stores it.
#[derive(Debug, Clone, Copy)]
pub struct Entity {
    pub next_entity: u32,
    pub update_method: u32,
    pub id: u32,
    pub unknown0xc: u32,
    pub unknown0x10: u32,
    pub unknown0x14: u16,
    pub behavior_type: u16,
    pub unknown0x18: u32,
    pub unknown0x1c: u32,
    pub unknown0x20: u16,
    pub unknown0x22: u8,
    pub map_marker: u8,
    pub unknown0x24: u32,
    pub model_data_ref: u32,
    pub model_matrix_0x2c: u32,
    pub model_matrix_0x30: u32,
    pub model_matrix_0x34: u32,
    pub model_matrix_0x38: u32,
    pub model_matrix_0x3c: u32,
    pub model_matrix_0x40: u32,
    pub model_matrix_0x44: u32,
    pub model_matrix_0x48: u32,
    pub model_matrix_0x4c: u32,
    pub position: Position,
    pub unknown0x5c: u32,
    pub unknown0x60: u32,
    pub unknown0x64: u32,
    pub unknown0x68: u32,
    pub unknown0x6c: u32,
    pub unknown0x70: u32,
    pub unknown0x74: u32,
    pub unknown0x78: u32,
    pub unknown0x7c: u32,
    pub unknown0x80: u32,
    pub unknown0x84: u32,
    pub unknown0x88: u32,
    pub unknown0x8c: u32,
    pub unknown0x90: u32,
    pub unknown0x94: u32,
    pub unknown0x98: u32,
    pub unknown0x9c: u32,
    pub unknown0xa0: u32,
    pub unknown0xa4: u32,
    pub unknown0xa8: u32,
    pub unknown0xac: u32,
    pub unknown0xb0: u32,
    pub unknown0xb4: u32,
    pub unknown0xb8: u32,
    pub unknown0xbc: u32,
    pub unknown0xc0: u32,
    pub unknown0xc4: u32,
    pub unknown0xc8: u32,
    pub unknown0xcc: u32,
    pub unknown0xd0: u32,
    pub unknown0xd4: u32,
    pub unknown0xd8: u32,
    pub unknown0xdc: u32,
    pub unknown0xe0: u32,
    pub unknown0xe4: u32,
    pub unknown0xe8: u32,
    pub unknown0xec: u32,
    pub unknown0xf0: u32,
    pub unknown0xf4: u32,
    pub unknown0xf8: u32,
    pub unknown0xfc: u32,
    pub unknown0x100: u32,
    pub unknown0x104: u32,
    pub unknown0x108: u32,
    pub unknown0x10c: u32,
}

/// Which player, if any, the entity with `id` is in the game mode `game_mode` (as the game
/// stores it): `0` for the first player, `1` for the second.
pub open spec fn player_of_entity(game_mode: u32, id: u32) -> Option<u8> {
    if game_mode == 0 && id == 1 {
        Some(0)
    } else if game_mode == 0 && id == 3 {
        Some(1)
    } else if id == 1 {
        Some(0)
    } else if id == 64 {
        Some(1)
    } else {
        None
    }
}

/// Which player, if any, the entity with `id` is in the game mode `game_mode`.
pub fn player_slot(game_mode: u32, id: u32) -> (r: Option<u8>)
    ensures
        r == player_of_entity(game_mode, id),
{
    match (game_mode, id) {
        (0, 1) => Some(0),
        (0, 3) => Some(1),
        (_, 1) => Some(0),
        (_, 64) => Some(1),
        _ => None,
    }
}

/// The player entities the mod knows of, by address.
#[derive(Debug, Clone, Copy, PartialEq, Eq, Structural)]
pub struct PlayerSlots {
    /// The first entity the player method was called for.
    pub player_entity_address: Option<u32>,
    pub first_player: Option<u32>,
    pub second_player: Option<u32>,
}

/// The event of the player method that creates an entity.
pub open spec fn created_event() -> i32 {
    2
}

/// The event of the player method that destroys an entity.
pub open spec fn destroyed_event() -> i32 {
    5
}

/// The player slots after the game's player method was called with `event` for the
/// entity at `address`, which has `id`, in the game mode `game_mode`.
pub open spec fn slots_after(before: PlayerSlots, event: i32, address: u32, id: u32, game_mode: u32) -> PlayerSlots {
    if address == 0 {
        before
    } else {
        let before = PlayerSlots {
            player_entity_address: if before.player_entity_address is None {
                Some(address)
            } else {
                before.player_entity_address
            },
            ..before
        };
        let player = player_of_entity(game_mode, id);
        if player is Some && event == created_event() {
            if player == Some(0u8) && before.first_player is None {
                PlayerSlots { first_player: Some(address), ..before }
            } else if player == Some(1u8) && before.second_player is None {
                PlayerSlots { second_player: Some(address), ..before }
            } else {
                before
            }
        } else if event == destroyed_event() {
            PlayerSlots {
                first_player: if before.first_player == Some(address) { None } else { before.first_player },
                second_player: if before.second_player == Some(address) { None } else { before.second_player },
                ..before
            }
        } else {
            before
        }
    }
}

/// The entity with id 1 is the first player in every game mode; the entity with id 64 is the
/// second player in every mode, and so is the one with id 3 in mode 0; no other entity is a
/// player.
pub proof fn lemma_player_entities(game_mode: u32, id: u32)
    ensures
        id == 1 ==> player_of_entity(game_mode, id) == Some(0u8),
        id == 64 ==> player_of_entity(game_mode, id) == Some(1u8),
        game_mode == 0 && id == 3 ==> player_of_entity(game_mode, id) == Some(1u8),
        id != 1 && id != 64 && !(game_mode == 0 && id == 3) ==> player_of_entity(game_mode, id) is None,
{
}

/// When the game's player method reports (event 5) that the entity at a non-zero `address`
/// was destroyed, no player slot holds that address any more, and a slot that held another
/// entity keeps it.
pub proof fn lemma_destroyed_entity_leaves_the_slots(before: PlayerSlots, address: u32, id: u32, game_mode: u32)
    requires
        address != 0,
    ensures
        slots_after(before, 5, address, id, game_mode).first_player != Some(address),
        slots_after(before, 5, address, id, game_mode).second_player != Some(address),
        before.first_player != Some(address) ==> slots_after(before, 5, address, id, game_mode).first_player
            == before.first_player,
        before.second_player != Some(address) ==> slots_after(before, 5, address, id, game_mode).second_player
            == before.second_player,
{
}

/// When the game's player method reports (event 2) that an entity of a player was created
/// at a non-zero `address`, that entity takes the player's slot if the slot is free: the
/// entity with id 1 is the first player; the entity with id 3 in mode 0, or with id 64 in
/// any mode, is the second player. A slot that is taken keeps its entity.
pub proof fn lemma_created_entity_takes_a_free_slot(before: PlayerSlots, address: u32, id: u32, game_mode: u32)
    requires
        address != 0,
    ensures
        id == 1 && before.first_player is None ==> slots_after(before, 2, address, id, game_mode).first_player
            == Some(address),
        ((game_mode == 0 && id == 3) || id == 64) && before.second_player is None
            ==> slots_after(before, 2, address, id, game_mode).second_player == Some(address),
        before.first_player is Some ==> slots_after(before, 2, address, id, game_mode).first_player
            == before.first_player,
        before.second_player is Some ==> slots_after(before, 2, address, id, game_mode).second_player
            == before.second_player,
{
}

impl PlayerSlots {
    /// No player entity known yet.
    pub fn new() -> (r: Self)
        ensures
            r.player_entity_address is None,
            r.first_player is None,
            r.second_player is None,
    {
        PlayerSlots { player_entity_address: None, first_player: None, second_player: None }
    }

    /// Records what the game's player method did: with `event` 2 an entity of a player
    /// was created, with `event` 5 it was destroyed. `id` is the entity's id and
    /// `game_mode` the game mode as the game stores them; both are only read for a
    /// non-zero `address`.
    pub fn on_player_method(&mut self, event: i32, address: u32, id: u32, game_mode: u32)
        ensures
            *final(self) == slots_after(*old(self), event, address, id, game_mode),
            address == 0 ==> *final(self) == *old(self),
            address != 0 && event == 5 ==> final(self).first_player != Some(address)
                && final(self).second_player != Some(address),
            address != 0 && event == 5 && old(self).first_player != Some(address) ==> final(self).first_player
                == old(self).first_player,
            address != 0 && event == 5 && old(self).second_player != Some(address) ==> final(self).second_player
                == old(self).second_player,
    {
        if address > 0 {
            if self.player_entity_address.is_none() {
                self.player_entity_address = Some(address);
            }

            let player = player_slot(game_mode, id);

            if player.is_some() && event == 2 {
                let first_free = self.first_player.is_none();
                let second_free = self.second_player.is_none();
                match player {
                    Some(0) => {
                        if first_free {
                            self.first_player = Some(address);
                        }
                    },
                    Some(1) => {
                        if second_free {
                            self.second_player = Some(address);
                        }
                    },
                    _ => {},
                }
            } else if event == 5 {
                if let Some(first) = self.first_player {
                    if first == address {
                        self.first_player = None;
                    }
                }
                if let Some(second) = self.second_player {
                    if second == address {
                        self.second_player = None;
                    }
                }
            }
        }
    }

    /// The player entity whose health the mod refills: the second player's if there is
    /// one, else the first player's; none if there is no first player.
    pub fn health_target(&self) -> (r: Option<u32>)
        ensures
            r == match self.first_player {
                None => None,
                Some(first) => match self.second_player {
                    Some(second) => Some(second),
                    None => Some(first),
                },
            },
    {
        match self.first_player {
            None => None,
            Some(first) => match self.second_player {
                Some(second) => Some(second),
                None => Some(first),
            },
        }
    }
}

} // verus!
