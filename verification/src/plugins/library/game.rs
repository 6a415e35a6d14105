//! The game library: the state of the game and access to the players.
use vstd::prelude::*;
use vstd::string::*;

use crate::futurecop::{GameMode, PLAYER_ARRAY_ADDR};

verus! {

/// The game mode the game stores as `value`.
pub open spec fn game_mode_of(value: u32) -> GameMode {
    if value == 0 {
        GameMode::CrimeWar
    } else {
        GameMode::PrecinctAssault
    }
}

/// The game mode the game stores as `value`.
pub fn game_mode_from_value(value: u32) -> (r: GameMode)
    ensures
        r == game_mode_of(value),
{
    match value {
        0 => GameMode::CrimeWar,
        _ => GameMode::PrecinctAssault,
    }
}

/// The state of the game, as a plugin sees it.
#[derive(Debug, Clone, Copy, PartialEq, Eq, Structural)]
pub struct GameState {
    pub is_in_mission: bool,
    pub game_mode: GameMode,
    pub player_count: u8,
}

impl GameState {
    /// The state of the game from the game's globals: whether a mission is played, the
    /// stored game mode, and whether two players play.
    pub fn new(is_playing: bool, game_mode: u32, is_two_player: bool) -> (r: Self)
        ensures
            r.is_in_mission == is_playing,
            r.game_mode == game_mode_of(game_mode),
            r.player_count == if is_two_player { 2u8 } else { 1u8 },
    {
        GameState {
            is_in_mission: is_playing,
            game_mode: game_mode_from_value(game_mode),
            player_count: match is_two_player {
                true => 2,
                false => 1,
            },
        }
    }
}

/// The address of the entry of the game's player array for `player` (0 or 1).
pub fn player_array_entry(player: u8) -> (r: Result<u32, String>)
    ensures
        player <= 1 ==> r == Ok::<u32, String>((PLAYER_ARRAY_ADDR + player * 8) as u32),
        player > 1 ==> (r matches Err(m) && m@ == "Can only get player one or two at the moment."@),
{
    if player > 1 {
        return Err(String::from_str("Can only get player one or two at the moment."));
    }
    Ok(PLAYER_ARRAY_ADDR + (player as u32) * 8)
}

/// The address of a player's entity, from the entry of the player array; `0` means the
/// player does not exist.
pub fn player_entity_address(array_item: u32) -> (r: Result<u32, String>)
    ensures
        array_item != 0 ==> r == Ok::<u32, String>(array_item),
        array_item == 0 ==> (r matches Err(m) && m@ == "Player doesn't exist"@),
{
    if array_item == 0 {
        return Err(String::from_str("Player doesn't exist"));
    }
    Ok(array_item)
}

} // verus!
