//! A game's state machine: menu, playing, paused and game-over states,
//! driven by start, pause, resume and end events.
//!
//! [`spec_transition`] is the transition table; `transition` is proved
//! to follow it exactly, including the rule that an event with no arrow
//! from the current state leaves the state unchanged.

use vstd::prelude::*;

verus! {

/// A timed or permanent boost to one of the player's statistics.
#[derive(Clone)]
pub struct StatBoost {
    pub stat: String,
    pub amount: i32,
    pub duration: u32,
}

/// What a consumable does when used.
#[derive(Clone)]
pub enum Effect {
    Heal(u32),
    Boost(StatBoost),
    Teleport,
}

/// One inventory item.
#[derive(Clone)]
pub enum Item {
    Weapon { name: String, damage: u32 },
    Armor { name: String, defense: u32 },
    Consumable { name: String, effect: Effect },
}

/// The player character.
#[derive(Clone)]
pub struct Player {
    pub id: u32,
    pub name: String,
    pub health: u32,
    pub inventory: Vec<Item>,
}

/// Where the game stands.
#[derive(Clone)]
pub enum GameState {
    Menu,
    Playing { level: u32, score: i32, player: Player },
    Paused { level: u32, score: i32 },
    GameOver { final_score: i32, high_score: i32 },
}

/// What just happened.
pub enum GameEvent {
    StartGame(Player),
    Pause,
    Resume(Player),
    EndGame(i32),
}

/// The transition table: starting from the menu enters level 1 with
/// score 0; pausing keeps level and score (the player leaves the
/// field); resuming restores play with the returning player; ending a
/// game records the score against the given high score; every other
/// state/event pair changes nothing.
pub open spec fn spec_transition(state: GameState, event: GameEvent) -> GameState {
    match (state, event) {
        (GameState::Menu, GameEvent::StartGame(player)) => GameState::Playing {
            level: 1,
            score: 0,
            player,
        },
        (GameState::Playing { level, score, player: _ }, GameEvent::Pause) => GameState::Paused {
            level,
            score,
        },
        (GameState::Paused { level, score }, GameEvent::Resume(player)) => GameState::Playing {
            level,
            score,
            player,
        },
        (
            GameState::Playing { level: _, score, player: _ },
            GameEvent::EndGame(high_score),
        ) => GameState::GameOver { final_score: score, high_score },
        (state, _) => state,
    }
}

impl GameState {
    /// Applies one event, following [`spec_transition`].
    pub fn transition(&mut self, event: GameEvent)
        ensures
            *final(self) == spec_transition(*old(self), event),
    {
        let mut current = GameState::Menu;
        core::mem::swap(self, &mut current);
        *self = match (current, event) {
            (GameState::Menu, GameEvent::StartGame(player)) => GameState::Playing {
                level: 1,
                score: 0,
                player,
            },
            (GameState::Playing { level, score, player: _ }, GameEvent::Pause) => {
                GameState::Paused { level, score }
            },
            (GameState::Paused { level, score }, GameEvent::Resume(player)) => {
                GameState::Playing { level, score, player }
            },
            (
                GameState::Playing { level: _, score, player: _ },
                GameEvent::EndGame(high_score),
            ) => GameState::GameOver { final_score: score, high_score },
            (state, _) => state,
        };
    }
}

} // verus!
