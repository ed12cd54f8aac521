//! A two-player duel: each turn a counter runs round a dial of 101 positions and the player
//! stops it as close as possible to each target; the round's loser loses vitality.
//!
//! - `scoring`: the distance on the dial, base scores, objective scores and round averages;
//! - `player`: fighters, damage and poisons;
//! - `counter`: the state of the running counter and its steps;
//! - `game`: settings, objectives, turns, round resolution and the players' answers;
//! - `errors`: the errors of the game and the text in which they are shown;
//! - `decimal`: integers written in decimal, for the players' description.
pub mod counter;
pub mod decimal;
pub mod errors;
pub mod game;
pub mod player;
pub mod scoring;
