//! Game logic of a word-building deck game server: the card table, the
//! players' state, and the rules that resolve words, purchases and turns.

pub mod cards;
pub mod codec;
pub mod board;
pub mod resolve_cards;
pub mod purchase;
pub mod spell;
pub mod random;
pub mod draw_card;
pub mod outbox;
pub mod game_engine;
pub mod command;
pub mod show_draft;
pub mod end_game;
pub mod draft;
pub mod drafttest;
pub mod lobby;
pub mod game;
pub mod replay_engine;
pub mod piles;
