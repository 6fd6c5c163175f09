//! Core of a single-match tic-tac-toe service: board rules, the game state
//! machine, pluggable move-selection agents, and the match orchestrator.

pub mod agents;
pub mod game_logic;
pub mod schemas;
pub mod server;
