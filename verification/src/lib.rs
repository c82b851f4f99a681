//! A verified core for a terminal Deezer player: the playback queue, the
//! background player's state machine, the terminal client's key and mouse
//! handling, and the reading of the service's replies.

pub mod api;
pub mod cli;
pub mod client;
pub mod daemon;
pub mod fetch;
pub mod models;
pub mod mpris;
pub mod notice;
pub mod player;
pub mod protocol;
pub mod queue;
pub mod release;
pub mod rows;
pub mod seqs;
pub mod spectrum;
pub mod storage;
pub mod text;
pub mod theme;
