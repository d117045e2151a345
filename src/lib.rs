//! Passive inventory capture: the aggregation of decoded player records and
//! their export to the GOOD document format.

pub mod export;
pub mod game_data;
pub mod good;
pub mod keys;
pub mod monitor;
pub mod player_data;
pub mod records;
pub mod settings;
pub mod state;
