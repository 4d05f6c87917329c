//! What the clients of outside services decide from the answers they get.

pub mod battle_time;
pub mod solana;
pub mod solana_models;
pub mod clash_royale;
