//! Deletion of accounts and of federated objects.

pub mod account;
pub mod account_dialogue_laws;
pub mod account_laws;
pub mod actions;
pub mod activities;
pub mod automod;
pub mod clock;
pub mod dialogue_laws;
pub mod laws;
pub mod lookup;
pub mod lookup_laws;
pub mod objects;
pub mod password;
pub mod program;
pub mod receive;
pub mod receive_dialogue_laws;
pub mod receive_laws;
pub mod send;
pub mod send_dialogue_laws;
pub mod send_laws;
pub mod urls;
pub mod verify;
pub mod verify_dialogue_laws;
pub mod verify_laws;
pub mod view_laws;
