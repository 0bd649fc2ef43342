//! What holds of the library whatever it is fed: statements about every
//! input, every state and every order of events, each with its proof.

pub mod cache;
pub mod screens;
pub mod sources;
