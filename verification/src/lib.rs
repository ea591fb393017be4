//! Verified model of a Gear "Tamagotchi" program family: the pet's state
//! machine, its factory, and the identifiers they exchange.

pub mod actor;

pub mod scale;
pub mod tamagotchi;
pub mod factory;
pub mod laws;
pub mod message_laws;
