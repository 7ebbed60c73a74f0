//! Stat cards for beasties: a chat command names a creature, and the reply
//! is a fixed-layout, ANSI-coloured card of its stats and description.
//!
//! The way from a message to its reply goes through five steps, each a
//! module with its own contracts:
//!
//! - [`loader`] reads the dataset from the text of a JSON document, which
//!   [`json`] parses;
//! - [`command`] cuts the creature's name out of a command and puts the
//!   steps together;
//! - [`name`] brings the name to its canonical case;
//! - [`dataset`] finds the record that bears exactly that name;
//! - [`render`] lays the record out as a card.
//!
//! [`record`] holds the creature record, [`text`] the text primitives the
//! others share. Every contract speaks of texts as sequences of characters.

pub mod command;
pub mod dataset;
pub mod json;
pub mod loader;
pub mod name;
pub mod record;
pub mod render;
pub mod text;
