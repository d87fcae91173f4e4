//! Flashcard notes for Japanese vocabulary.
//!
//! A word and an example sentence are merged with the results of a dictionary
//! lookup and of one ideograph lookup per kanji into a note, and the note is
//! translated into the request that the card database expects. The crate holds
//! the rules; the transport is left to the caller.

pub mod ankiconnect;
pub mod charclass;
pub mod data_sources;
pub mod error;
pub mod form;
pub mod text;
pub mod wire;
