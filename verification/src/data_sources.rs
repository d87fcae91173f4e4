//! The two lookup services: their addresses, what they answer, and how a word
//! is prepared for them.

pub mod jisho;
pub mod kanjiapi;
