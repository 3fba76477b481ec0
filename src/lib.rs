//! Core of a bridge between a weighing scale on a serial line and TCP clients:
//! framing of the scale's byte stream, the single-slot reading cache, the
//! command grammar and the decisions of the serial and client loops.
pub mod bridge;
pub mod cache;
pub mod command;
pub mod framer;
pub mod protocol;
pub mod relevance;
pub mod settings;
