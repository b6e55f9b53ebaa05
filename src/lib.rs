//! A small note-keeping library: a flat, ordered collection of notes, the
//! commands that read and change it, and its JSON encoding.

pub mod action;
pub mod codec;
pub mod commands;
pub mod error;
pub mod id;
pub mod laws;
pub mod note;
