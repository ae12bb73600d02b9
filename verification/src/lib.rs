//! The logic of a tag editor for music files that looks metadata up online.
//!
//! Its heart is the lookup ([`api`]): one search term is sent to several
//! catalogues, each answer is brought into one record type, a catalogue
//! that fails is passed over, and what the others found is joined in a
//! fixed order. Around it stand cover art ([`cover`]), the files being
//! edited ([`audio`]), the editor's own state ([`editor`]), the user's
//! settings ([`settings`]) and the notices shown to the user ([`toast`]).
//!
//! The library decides and computes; it performs no network or file access
//! itself. Its caller carries out each request the library asks for and
//! reports what came back.

pub mod api;
pub mod audio;
pub mod clock;
pub mod cover;
pub mod editor;
pub mod settings;
pub mod text;
pub mod toast;
