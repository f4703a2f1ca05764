//! The search-and-selection core of a keyboard-driven picker for Unicode
//! characters.
//!
//! A corpus of character records is loaded from the character database
//! (`corpus`, on the markup events of `markup`) and put into a full-text
//! index (`engine`, on the index of `index`); whether the stored index can be
//! used as it is or has to be built anew is decided in `storage`. A query
//! text is evaluated by the engine, and the interaction state (`state`)
//! keeps the text, its cursor, the results, the selection and the visible
//! window consistent from one input event to the next. `picker` puts state
//! and engine together, `keys` and `config` read what the window system and
//! the settings say, and `window` lays out what is visible.

pub mod config;
pub mod corpus;
pub mod engine;
pub mod error;
pub mod index;
pub mod keys;
pub mod markup;
pub mod picker;
pub mod record;
pub mod state;
pub mod storage;
pub mod text;
pub mod window;
