//! The session logic of a terminal credential manager.
//!
//! A session holds the loaded records, a search over their titles, a
//! selection, and three edit buffers. Key presses drive it through its input
//! modes. The record store, the clipboard, the keyboard and the screen belong
//! to the caller: the session says what to ask of them and is told what came
//! back.
//!
//! - `record`: the credential record.
//! - `filter`: the records whose title begins with a text.
//! - `mode`: input modes, keys, and the actions handed to the caller.
//! - `model`: the session as a mathematical value, with its invariant.
//! - `session`: the session and its operations.
//! - `machine`: what each key does in each mode.
//! - `screen`: what the screen shows of a session.
//! - `store`: the failures of the record store.
//! - `laws`: what holds of every session.
//! - `text`: what is taken on trust about the standard library's strings.

pub mod record;
pub mod text;
pub mod filter;
pub mod mode;
pub mod model;
pub mod store;
pub mod session;
pub mod machine;
pub mod screen;
pub mod laws;
