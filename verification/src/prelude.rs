//! Convenient re-exports of the most commonly used types.

pub use crate::{Error, KeyMsg, KillMsg, Model, MouseMsg, PasteMsg, QuitMsg, WindowSizeMsg};
