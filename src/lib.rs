//! A terminal front end for an input-method engine: the key mapping, the
//! preedit/commit session model and the event dispatcher that ties them
//! together, all stated and proved with Verus.

pub mod dispatch;
pub mod error;
pub mod keymap;
pub mod polling;
pub mod render;
pub mod session;
