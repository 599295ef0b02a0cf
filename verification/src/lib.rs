//! Kickmess: the integer and data-structure core of a kick drum synthesizer
//! plugin, verified with Verus.

pub mod helpers;
pub mod plug_ui;
pub mod ui;
pub mod proc;
pub mod window;
pub mod log;
pub mod ringbuf_shared;
pub mod text;
pub mod param_model;
pub mod editor;
pub mod env;
