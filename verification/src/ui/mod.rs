//! The data model of the plugin user interface: layout descriptions,
//! element kinds and highlight styles.
use vstd::prelude::*;

pub mod input;
pub mod layout;
pub mod painting;
pub mod protocol;

verus! {

/// The kinds of drawable input elements.
#[derive(Debug, Clone, Copy, PartialEq, Eq, Structural)]
pub enum ElementType {
    Knob,
    KnobSmall,
    KnobHuge,
    Button,
    Graph,
    GraphHuge,
    GraphSmall,
}

/// The mouse buttons that the user interface reacts to.
#[derive(Debug, Clone, Copy, PartialEq, Eq, Structural)]
pub enum MouseButton {
    Left,
    Right,
    Middle,
}

} // verus!
