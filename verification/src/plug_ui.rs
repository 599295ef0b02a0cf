//! Element descriptions of the cairo based user interface.
use vstd::prelude::*;

verus! {

/// An input element: the value id and the index of its label.
#[derive(Debug, Clone, Copy, PartialEq, Eq, Structural)]
pub enum Element {
    Knob(usize, usize),
    SmallKnob(usize, usize),
    Toggle(usize, usize),
}

/// A rectangle in pixels that reacts to the mouse for the value `id`.
#[derive(Debug, Clone, Copy, PartialEq, Eq, Structural)]
pub struct ActiveZone {
    pub id: usize,
    pub idx: u32,
    pub x: u32,
    pub y: u32,
    pub w: u32,
    pub h: u32,
}

} // verus!
