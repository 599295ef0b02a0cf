//! Highlight styles and the sub types of active zones.
use vstd::prelude::*;

verus! {

/// Sub type of an active zone: dragging adjusts the value coarsely.
pub const AZ_COARSE_DRAG: i8 = 0;
/// Sub type of an active zone: dragging adjusts the value finely.
pub const AZ_FINE_DRAG: i8 = 1;
/// Sub type of an active zone: clicking selects a modulation target.
pub const AZ_MOD_SELECT: i8 = 2;
/// Sub type of an active zone: clicking toggles the value.
pub const AZ_TOGGLE: i8 = 3;
/// Sub type of an active zone: clicking sets the value that the zone holds.
pub const AZ_SET_VALUE: i8 = 4;

/// How an element is highlighted when it is drawn.
#[derive(Debug, Clone, Copy, PartialEq, Eq, Structural)]
pub enum HLStyle {
    NoHighlight,
    Hover(i8),
    ModTarget,
    HoverModTarget,
}

} // verus!
