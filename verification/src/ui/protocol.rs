//! The layout description that the plugin hands to the user interface.
use vstd::prelude::*;

verus! {

/// Position and size of an element in the 12 x 12 grid of its container.
#[derive(Debug, Clone, Copy, PartialEq, Eq, Structural)]
pub struct UIPos {
    pub col_size: u8,
    pub row_size: u8,
    /// Horizontal alignment: -1 left, 0 center, 1 right.
    pub align: i8,
}

impl UIPos {
    /// A centered position of the given size.
    pub fn center(col_size: u8, row_size: u8) -> (p: Self)
        ensures
            p == (UIPos { col_size, row_size, align: 0 }),
    {
        UIPos { col_size, row_size, align: 0 }
    }

    /// A left aligned position of the given size.
    pub fn left(col_size: u8, row_size: u8) -> (p: Self)
        ensures
            p == (UIPos { col_size, row_size, align: -1i8 }),
    {
        UIPos { col_size, row_size, align: -1 }
    }

    /// A right aligned position of the given size.
    pub fn right(col_size: u8, row_size: u8) -> (p: Self)
        ensures
            p == (UIPos { col_size, row_size, align: 1 }),
    {
        UIPos { col_size, row_size, align: 1 }
    }
}

/// What a button does with its value.
#[derive(Debug, Clone, Copy, PartialEq, Eq, Structural)]
pub enum UIBtnMode {
    Toggle,
    ModTarget,
    ValueDrag,
}

/// A button bound to the value `id`.
#[derive(Debug, Clone)]
pub struct UIBtnData {
    pub pos: UIPos,
    pub id: usize,
    pub label: String,
    pub mode: UIBtnMode,
}

/// A knob bound to the value `id`.
#[derive(Debug, Clone)]
pub struct UIKnobData {
    pub pos: UIPos,
    pub id: usize,
    pub label: String,
}

/// A graph bound to the value `id`. The plotted points are computed by the
/// drawing side of the user interface.
#[derive(Debug, Clone)]
pub struct UIGraphData {
    pub pos: UIPos,
    pub id: usize,
    pub label: String,
}

/// One cell of a container row.
#[derive(Debug, Clone)]
pub enum UIInput {
    Empty(UIPos),
    KnobSmall(UIKnobData),
    Knob(UIKnobData),
    KnobHuge(UIKnobData),
    Button(UIBtnData),
    Graph(UIGraphData),
}

/// The position of any input cell.
pub open spec fn input_position(i: UIInput) -> UIPos {
    match i {
        UIInput::Empty(p) => p,
        UIInput::KnobSmall(d) => d.pos,
        UIInput::Knob(d) => d.pos,
        UIInput::KnobHuge(d) => d.pos,
        UIInput::Button(d) => d.pos,
        UIInput::Graph(d) => d.pos,
    }
}

impl UIInput {
    /// An empty cell that only takes up space.
    pub fn none(pos: UIPos) -> (i: Self)
        ensures
            i == UIInput::Empty(pos),
    {
        UIInput::Empty(pos)
    }

    /// The grid position of the cell.
    pub fn position(&self) -> (p: UIPos)
        ensures
            p == input_position(*self),
    {
        match self {
            UIInput::Empty(p) => *p,
            UIInput::KnobSmall(UIKnobData { pos, .. }) => *pos,
            UIInput::Knob(UIKnobData { pos, .. }) => *pos,
            UIInput::KnobHuge(UIKnobData { pos, .. }) => *pos,
            UIInput::Button(UIBtnData { pos, .. }) => *pos,
            UIInput::Graph(UIGraphData { pos, .. }) => *pos,
        }
    }

    /// A button whose value is changed by dragging.
    pub fn btn_drag_value(id: usize, label: String, pos: UIPos) -> (i: Self)
        ensures
            i == UIInput::Button(UIBtnData { id, pos, label, mode: UIBtnMode::ValueDrag }),
    {
        UIInput::Button(UIBtnData { id, pos, label, mode: UIBtnMode::ValueDrag })
    }

    /// A button that toggles its value.
    pub fn btn_toggle(id: usize, label: String, pos: UIPos) -> (i: Self)
        ensures
            i == UIInput::Button(UIBtnData { id, pos, label, mode: UIBtnMode::Toggle }),
    {
        UIInput::Button(UIBtnData { id, pos, label, mode: UIBtnMode::Toggle })
    }

    /// A button that selects a modulation target.
    pub fn btn_mod_target(id: usize, label: String, pos: UIPos) -> (i: Self)
        ensures
            i == UIInput::Button(UIBtnData { id, pos, label, mode: UIBtnMode::ModTarget }),
    {
        UIInput::Button(UIBtnData { id, pos, label, mode: UIBtnMode::ModTarget })
    }

    /// A knob of normal size.
    pub fn knob(id: usize, label: String, pos: UIPos) -> (i: Self)
        ensures
            i == UIInput::Knob(UIKnobData { id, label, pos }),
    {
        UIInput::Knob(UIKnobData { id, label, pos })
    }

    /// A graph.
    pub fn graph(id: usize, label: String, pos: UIPos) -> (i: Self)
        ensures
            i == UIInput::Graph(UIGraphData { id, label, pos }),
    {
        UIInput::Graph(UIGraphData { id, label, pos })
    }

    /// A small knob.
    pub fn knob_small(id: usize, label: String, pos: UIPos) -> (i: Self)
        ensures
            i == UIInput::KnobSmall(UIKnobData { id, label, pos }),
    {
        UIInput::KnobSmall(UIKnobData { id, label, pos })
    }

    /// A huge knob.
    pub fn knob_huge(id: usize, label: String, pos: UIPos) -> (i: Self)
        ensures
            i == UIInput::KnobHuge(UIKnobData { id, label, pos }),
    {
        UIInput::KnobHuge(UIKnobData { id, label, pos })
    }
}

/// A top level container: a label, its place in the window's 12 x 12 grid
/// and its rows of cells.
#[derive(Debug, Clone)]
pub enum UILayout {
    Container { label: String, xv: u8, yv: u8, wv: u8, hv: u8, rows: Vec<Vec<UIInput>> },
}

} // verus!
