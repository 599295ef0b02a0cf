//! The input state machine of the plugin user interface: which element the
//! mouse hovers, what a click or drag is doing, help mode and value entry.
//! The geometry of the elements and the parameter values are handled by
//! the drawing side; a zone carries its geometry as opaque data `Z`.
use crate::text::str_chars;
use crate::ui::painting::{
    HLStyle, AZ_COARSE_DRAG, AZ_FINE_DRAG, AZ_MOD_SELECT, AZ_SET_VALUE, AZ_TOGGLE,
};
use crate::ui::MouseButton;
use vstd::prelude::*;

verus! {


/// The id that no element has (as a `u64`, since it does not fit a 32 bit
/// `usize`).
pub const IMAGINARY_MAX_ID: u64 = 9999999999;

/// An active zone: the value id it belongs to, its sub type (one of the
/// `AZ_*` constants) and its geometry.
#[derive(Debug, Clone, Copy)]
pub struct Zone<Z> {
    pub id: usize,
    pub subtype: i8,
    pub data: Z,
}

/// What the mouse or keyboard is doing.
#[derive(Debug, Clone, Copy)]
pub enum InputMode<Z> {
    Idle,
    ValueDrag { zone: Zone<Z>, fine_key: bool },
    SelectMod { zone: Zone<Z> },
    ToggleBtn { zone: Zone<Z> },
    SetDefault { zone: Zone<Z> },
    SetValue { zone: Zone<Z> },
    InputValue { zone: Zone<Z> },
    GetHelp,
}

/// The value id that a mode acts on, or [`IMAGINARY_MAX_ID`].
pub open spec fn mode_id<Z>(m: InputMode<Z>) -> u64 {
    match m {
        InputMode::Idle => IMAGINARY_MAX_ID,
        InputMode::GetHelp => IMAGINARY_MAX_ID,
        InputMode::ValueDrag { zone, .. } => zone.id as u64,
        InputMode::SelectMod { zone } => zone.id as u64,
        InputMode::ToggleBtn { zone } => zone.id as u64,
        InputMode::SetDefault { zone } => zone.id as u64,
        InputMode::SetValue { zone } => zone.id as u64,
        InputMode::InputValue { zone } => zone.id as u64,
    }
}

impl<Z> InputMode<Z> {
    /// The value id that the mode acts on, or [`IMAGINARY_MAX_ID`].
    pub fn id(&self) -> (r: u64)
        ensures
            r == mode_id(*self),
    {
        match self {
            InputMode::Idle => IMAGINARY_MAX_ID,
            InputMode::GetHelp => IMAGINARY_MAX_ID,
            InputMode::ValueDrag { zone, .. } => zone.id as u64,
            InputMode::SelectMod { zone } => zone.id as u64,
            InputMode::ToggleBtn { zone } => zone.id as u64,
            InputMode::SetDefault { zone } => zone.id as u64,
            InputMode::SetValue { zone } => zone.id as u64,
            InputMode::InputValue { zone } => zone.id as u64,
        }
    }
}

/// The keys that the user interface reacts to.
#[derive(Debug, Clone)]
pub enum UIKey {
    Shift,
    Enter,
    Backspace,
    Character(String),
    F1,
    Escape,
    Other,
}

/// An input event. The drawing side adds what only it can judge: the zone
/// under the mouse, whether the hovered element is a modulation target of
/// the element being modulated, and whether the entered text would parse
/// as a value (for `Enter`, the current text; for a character, the text
/// after typing it, see [`UIInputState::input_candidate`]).
#[derive(Debug, Clone)]
pub enum UIInputEvent<Z> {
    MousePosition(Option<Zone<Z>>),
    MouseButtonPressed(MouseButton),
    MouseButtonReleased { btn: MouseButton, mod_target: bool },
    KeyPressed { key: UIKey, accepted: bool },
    KeyReleased(UIKey),
    WindowClose,
}

/// What the drawing side is to do after an event. Every action that
/// changes a value also reports the new value to the controller, so that
/// the host and the signal processing get it.
#[derive(Debug, Clone, Copy)]
pub enum UIAction<Z> {
    Nothing,
    /// The drag of value `id` moved: recompute the value and report it as
    /// part of the running edit.
    DragMoved { id: usize },
    /// A drag of value `id` started at the current mouse position: report
    /// the start of an edit.
    DragStarted { id: usize },
    /// The drag of value `id` ended: store the dragged value and report the
    /// end of the edit.
    DragStopped { id: usize },
    /// Set value `id` to its default and report it.
    SetDefault { id: usize },
    /// Step the toggle `id` (forward for the left button, back for the
    /// right one, to its default for the middle one) and report it.
    Toggle { id: usize, btn: MouseButton },
    /// Set the value of the zone to the value that the zone holds and
    /// report it.
    SetZoneValue { zone: Zone<Z> },
    /// Clear the modulation target of `id` and report it.
    ModTargetCleared { id: usize },
    /// Make `target` the modulation target of `id` and report it.
    ModTargetSet { id: usize, target: usize },
    /// Value entry for the zone started: show the old value.
    StartInput { zone: Zone<Z> },
    /// Store the entered value in `id` and report it.
    CommitInput { id: usize },
    /// The window was closed.
    WindowClosed,
}

/// The abstract state of the input state machine.
pub struct UIInputView<Z> {
    pub mode: InputMode<Z>,
    pub hover: Option<Zone<Z>>,
    pub fine_key_held: bool,
    pub help_id: Option<usize>,
    pub helps: Seq<Option<(Seq<char>, Seq<char>)>>,
    pub input: Seq<char>,
    pub needs_redraw: bool,
}

/// Whether value `id` has a help text.
pub open spec fn has_help(helps: Seq<Option<(Seq<char>, Seq<char>)>>, id: usize) -> bool {
    id < helps.len() && helps[id as int] is Some
}

/// The state with the redraw flag set.
pub open spec fn redraw<Z>(s: UIInputView<Z>) -> UIInputView<Z> {
    UIInputView { needs_redraw: true, ..s }
}

/// The state back in the idle mode.
pub open spec fn idle<Z>(s: UIInputView<Z>) -> UIInputView<Z> {
    UIInputView { mode: InputMode::Idle, ..s }
}

/// The entered text after typing `c`: a comma is typed as a period.
pub open spec fn typed(input: Seq<char>, c: Seq<char>) -> Seq<char> {
    if c == seq![','] {
        input.push('.')
    } else {
        input + c
    }
}

/// Whether the hover zone is `Some` with the value id `id`.
pub open spec fn hovers_id<Z>(hover: Option<Zone<Z>>, id: usize) -> bool {
    hover matches Some(h) && h.id == id
}

/// A mouse move; `h` is the zone under the mouse.
pub open spec fn step_mouse_position<Z>(s: UIInputView<Z>, h: Option<Zone<Z>>) -> (
    UIInputView<Z>,
    UIAction<Z>,
) {
    match s.mode {
        InputMode::ValueDrag { zone, .. } => (redraw(s), UIAction::DragMoved { id: zone.id }),
        _ => (redraw(UIInputView { hover: h, ..s }), UIAction::Nothing),
    }
}

/// A button press in the idle mode, decided by the sub type of the hovered
/// zone.
pub open spec fn step_press_subtype<Z>(s: UIInputView<Z>) -> (UIInputView<Z>, UIAction<Z>) {
    match s.hover {
        Some(hz) => if hz.subtype == AZ_COARSE_DRAG || hz.subtype == AZ_FINE_DRAG {
            (
                redraw(
                    UIInputView {
                        mode: InputMode::ValueDrag { zone: hz, fine_key: s.fine_key_held },
                        ..s
                    },
                ),
                UIAction::DragStarted { id: hz.id },
            )
        } else if hz.subtype == AZ_TOGGLE {
            (UIInputView { mode: InputMode::ToggleBtn { zone: hz }, ..s }, UIAction::Nothing)
        } else if hz.subtype == AZ_SET_VALUE {
            (UIInputView { mode: InputMode::SetValue { zone: hz }, ..s }, UIAction::Nothing)
        } else {
            (s, UIAction::Nothing)
        },
        None => (s, UIAction::Nothing),
    }
}

/// A button press. In value entry the right button leaves value entry
/// without storing the text; otherwise only the idle mode reacts. The
/// middle button resets a hovered value; the right button on a drag zone
/// starts value entry; otherwise the sub type of the hovered zone decides.
pub open spec fn step_pressed<Z>(s: UIInputView<Z>, btn: MouseButton) -> (
    UIInputView<Z>,
    UIAction<Z>,
) {
    if s.mode is InputValue && btn == MouseButton::Right {
        (idle(redraw(s)), UIAction::Nothing)
    } else if !(s.mode is Idle) {
        (s, UIAction::Nothing)
    } else {
        match s.hover {
            Some(hz) => if btn == MouseButton::Middle {
                (
                    redraw(UIInputView { mode: InputMode::SetDefault { zone: hz }, ..s }),
                    UIAction::Nothing,
                )
            } else if btn == MouseButton::Right && (hz.subtype == AZ_COARSE_DRAG || hz.subtype
                == AZ_FINE_DRAG) {
                (
                    redraw(
                        UIInputView {
                            mode: InputMode::InputValue { zone: hz },
                            input: Seq::empty(),
                            ..s
                        },
                    ),
                    UIAction::StartInput { zone: hz },
                )
            } else {
                step_press_subtype(s)
            },
            None => step_press_subtype(s),
        }
    }
}

/// A button release: it completes what the press started, and the mode
/// goes back to idle, except in modulation target selection without a
/// target and in value entry, which stay.
pub open spec fn step_released<Z>(s: UIInputView<Z>, btn: MouseButton, mod_target: bool) -> (
    UIInputView<Z>,
    UIAction<Z>,
) {
    match s.mode {
        InputMode::Idle => match s.hover {
            Some(hz) => if hz.subtype == AZ_MOD_SELECT {
                (
                    redraw(UIInputView { mode: InputMode::SelectMod { zone: hz }, ..s }),
                    UIAction::Nothing,
                )
            } else {
                (idle(s), UIAction::Nothing)
            },
            None => (idle(s), UIAction::Nothing),
        },
        InputMode::ValueDrag { zone, .. } => (
            idle(redraw(s)),
            UIAction::DragStopped { id: zone.id },
        ),
        InputMode::SetDefault { zone } => (
            idle(redraw(s)),
            if hovers_id(s.hover, zone.id) {
                UIAction::SetDefault { id: zone.id }
            } else {
                UIAction::Nothing
            },
        ),
        InputMode::ToggleBtn { zone } => (
            idle(redraw(s)),
            if hovers_id(s.hover, zone.id) {
                UIAction::Toggle { id: zone.id, btn }
            } else {
                UIAction::Nothing
            },
        ),
        InputMode::SetValue { zone } => if hovers_id(s.hover, zone.id) {
            (idle(redraw(s)), UIAction::SetZoneValue { zone })
        } else {
            (idle(s), UIAction::Nothing)
        },
        InputMode::GetHelp => match s.hover {
            Some(h) => if has_help(s.helps, h.id) {
                (idle(redraw(UIInputView { help_id: Some(h.id), ..s })), UIAction::Nothing)
            } else {
                (idle(s), UIAction::Nothing)
            },
            None => (idle(s), UIAction::Nothing),
        },
        InputMode::SelectMod { zone } => match s.hover {
            Some(h) => if h.id == zone.id {
                (idle(redraw(s)), UIAction::ModTargetCleared { id: zone.id })
            } else if mod_target {
                (idle(redraw(s)), UIAction::ModTargetSet { id: zone.id, target: h.id })
            } else {
                (s, UIAction::Nothing)
            },
            None => (s, UIAction::Nothing),
        },
        InputMode::InputValue { .. } => (s, UIAction::Nothing),
    }
}

/// A key press. Shift selects fine dragging, also for a drag that is
/// under way (it only turns fine dragging on); in value entry, Enter stores
/// an accepted text, Backspace removes the last character and a typed
/// character is kept when the text stays accepted.
pub open spec fn step_key_pressed<Z>(s: UIInputView<Z>, key: UIKey, accepted: bool) -> (
    UIInputView<Z>,
    UIAction<Z>,
) {
    match key {
        UIKey::Shift => match s.mode {
            InputMode::ValueDrag { zone, .. } => (
                UIInputView {
                    fine_key_held: true,
                    mode: InputMode::ValueDrag { zone, fine_key: true },
                    ..s
                },
                UIAction::Nothing,
            ),
            _ => (UIInputView { fine_key_held: true, ..s }, UIAction::Nothing),
        },
        UIKey::Enter => match s.mode {
            InputMode::InputValue { zone } => if accepted {
                (idle(redraw(s)), UIAction::CommitInput { id: zone.id })
            } else {
                (redraw(s), UIAction::Nothing)
            },
            _ => (redraw(s), UIAction::Nothing),
        },
        UIKey::Backspace => if s.mode is InputValue && s.input.len() > 0 {
            (redraw(UIInputView { input: s.input.drop_last(), ..s }), UIAction::Nothing)
        } else {
            (redraw(s), UIAction::Nothing)
        },
        UIKey::Character(c) => if s.mode is InputValue && accepted {
            (redraw(UIInputView { input: typed(s.input, c@), ..s }), UIAction::Nothing)
        } else {
            (redraw(s), UIAction::Nothing)
        },
        _ => (s, UIAction::Nothing),
    }
}

/// A key release. Shift ends fine dragging; F1 enters help mode, or leaves
/// it and any help shown; Escape leaves any mode and help.
pub open spec fn step_key_released<Z>(s: UIInputView<Z>, key: UIKey) -> (
    UIInputView<Z>,
    UIAction<Z>,
) {
    match key {
        UIKey::Shift => (UIInputView { fine_key_held: false, ..s }, UIAction::Nothing),
        UIKey::F1 => if s.help_id is Some || s.mode is GetHelp {
            (redraw(UIInputView { mode: InputMode::Idle, help_id: None, ..s }), UIAction::Nothing)
        } else {
            (redraw(UIInputView { mode: InputMode::GetHelp, ..s }), UIAction::Nothing)
        },
        UIKey::Escape => (
            redraw(UIInputView { mode: InputMode::Idle, help_id: None, ..s }),
            UIAction::Nothing,
        ),
        _ => (s, UIAction::Nothing),
    }
}

/// The next state and the action for event `ev` in state `s`.
pub open spec fn ui_step<Z>(s: UIInputView<Z>, ev: UIInputEvent<Z>) -> (
    UIInputView<Z>,
    UIAction<Z>,
) {
    match ev {
        UIInputEvent::MousePosition(h) => step_mouse_position(s, h),
        UIInputEvent::MouseButtonPressed(btn) => step_pressed(s, btn),
        UIInputEvent::MouseButtonReleased { btn, mod_target } => step_released(
            s,
            btn,
            mod_target,
        ),
        UIInputEvent::KeyPressed { key, accepted } => step_key_pressed(s, key, accepted),
        UIInputEvent::KeyReleased(key) => step_key_released(s, key),
        UIInputEvent::WindowClose => (s, UIAction::WindowClosed),
    }
}

/// The highlight of element `id` by the hover zone alone.
pub open spec fn hover_highlight<Z>(hover: Option<Zone<Z>>, id: usize) -> HLStyle {
    match hover {
        Some(h) => if h.id == id {
            HLStyle::Hover(h.subtype)
        } else {
            HLStyle::NoHighlight
        },
        None => HLStyle::NoHighlight,
    }
}

/// The highlight that element `id` is drawn with; `mod_target` tells
/// whether `id` is a modulation target of the element being modulated.
pub open spec fn element_highlight_spec<Z>(s: UIInputView<Z>, id: usize, mod_target: bool) -> HLStyle {
    match s.mode {
        InputMode::GetHelp => if hover_highlight(s.hover, id) is Hover {
            HLStyle::HoverModTarget
        } else if has_help(s.helps, id) {
            HLStyle::ModTarget
        } else {
            HLStyle::NoHighlight
        },
        InputMode::SelectMod { zone } => if hover_highlight(s.hover, id) is Hover {
            if mod_target || zone.id == id {
                HLStyle::HoverModTarget
            } else {
                HLStyle::NoHighlight
            }
        } else {
            if mod_target || zone.id == id {
                HLStyle::ModTarget
            } else {
                HLStyle::NoHighlight
            }
        },
        _ => hover_highlight(s.hover, id),
    }
}

/// The help texts after new ones were defined: slot `i` below
/// `new.len()` holds `new[i]`, the others keep theirs.
pub open spec fn helps_after(
    old: Seq<Option<(Seq<char>, Seq<char>)>>,
    new: Seq<Option<(Seq<char>, Seq<char>)>>,
) -> Seq<Option<(Seq<char>, Seq<char>)>> {
    Seq::new(
        if new.len() > old.len() {
            new.len()
        } else {
            old.len()
        },
        |i: int|
            if i < new.len() {
                new[i]
            } else {
                old[i]
            },
    )
}

/// The view of one help text.
pub open spec fn help_view(h: Option<(String, String)>) -> Option<(Seq<char>, Seq<char>)> {
    match h {
        Some((n, t)) => Some((n@, t@)),
        None => None,
    }
}

/// The input state of the user interface.
pub struct UIInputState<Z> {
    mode: InputMode<Z>,
    hover: Option<Zone<Z>>,
    fine_drag_key_held: bool,
    help_id: Option<usize>,
    help_texts: Vec<Option<(String, String)>>,
    input: Vec<char>,
    needs_redraw: bool,
}

impl<Z> View for UIInputState<Z> {
    type V = UIInputView<Z>;

    closed spec fn view(&self) -> UIInputView<Z> {
        UIInputView {
            mode: self.mode,
            hover: self.hover,
            fine_key_held: self.fine_drag_key_held,
            help_id: self.help_id,
            helps: self.help_texts@.map_values(|h: Option<(String, String)>| help_view(h)),
            input: self.input@,
            needs_redraw: self.needs_redraw,
        }
    }
}

impl<Z: Copy> UIInputState<Z> {
    /// The idle state: nothing hovered, no help, a redraw pending.
    pub fn new() -> (st: Self)
        ensures
            st@.mode is Idle,
            st@.hover is None,
            !st@.fine_key_held,
            st@.help_id is None,
            st@.helps == Seq::<Option<(Seq<char>, Seq<char>)>>::empty(),
            st@.input == Seq::<char>::empty(),
            st@.needs_redraw,
    {
        let st = Self {
            mode: InputMode::Idle,
            hover: None,
            fine_drag_key_held: false,
            help_id: None,
            help_texts: Vec::new(),
            input: Vec::new(),
            needs_redraw: true,
        };
        assert(st@.helps =~= Seq::<Option<(Seq<char>, Seq<char>)>>::empty());
        st
    }

    /// The current mode.
    pub fn mode(&self) -> (r: InputMode<Z>)
        ensures
            r == self@.mode,
    {
        self.mode
    }

    /// The hovered zone.
    pub fn hover_zone(&self) -> (r: Option<Zone<Z>>)
        ensures
            r == self@.hover,
    {
        self.hover
    }

    /// The sub type of the hovered zone, or -1 when no zone is hovered.
    pub fn hover_zone_submode(&self) -> (r: i8)
        ensures
            r == (match self@.hover {
                Some(h) => h.subtype,
                None => -1i8,
            }),
    {
        match self.hover {
            Some(h) => h.subtype,
            None => -1,
        }
    }

    /// The value whose help text is shown, if any.
    pub fn help_id(&self) -> (r: Option<usize>)
        ensures
            r == self@.help_id,
    {
        self.help_id
    }

    /// The text entered so far in value entry.
    pub fn input_text(&self) -> (r: &Vec<char>)
        ensures
            r@ == self@.input,
    {
        &self.input
    }

    /// Whether the interface needs to be drawn again.
    pub fn needs_redraw(&self) -> (r: bool)
        ensures
            r == self@.needs_redraw,
    {
        self.needs_redraw
    }

    /// Asks for the interface to be drawn again.
    pub fn queue_redraw(&mut self)
        ensures
            final(self)@ == redraw(old(self)@),
    {
        self.needs_redraw = true;
    }

    /// Notes that the interface has just been drawn.
    pub fn frame_drawn(&mut self)
        ensures
            final(self)@ == (UIInputView { needs_redraw: false, ..old(self)@ }),
    {
        self.needs_redraw = false;
    }

    /// Defines the help texts of the values `0 .. helps.len()`.
    pub fn set_help_texts(&mut self, helps: Vec<Option<(String, String)>>)
        ensures
            final(self)@ == (UIInputView {
                helps: helps_after(
                    old(self)@.helps,
                    helps@.map_values(|h: Option<(String, String)>| help_view(h)),
                ),
                ..old(self)@
            }),
    {
        let ghost old_h = self.help_texts@;
        let ghost new_v = helps@.map_values(|h: Option<(String, String)>| help_view(h));
        let n = helps.len();
        let mut rest = helps;
        let mut taken: Vec<Option<(String, String)>> = Vec::new();
        // Take the new texts out of `rest` front to back.
        let mut k: usize = 0;
        while k < n
            invariant
                k <= n,
                n == new_v.len(),
                rest@.len() == n - k,
                forall|j: int| 0 <= j < rest@.len() ==> help_view(rest@[j]) == new_v[j],
                taken@.len() == k,
                forall|j: int| 0 <= j < k ==> help_view(taken@[j]) == new_v[n - 1 - j],
            decreases n - k,
        {
            let h = rest.pop().unwrap();
            taken.push(h);
            k = k + 1;
        }
        // `taken` holds the new texts back to front.
        let mut i: usize = 0;
        while i < n
            invariant
                i <= n,
                n == new_v.len(),
                taken@.len() == n - i,
                forall|j: int| 0 <= j < taken@.len() ==> help_view(taken@[j]) == new_v[n - 1 - j],
                self.help_texts@.len() == (if i > old_h.len() {
                    i as int
                } else {
                    old_h.len() as int
                }),
                forall|j: int|
                    0 <= j < self.help_texts@.len() ==> help_view(#[trigger] self.help_texts@[j])
                        == (if j < i {
                        new_v[j]
                    } else {
                        help_view(old_h[j])
                    }),
                self.mode == old(self).mode,
                self.hover == old(self).hover,
                self.fine_drag_key_held == old(self).fine_drag_key_held,
                self.help_id == old(self).help_id,
                self.input@ == old(self).input@,
                self.needs_redraw == old(self).needs_redraw,
                old_h == old(self).help_texts@,
            decreases n - i,
        {
            let h = taken.pop().unwrap();
            if i >= self.help_texts.len() {
                self.help_texts.push(h);
            } else {
                self.help_texts.set(i, h);
            }
            i = i + 1;
        }
        assert(self@.helps =~= helps_after(old_h.map_values(|h: Option<(String, String)>| help_view(h)), new_v));
    }

    /// The help text (name and text) of value `id`, if it has one.
    pub fn element_help(&self, id: usize) -> (r: Option<(&String, &String)>)
        ensures
            has_help(self@.helps, id) <==> r is Some,
            r matches Some((n, t)) ==> self@.helps[id as int] == Some((n@, t@)),
    {
        if id >= self.help_texts.len() {
            return None;
        }
        match &self.help_texts[id] {
            Some((n, t)) => Some((n, t)),
            None => None,
        }
    }

    /// The highlight of element `id` by the hover zone alone.
    pub fn hover_highlight_for_id(&self, id: usize) -> (r: HLStyle)
        ensures
            r == hover_highlight(self@.hover, id),
    {
        match self.hover {
            Some(h) => if h.id == id {
                HLStyle::Hover(h.subtype)
            } else {
                HLStyle::NoHighlight
            },
            None => HLStyle::NoHighlight,
        }
    }

    /// The highlight that element `id` is drawn with; `mod_target` tells
    /// whether `id` is a modulation target of the element being modulated.
    pub fn element_highlight(&self, id: usize, mod_target: bool) -> (r: HLStyle)
        ensures
            r == element_highlight_spec(self@, id, mod_target),
    {
        let hover_hl = self.hover_highlight_for_id(id);
        let hovered = match hover_hl {
            HLStyle::Hover(_) => true,
            _ => false,
        };
        match self.mode {
            InputMode::GetHelp => {
                if hovered {
                    HLStyle::HoverModTarget
                } else if self.element_help(id).is_some() {
                    HLStyle::ModTarget
                } else {
                    HLStyle::NoHighlight
                }
            },
            InputMode::SelectMod { zone } => {
                if mod_target || zone.id == id {
                    if hovered {
                        HLStyle::HoverModTarget
                    } else {
                        HLStyle::ModTarget
                    }
                } else {
                    HLStyle::NoHighlight
                }
            },
            _ => hover_hl,
        }
    }

    /// The entered text after typing `c` (a comma is typed as a period).
    pub fn input_candidate(&self, c: &str) -> (r: Vec<char>)
        ensures
            r@ == typed(self@.input, c@),
    {
        let cc = str_chars(c);
        let mut r: Vec<char> = Vec::new();
        let mut i: usize = 0;
        while i < self.input.len()
            invariant
                i <= self.input.len(),
                r@ == self.input@.take(i as int),
            decreases self.input.len() - i,
        {
            r.push(self.input[i]);
            i = i + 1;
            assert(r@ =~= self.input@.take(i as int));
        }
        assert(self.input@.take(self.input.len() as int) =~= self.input@);
        if cc.len() == 1 && cc[0] == ',' {
            assert(c@ =~= seq![',']);
            r.push('.');
        } else {
            let ghost before = r@;
            let mut k: usize = 0;
            while k < cc.len()
                invariant
                    k <= cc.len(),
                    r@ == before + cc@.take(k as int),
                decreases cc.len() - k,
            {
                r.push(cc[k]);
                k = k + 1;
                assert(r@ =~= before + cc@.take(k as int));
            }
            assert(cc@.take(cc.len() as int) =~= cc@);
            assert(c@ != seq![',']);
        }
        r
    }

    /// Handles one input event: updates the state and returns what the
    /// drawing side is to do (see [`ui_step`]).
    pub fn handle_ui_event(&mut self, ev: UIInputEvent<Z>) -> (r: UIAction<Z>)
        ensures
            (final(self)@, r) == ui_step(old(self)@, ev),
    {
        match ev {
            UIInputEvent::MousePosition(h) => {
                let r = match self.mode {
                    InputMode::ValueDrag { zone, .. } => UIAction::DragMoved { id: zone.id },
                    _ => {
                        self.hover = h;
                        UIAction::Nothing
                    },
                };
                self.needs_redraw = true;
                r
            },
            UIInputEvent::MouseButtonPressed(btn) => self.button_pressed(btn),
            UIInputEvent::MouseButtonReleased { btn, mod_target } => self.button_released(
                btn,
                mod_target,
            ),
            UIInputEvent::KeyPressed { key, accepted } => self.key_pressed(key, accepted),
            UIInputEvent::KeyReleased(key) => self.key_released(key),
            UIInputEvent::WindowClose => UIAction::WindowClosed,
        }
    }

    fn press_on_subtype(&mut self) -> (r: UIAction<Z>)
        requires
            old(self)@.mode is Idle,
        ensures
            (final(self)@, r) == step_press_subtype(old(self)@),
    {
        match self.hover {
            Some(hz) => {
                if hz.subtype == AZ_COARSE_DRAG || hz.subtype == AZ_FINE_DRAG {
                    self.mode = InputMode::ValueDrag { zone: hz, fine_key: self.fine_drag_key_held };
                    self.needs_redraw = true;
                    UIAction::DragStarted { id: hz.id }
                } else if hz.subtype == AZ_TOGGLE {
                    self.mode = InputMode::ToggleBtn { zone: hz };
                    UIAction::Nothing
                } else if hz.subtype == AZ_SET_VALUE {
                    self.mode = InputMode::SetValue { zone: hz };
                    UIAction::Nothing
                } else {
                    UIAction::Nothing
                }
            },
            None => UIAction::Nothing,
        }
    }

    fn button_pressed(&mut self, btn: MouseButton) -> (r: UIAction<Z>)
        ensures
            (final(self)@, r) == step_pressed(old(self)@, btn),
    {
        match self.mode {
            InputMode::Idle => {},
            InputMode::InputValue { .. } => {
                if btn == MouseButton::Right {
                    self.mode = InputMode::Idle;
                    self.needs_redraw = true;
                }
                return UIAction::Nothing;
            },
            _ => {
                return UIAction::Nothing;
            },
        }
        if let Some(hz) = self.hover {
            match btn {
                MouseButton::Middle => {
                    self.mode = InputMode::SetDefault { zone: hz };
                    self.needs_redraw = true;
                    return UIAction::Nothing;
                },
                MouseButton::Right => {
                    if hz.subtype == AZ_COARSE_DRAG || hz.subtype == AZ_FINE_DRAG {
                        self.mode = InputMode::InputValue { zone: hz };
                        self.input = Vec::new();
                        self.needs_redraw = true;
                        return UIAction::StartInput { zone: hz };
                    }
                },
                _ => {},
            }
        }
        self.press_on_subtype()
    }

    fn button_released(&mut self, btn: MouseButton, mod_target: bool) -> (r: UIAction<Z>)
        ensures
            (final(self)@, r) == step_released(old(self)@, btn, mod_target),
    {
        let action = match self.mode {
            InputMode::Idle => {
                if let Some(hz) = self.hover {
                    if hz.subtype == AZ_MOD_SELECT {
                        self.mode = InputMode::SelectMod { zone: hz };
                        self.needs_redraw = true;
                        return UIAction::Nothing;
                    }
                }
                UIAction::Nothing
            },
            InputMode::ValueDrag { zone, .. } => {
                self.needs_redraw = true;
                UIAction::DragStopped { id: zone.id }
            },
            InputMode::SetDefault { zone } => {
                self.needs_redraw = true;
                if self.hovers(zone.id) {
                    UIAction::SetDefault { id: zone.id }
                } else {
                    UIAction::Nothing
                }
            },
            InputMode::ToggleBtn { zone } => {
                self.needs_redraw = true;
                if self.hovers(zone.id) {
                    UIAction::Toggle { id: zone.id, btn }
                } else {
                    UIAction::Nothing
                }
            },
            InputMode::SetValue { zone } => {
                if self.hovers(zone.id) {
                    self.needs_redraw = true;
                    UIAction::SetZoneValue { zone }
                } else {
                    UIAction::Nothing
                }
            },
            InputMode::GetHelp => {
                if let Some(h) = self.hover {
                    if self.element_help(h.id).is_some() {
                        self.help_id = Some(h.id);
                        self.needs_redraw = true;
                    }
                }
                UIAction::Nothing
            },
            InputMode::SelectMod { zone } => {
                match self.hover {
                    Some(h) => {
                        if h.id == zone.id {
                            self.needs_redraw = true;
                            UIAction::ModTargetCleared { id: zone.id }
                        } else if mod_target {
                            self.needs_redraw = true;
                            UIAction::ModTargetSet { id: zone.id, target: h.id }
                        } else {
                            return UIAction::Nothing;
                        }
                    },
                    None => {
                        return UIAction::Nothing;
                    },
                }
            },
            InputMode::InputValue { .. } => {
                return UIAction::Nothing;
            },
        };
        self.mode = InputMode::Idle;
        action
    }

    fn hovers(&self, id: usize) -> (r: bool)
        ensures
            r == hovers_id(self@.hover, id),
    {
        match self.hover {
            Some(h) => h.id == id,
            None => false,
        }
    }

    fn key_pressed(&mut self, key: UIKey, accepted: bool) -> (r: UIAction<Z>)
        ensures
            (final(self)@, r) == step_key_pressed(old(self)@, key, accepted),
    {
        match key {
            UIKey::Shift => {
                self.fine_drag_key_held = true;
                if let InputMode::ValueDrag { zone, .. } = self.mode {
                    self.mode = InputMode::ValueDrag { zone, fine_key: true };
                }
                UIAction::Nothing
            },
            UIKey::Enter => {
                self.needs_redraw = true;
                match self.mode {
                    InputMode::InputValue { zone } => {
                        if accepted {
                            self.mode = InputMode::Idle;
                            UIAction::CommitInput { id: zone.id }
                        } else {
                            UIAction::Nothing
                        }
                    },
                    _ => UIAction::Nothing,
                }
            },
            UIKey::Backspace => {
                let entering = match self.mode {
                    InputMode::InputValue { .. } => true,
                    _ => false,
                };
                if entering && self.input.len() > 0 {
                    self.input.pop();
                }
                self.needs_redraw = true;
                UIAction::Nothing
            },
            UIKey::Character(c) => {
                let entering = match self.mode {
                    InputMode::InputValue { .. } => true,
                    _ => false,
                };
                if entering && accepted {
                    self.input = self.input_candidate(c.as_str());
                }
                self.needs_redraw = true;
                UIAction::Nothing
            },
            _ => UIAction::Nothing,
        }
    }

    fn key_released(&mut self, key: UIKey) -> (r: UIAction<Z>)
        ensures
            (final(self)@, r) == step_key_released(old(self)@, key),
    {
        match key {
            UIKey::Shift => {
                self.fine_drag_key_held = false;
            },
            UIKey::F1 => {
                let in_help = match self.mode {
                    InputMode::GetHelp => true,
                    _ => false,
                };
                if self.help_id.is_some() || in_help {
                    self.mode = InputMode::Idle;
                    self.help_id = None;
                } else {
                    self.mode = InputMode::GetHelp;
                }
                self.needs_redraw = true;
            },
            UIKey::Escape => {
                self.mode = InputMode::Idle;
                self.help_id = None;
                self.needs_redraw = true;
            },
            _ => {},
        }
        UIAction::Nothing
    }
}

/// Escape always leaves the current mode and any help shown.
pub proof fn lemma_escape_resets<Z>(s: UIInputView<Z>)
    ensures
        ui_step(s, UIInputEvent::KeyReleased(UIKey::Escape)).0.mode is Idle,
        ui_step(s, UIInputEvent::KeyReleased(UIKey::Escape)).0.help_id is None,
        ui_step(s, UIInputEvent::KeyReleased(UIKey::Escape)).1 is Nothing,
{
}

/// F1 enters help mode from the idle mode, and F1 again leaves it; nothing
/// else of the state changes on the way, but for the redraw flag.
pub proof fn lemma_help_toggle<Z>(s: UIInputView<Z>)
    requires
        s.mode is Idle,
        s.help_id is None,
    ensures
        ui_step(s, UIInputEvent::KeyReleased(UIKey::F1)).0.mode is GetHelp,
        ui_step(ui_step(s, UIInputEvent::KeyReleased(UIKey::F1)).0, UIInputEvent::KeyReleased(UIKey::F1)).0
            == redraw(s),
{
}

/// While a value is being entered, mouse events other than a right button
/// press do not leave value entry, and none of them changes the text.
pub proof fn lemma_value_entry_keeps_mode<Z>(s: UIInputView<Z>, ev: UIInputEvent<Z>)
    requires
        s.mode is InputValue,
        ev is MousePosition || ev is MouseButtonPressed || ev is MouseButtonReleased,
        ev != UIInputEvent::<Z>::MouseButtonPressed(MouseButton::Right),
    ensures
        ui_step(s, ev).0.mode == s.mode,
        ui_step(s, ev).0.input == s.input,
        ui_step(s, ev).1 is Nothing,
{
}

/// A right click leaves value entry: the press returns to the idle mode
/// without storing the text (no value changes), and the release that
/// follows on a drag zone changes nothing either. So a right click enters
/// value entry on a drag zone and the next right click there leaves it.
pub proof fn lemma_right_click_leaves_value_entry<Z>(s: UIInputView<Z>, hz: Zone<Z>)
    requires
        s.mode is InputValue,
        s.hover == Some(hz),
        hz.subtype == AZ_COARSE_DRAG || hz.subtype == AZ_FINE_DRAG,
    ensures
        ({
            let (p, a) = ui_step(s, UIInputEvent::MouseButtonPressed(MouseButton::Right));
            let (q, b) = ui_step(
                p,
                UIInputEvent::MouseButtonReleased { btn: MouseButton::Right, mod_target: false },
            );
            &&& p.mode is Idle
            &&& a is Nothing
            &&& q.mode is Idle
            &&& b is Nothing
        }),
        ({
            let (d, _) = ui_step(
                UIInputView { mode: InputMode::Idle, ..s },
                UIInputEvent::MouseButtonPressed(MouseButton::Right),
            );
            let (e, _) = ui_step(
                d,
                UIInputEvent::MouseButtonReleased { btn: MouseButton::Right, mod_target: false },
            );
            &&& d.mode == InputMode::InputValue { zone: hz }
            &&& e.mode == d.mode
        }),
{
}

/// Shift pressed while dragging turns the drag to fine dragging, and
/// releasing Shift does not turn it back.
pub proof fn lemma_shift_makes_drag_fine<Z>(s: UIInputView<Z>, zone: Zone<Z>, fine_key: bool)
    requires
        s.mode == (InputMode::ValueDrag { zone, fine_key }),
    ensures
        ({
            let (d, a) = ui_step(s, UIInputEvent::KeyPressed { key: UIKey::Shift, accepted: false });
            let (e, b) = ui_step(d, UIInputEvent::KeyReleased(UIKey::Shift));
            &&& d.mode == InputMode::ValueDrag { zone, fine_key: true }
            &&& d.fine_key_held
            &&& a is Nothing
            &&& e.mode == InputMode::ValueDrag { zone, fine_key: true }
            &&& !e.fine_key_held
            &&& b is Nothing
        }),
{
}

/// A left press on a drag zone starts a drag of its value; while dragging,
/// mouse moves report moves of that value and keep the drag; the release
/// ends the drag of that value and returns to the idle mode.
pub proof fn lemma_drag_cycle<Z>(s: UIInputView<Z>, hz: Zone<Z>, h: Option<Zone<Z>>, btn: MouseButton)
    requires
        s.mode is Idle,
        s.hover == Some(hz),
        hz.subtype == AZ_COARSE_DRAG || hz.subtype == AZ_FINE_DRAG,
    ensures
        ({
            let (d, a) = ui_step(s, UIInputEvent::MouseButtonPressed(MouseButton::Left));
            &&& a == UIAction::<Z>::DragStarted { id: hz.id }
            &&& d.mode == InputMode::ValueDrag { zone: hz, fine_key: s.fine_key_held }
            &&& ui_step(d, UIInputEvent::MousePosition(h)).0.mode == d.mode
            &&& ui_step(d, UIInputEvent::MousePosition(h)).1 == UIAction::<Z>::DragMoved { id: hz.id }
            &&& ui_step(d, UIInputEvent::MouseButtonReleased { btn, mod_target: false }).1
                == UIAction::<Z>::DragStopped { id: hz.id }
            &&& ui_step(d, UIInputEvent::MouseButtonReleased { btn, mod_target: false }).0.mode is Idle
        }),
{
}

/// A middle button click on an element sets its value to the default: the
/// press on the hovered zone and the release while still hovering it
/// reset that value and return to the idle mode.
pub proof fn lemma_middle_click_sets_default<Z>(s: UIInputView<Z>, hz: Zone<Z>, btn: MouseButton)
    requires
        s.mode is Idle,
        s.hover == Some(hz),
    ensures
        ({
            let d = ui_step(s, UIInputEvent::MouseButtonPressed(MouseButton::Middle)).0;
            &&& d.mode == InputMode::SetDefault { zone: hz }
            &&& ui_step(d, UIInputEvent::MouseButtonReleased { btn, mod_target: false }).1
                == UIAction::<Z>::SetDefault { id: hz.id }
            &&& ui_step(d, UIInputEvent::MouseButtonReleased { btn, mod_target: false }).0.mode is Idle
        }),
{
}

/// A right button press on a drag zone enters value input mode with an
/// empty text; Enter with an accepted text stores it for that value and
/// leaves value input mode, Enter with a text that is not accepted stays.
pub proof fn lemma_value_entry_commit<Z>(s: UIInputView<Z>, hz: Zone<Z>, accepted: bool)
    requires
        s.mode is Idle,
        s.hover == Some(hz),
        hz.subtype == AZ_COARSE_DRAG || hz.subtype == AZ_FINE_DRAG,
    ensures
        ({
            let (d, a) = ui_step(s, UIInputEvent::MouseButtonPressed(MouseButton::Right));
            let (e, b) = ui_step(d, UIInputEvent::KeyPressed { key: UIKey::Enter, accepted });
            &&& a == UIAction::<Z>::StartInput { zone: hz }
            &&& d.mode == InputMode::InputValue { zone: hz }
            &&& d.input == Seq::<char>::empty()
            &&& accepted ==> e.mode is Idle && b == UIAction::<Z>::CommitInput { id: hz.id }
            &&& !accepted ==> e.mode == d.mode && b is Nothing
        }),
{
}

/// A click on a toggle steps it with the button that was released: the
/// press with the left or right button on the toggle's zone selects it, and
/// the release over that zone asks to step the toggle of that value with
/// the released button (forward for left, back for right, to the default
/// for middle), and returns to the idle mode. A release elsewhere changes
/// nothing.
pub proof fn lemma_toggle_click<Z>(
    s: UIInputView<Z>,
    hz: Zone<Z>,
    pressed: MouseButton,
    btn: MouseButton,
    h: Zone<Z>,
)
    requires
        s.mode is Idle,
        s.hover == Some(hz),
        hz.subtype == AZ_TOGGLE,
        pressed != MouseButton::Middle,
    ensures
        ({
            let (d, a) = ui_step(s, UIInputEvent::MouseButtonPressed(pressed));
            let (e, b) = ui_step(d, UIInputEvent::MouseButtonReleased { btn, mod_target: false });
            let d2 = UIInputView { hover: Some(h), ..d };
            let (e2, b2) = ui_step(d2, UIInputEvent::MouseButtonReleased { btn, mod_target: false });
            &&& a is Nothing
            &&& b == UIAction::<Z>::Toggle { id: hz.id, btn }
            &&& e.mode is Idle
            &&& h.id != hz.id ==> b2 is Nothing && e2.mode is Idle
        }),
{
}

} // verus!
