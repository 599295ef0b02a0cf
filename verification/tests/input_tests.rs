use kickmess::ui::input::{
    InputMode, UIAction, UIInputEvent, UIInputState, UIKey, Zone, IMAGINARY_MAX_ID,
};
use kickmess::ui::painting::{
    HLStyle, AZ_COARSE_DRAG, AZ_FINE_DRAG, AZ_MOD_SELECT, AZ_SET_VALUE, AZ_TOGGLE,
};
use kickmess::ui::MouseButton;

fn zone(id: usize, subtype: i8) -> Zone<u32> {
    Zone { id, subtype, data: 7 }
}

fn hover(st: &mut UIInputState<u32>, z: Option<Zone<u32>>) -> UIAction<u32> {
    st.handle_ui_event(UIInputEvent::MousePosition(z))
}

fn press(st: &mut UIInputState<u32>, btn: MouseButton) -> UIAction<u32> {
    st.handle_ui_event(UIInputEvent::MouseButtonPressed(btn))
}

fn release(st: &mut UIInputState<u32>, btn: MouseButton, mod_target: bool) -> UIAction<u32> {
    st.handle_ui_event(UIInputEvent::MouseButtonReleased { btn, mod_target })
}

fn key_down(st: &mut UIInputState<u32>, key: UIKey, accepted: bool) -> UIAction<u32> {
    st.handle_ui_event(UIInputEvent::KeyPressed { key, accepted })
}

fn key_up(st: &mut UIInputState<u32>, key: UIKey) -> UIAction<u32> {
    st.handle_ui_event(UIInputEvent::KeyReleased(key))
}

#[test]
fn new_state_is_idle() {
    let st: UIInputState<u32> = UIInputState::new();
    assert!(matches!(st.mode(), InputMode::Idle));
    assert!(st.hover_zone().is_none());
    assert_eq!(st.hover_zone_submode(), -1);
    assert_eq!(st.help_id(), None);
    assert!(st.input_text().is_empty());
    assert!(st.needs_redraw());
}

#[test]
fn mode_ids() {
    assert_eq!(AZ_SET_VALUE, 4);
    assert_eq!(InputMode::<u32>::Idle.id(), IMAGINARY_MAX_ID);
    assert_eq!(InputMode::<u32>::GetHelp.id(), IMAGINARY_MAX_ID);
    assert_eq!(InputMode::ValueDrag { zone: zone(3, 0), fine_key: false }.id(), 3);
    assert_eq!(InputMode::InputValue { zone: zone(12, 0) }.id(), 12);
}

#[test]
fn redraw_flag() {
    let mut st: UIInputState<u32> = UIInputState::new();
    st.frame_drawn();
    assert!(!st.needs_redraw());
    hover(&mut st, None);
    assert!(st.needs_redraw());
    st.frame_drawn();
    st.queue_redraw();
    assert!(st.needs_redraw());
}

#[test]
fn drag_start_move_stop() {
    let mut st: UIInputState<u32> = UIInputState::new();
    assert!(matches!(hover(&mut st, Some(zone(5, AZ_FINE_DRAG))), UIAction::Nothing));
    assert_eq!(st.hover_zone_submode(), AZ_FINE_DRAG);
    key_down(&mut st, UIKey::Shift, false);
    assert!(matches!(press(&mut st, MouseButton::Left), UIAction::DragStarted { id: 5 }));
    assert!(matches!(st.mode(), InputMode::ValueDrag { fine_key: true, .. }));
    assert_eq!(st.mode().id(), 5);
    assert!(matches!(hover(&mut st, Some(zone(9, AZ_TOGGLE))), UIAction::DragMoved { id: 5 }));
    assert_eq!(st.hover_zone().unwrap().id, 5);
    assert!(matches!(release(&mut st, MouseButton::Left, false), UIAction::DragStopped { id: 5 }));
    assert!(matches!(st.mode(), InputMode::Idle));
}

#[test]
fn escape_leaves_any_mode() {
    let mut st: UIInputState<u32> = UIInputState::new();
    hover(&mut st, Some(zone(1, AZ_COARSE_DRAG)));
    press(&mut st, MouseButton::Left);
    st.frame_drawn();
    assert!(matches!(key_up(&mut st, UIKey::Escape), UIAction::Nothing));
    assert!(matches!(st.mode(), InputMode::Idle));
    assert_eq!(st.help_id(), None);
    assert!(st.needs_redraw());
}

#[test]
fn help_mode_toggles_with_f1() {
    let mut st: UIInputState<u32> = UIInputState::new();
    st.set_help_texts(vec![None, Some((String::from("Freq"), String::from("The pitch")))]);
    key_up(&mut st, UIKey::F1);
    assert!(matches!(st.mode(), InputMode::GetHelp));
    assert_eq!(st.element_highlight(1, false), HLStyle::ModTarget);
    assert_eq!(st.element_highlight(0, false), HLStyle::NoHighlight);
    hover(&mut st, Some(zone(1, AZ_COARSE_DRAG)));
    assert_eq!(st.element_highlight(1, false), HLStyle::HoverModTarget);
    release(&mut st, MouseButton::Left, false);
    assert_eq!(st.help_id(), Some(1));
    assert!(matches!(st.mode(), InputMode::Idle));
    let (name, text) = st.element_help(1).unwrap();
    assert_eq!((name.as_str(), text.as_str()), ("Freq", "The pitch"));
    assert!(st.element_help(0).is_none());
    assert!(st.element_help(2).is_none());
    key_up(&mut st, UIKey::F1);
    assert_eq!(st.help_id(), None);
    assert!(matches!(st.mode(), InputMode::Idle));
}

#[test]
fn help_click_without_text_shows_nothing() {
    let mut st: UIInputState<u32> = UIInputState::new();
    key_up(&mut st, UIKey::F1);
    hover(&mut st, Some(zone(4, AZ_COARSE_DRAG)));
    release(&mut st, MouseButton::Left, false);
    assert_eq!(st.help_id(), None);
    assert!(matches!(st.mode(), InputMode::Idle));
}

#[test]
fn value_entry() {
    let mut st: UIInputState<u32> = UIInputState::new();
    hover(&mut st, Some(zone(2, AZ_COARSE_DRAG)));
    assert!(matches!(press(&mut st, MouseButton::Right), UIAction::StartInput { zone: Zone { id: 2, .. } }));
    assert!(matches!(st.mode(), InputMode::InputValue { .. }));
    assert_eq!(st.input_candidate("1"), vec!['1']);
    key_down(&mut st, UIKey::Character(String::from("1")), true);
    assert_eq!(st.input_candidate(","), vec!['1', '.']);
    key_down(&mut st, UIKey::Character(String::from(",")), true);
    key_down(&mut st, UIKey::Character(String::from("x")), false);
    key_down(&mut st, UIKey::Character(String::from("5")), true);
    assert_eq!(st.input_text(), &vec!['1', '.', '5']);
    key_down(&mut st, UIKey::Backspace, false);
    assert_eq!(st.input_text(), &vec!['1', '.']);
    // mouse events do not leave value entry
    hover(&mut st, Some(zone(8, AZ_TOGGLE)));
    press(&mut st, MouseButton::Left);
    release(&mut st, MouseButton::Left, false);
    assert!(matches!(st.mode(), InputMode::InputValue { .. }));
    assert!(matches!(key_down(&mut st, UIKey::Enter, false), UIAction::Nothing));
    assert!(matches!(st.mode(), InputMode::InputValue { .. }));
    assert!(matches!(key_down(&mut st, UIKey::Enter, true), UIAction::CommitInput { id: 2 }));
    assert!(matches!(st.mode(), InputMode::Idle));
}

#[test]
fn middle_click_sets_default() {
    let mut st: UIInputState<u32> = UIInputState::new();
    hover(&mut st, Some(zone(6, AZ_TOGGLE)));
    press(&mut st, MouseButton::Middle);
    assert!(matches!(st.mode(), InputMode::SetDefault { .. }));
    assert!(matches!(release(&mut st, MouseButton::Middle, false), UIAction::SetDefault { id: 6 }));
    press(&mut st, MouseButton::Middle);
    hover(&mut st, Some(zone(7, AZ_TOGGLE)));
    assert!(matches!(release(&mut st, MouseButton::Middle, false), UIAction::Nothing));
    assert!(matches!(st.mode(), InputMode::Idle));
}

#[test]
fn toggle_and_set_value_zones() {
    let mut st: UIInputState<u32> = UIInputState::new();
    hover(&mut st, Some(zone(10, AZ_TOGGLE)));
    press(&mut st, MouseButton::Right);
    assert!(matches!(
        release(&mut st, MouseButton::Right, false),
        UIAction::Toggle { id: 10, btn: MouseButton::Right }
    ));
    hover(&mut st, Some(zone(11, AZ_SET_VALUE)));
    press(&mut st, MouseButton::Left);
    assert!(matches!(st.mode(), InputMode::SetValue { .. }));
    assert!(matches!(
        release(&mut st, MouseButton::Left, false),
        UIAction::SetZoneValue { zone: Zone { id: 11, subtype: AZ_SET_VALUE, data: 7 } }
    ));
    assert!(matches!(st.mode(), InputMode::Idle));
}

#[test]
fn modulation_target_selection() {
    let mut st: UIInputState<u32> = UIInputState::new();
    hover(&mut st, Some(zone(3, AZ_MOD_SELECT)));
    press(&mut st, MouseButton::Left);
    release(&mut st, MouseButton::Left, false);
    assert!(matches!(st.mode(), InputMode::SelectMod { .. }));
    assert_eq!(st.element_highlight(3, false), HLStyle::HoverModTarget);
    assert_eq!(st.element_highlight(4, true), HLStyle::ModTarget);
    assert_eq!(st.element_highlight(5, false), HLStyle::NoHighlight);
    hover(&mut st, Some(zone(5, AZ_COARSE_DRAG)));
    assert!(matches!(release(&mut st, MouseButton::Left, false), UIAction::Nothing));
    assert!(matches!(st.mode(), InputMode::SelectMod { .. }));
    assert!(matches!(
        release(&mut st, MouseButton::Left, true),
        UIAction::ModTargetSet { id: 3, target: 5 }
    ));
    assert!(matches!(st.mode(), InputMode::Idle));
    hover(&mut st, Some(zone(3, AZ_MOD_SELECT)));
    release(&mut st, MouseButton::Left, false);
    assert!(matches!(release(&mut st, MouseButton::Left, false), UIAction::ModTargetCleared { id: 3 }));
}

#[test]
fn hover_highlight_and_close() {
    let mut st: UIInputState<u32> = UIInputState::new();
    hover(&mut st, Some(zone(2, AZ_FINE_DRAG)));
    assert_eq!(st.hover_highlight_for_id(2), HLStyle::Hover(AZ_FINE_DRAG));
    assert_eq!(st.hover_highlight_for_id(3), HLStyle::NoHighlight);
    assert_eq!(st.element_highlight(2, true), HLStyle::Hover(AZ_FINE_DRAG));
    assert!(matches!(st.handle_ui_event(UIInputEvent::WindowClose), UIAction::WindowClosed));
}

#[test]
fn help_texts_keep_later_slots() {
    let mut st: UIInputState<u32> = UIInputState::new();
    st.set_help_texts(vec![
        Some((String::from("a"), String::from("A"))),
        None,
        Some((String::from("c"), String::from("C"))),
    ]);
    st.set_help_texts(vec![None]);
    assert!(st.element_help(0).is_none());
    assert!(st.element_help(1).is_none());
    assert_eq!(st.element_help(2).unwrap().0, "c");
}

#[test]
fn right_click_leaves_value_entry() {
    let mut st: UIInputState<u32> = UIInputState::new();
    hover(&mut st, Some(zone(2, AZ_COARSE_DRAG)));
    assert!(matches!(press(&mut st, MouseButton::Right), UIAction::StartInput { .. }));
    assert!(matches!(release(&mut st, MouseButton::Right, false), UIAction::Nothing));
    assert!(matches!(st.mode(), InputMode::InputValue { .. }));
    key_down(&mut st, UIKey::Character(String::from("3")), true);
    assert!(matches!(press(&mut st, MouseButton::Right), UIAction::Nothing));
    assert!(matches!(st.mode(), InputMode::Idle));
    assert!(matches!(release(&mut st, MouseButton::Right, false), UIAction::Nothing));
    assert!(matches!(st.mode(), InputMode::Idle));
    // a new value entry starts with an empty text
    press(&mut st, MouseButton::Right);
    assert!(st.input_text().is_empty());
}

#[test]
fn shift_during_drag_makes_it_fine() {
    let mut st: UIInputState<u32> = UIInputState::new();
    hover(&mut st, Some(zone(5, AZ_COARSE_DRAG)));
    press(&mut st, MouseButton::Left);
    assert!(matches!(st.mode(), InputMode::ValueDrag { fine_key: false, .. }));
    key_down(&mut st, UIKey::Shift, false);
    assert!(matches!(st.mode(), InputMode::ValueDrag { fine_key: true, .. }));
    key_up(&mut st, UIKey::Shift);
    assert!(matches!(st.mode(), InputMode::ValueDrag { fine_key: true, .. }));
    assert!(matches!(release(&mut st, MouseButton::Left, false), UIAction::DragStopped { id: 5 }));
}
