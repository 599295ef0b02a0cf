use kickmess::plug_ui::Element;
use kickmess::ui::painting::{HLStyle, AZ_COARSE_DRAG, AZ_FINE_DRAG, AZ_MOD_SELECT, AZ_TOGGLE};
use kickmess::ui::protocol::{UIBtnData, UIBtnMode, UIInput, UIKnobData, UIPos};
use kickmess::ui::{ElementType, MouseButton};

#[test]
fn uipos_alignments() {
    let c = UIPos::center(4, 12);
    assert_eq!((c.col_size, c.row_size, c.align), (4, 12, 0));
    let l = UIPos::left(3, 2);
    assert_eq!((l.col_size, l.row_size, l.align), (3, 2, -1));
    let r = UIPos::right(12, 6);
    assert_eq!((r.col_size, r.row_size, r.align), (12, 6, 1));
}

#[test]
fn input_constructors_and_positions() {
    let p = UIPos::center(6, 6);
    match UIInput::knob(5, String::from("Gain"), p) {
        UIInput::Knob(UIKnobData { id, label, pos }) => {
            assert_eq!(id, 5);
            assert_eq!(label, "Gain");
            assert_eq!(pos, p);
        }
        _ => panic!("not a knob"),
    }
    match UIInput::btn_toggle(13, String::from("Dist. On"), UIPos::left(12, 4)) {
        UIInput::Button(UIBtnData { id, label, mode, .. }) => {
            assert_eq!(id, 13);
            assert_eq!(label, "Dist. On");
            assert!(matches!(mode, UIBtnMode::Toggle));
        }
        _ => panic!("not a button"),
    }
    assert!(matches!(
        UIInput::btn_drag_value(1, String::new(), p),
        UIInput::Button(UIBtnData { mode: UIBtnMode::ValueDrag, .. })
    ));
    assert!(matches!(
        UIInput::btn_mod_target(1, String::new(), p),
        UIInput::Button(UIBtnData { mode: UIBtnMode::ModTarget, .. })
    ));
    let cells = vec![
        UIInput::none(UIPos::right(1, 2)),
        UIInput::knob_small(1, String::new(), UIPos::center(2, 3)),
        UIInput::knob_huge(2, String::new(), UIPos::center(4, 5)),
        UIInput::graph(3, String::from("Env"), UIPos::left(6, 7)),
    ];
    let sizes: Vec<(u8, u8, i8)> =
        cells.iter().map(|c| { let p = c.position(); (p.col_size, p.row_size, p.align) }).collect();
    assert_eq!(sizes, vec![(1, 2, 1), (2, 3, 0), (4, 5, 0), (6, 7, -1)]);
}

#[test]
fn plain_enums() {
    assert_eq!(HLStyle::Hover(1), HLStyle::Hover(1));
    assert_ne!(HLStyle::ModTarget, HLStyle::HoverModTarget);
    assert_ne!(HLStyle::NoHighlight, HLStyle::Hover(0));
    assert_eq!((AZ_COARSE_DRAG, AZ_FINE_DRAG, AZ_MOD_SELECT, AZ_TOGGLE), (0, 1, 2, 3));
    assert_ne!(ElementType::Knob, ElementType::KnobSmall);
    assert_ne!(MouseButton::Left, MouseButton::Right);
    assert_eq!(Element::Knob(1, 2), Element::Knob(1, 2));
    assert_ne!(Element::Knob(1, 2), Element::Toggle(1, 2));
}
