use kickmess::ui::layout::{layout_cells, layout_fits};
use kickmess::ui::protocol::{UIInput, UIPos};

fn knob(id: usize, c: u8, r: u8) -> UIInput {
    UIInput::knob(id, String::new(), UIPos::center(c, r))
}

#[test]
fn cells_flow_left_to_right_and_down() {
    let rows = vec![
        vec![knob(0, 4, 6), knob(1, 4, 4), knob(2, 4, 6)],
        vec![knob(3, 6, 6), UIInput::none(UIPos::center(6, 3))],
    ];
    assert!(layout_fits(&rows));
    assert_eq!(
        layout_cells(&rows),
        vec![vec![(0, 0), (0, 4), (0, 8)], vec![(4, 0), (4, 6)]]
    );
}

#[test]
fn empty_row_pushes_next_row_to_255() {
    let rows = vec![vec![], vec![UIInput::none(UIPos::center(1, 0))]];
    assert!(layout_fits(&rows));
    assert_eq!(layout_cells(&rows), vec![vec![], vec![(255, 0)]]);
    let rows = vec![vec![], vec![UIInput::none(UIPos::center(1, 1))]];
    assert!(!layout_fits(&rows));
}

#[test]
fn too_wide_row_does_not_fit() {
    let rows = vec![vec![knob(0, 200, 1), knob(1, 56, 1)]];
    assert!(!layout_fits(&rows));
    let rows = vec![vec![knob(0, 200, 1), knob(1, 55, 1)]];
    assert!(layout_fits(&rows));
    assert_eq!(layout_cells(&rows), vec![vec![(0, 0), (0, 200)]]);
}
