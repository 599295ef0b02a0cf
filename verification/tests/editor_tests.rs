use kickmess::editor::{define_gui, help_text, USAGE_TEXT};
use kickmess::param_model::{pid, PARAM_COUNT};
use kickmess::ui::layout::{layout_cells, layout_fits};
use kickmess::ui::protocol::{UIInput, UILayout};

fn ids(l: &UILayout) -> Vec<usize> {
    let UILayout::Container { rows, .. } = l;
    rows.iter()
        .flat_map(|r| r.iter())
        .filter_map(|c| match c {
            UIInput::Empty(_) => None,
            UIInput::KnobSmall(d) | UIInput::Knob(d) | UIInput::KnobHuge(d) => Some(d.id),
            UIInput::Button(d) => Some(d.id),
            UIInput::Graph(d) => Some(d.id),
        })
        .collect()
}

#[test]
fn gui_help_texts() {
    let g = define_gui(PARAM_COUNT);
    assert_eq!(g.help_texts.len(), PARAM_COUNT);
    let (n, t) = g.help_texts[pid::freq_start].clone().unwrap();
    assert_eq!(n, "Start Frequency");
    assert_eq!(t, "This is the starting frequency of the frequency envelope.");
    assert_eq!(g.help_texts[14].clone().unwrap(), (String::from("Filter 1 Cutoff Frequency"), String::new()));
    assert!(g.help_texts[19].is_none());
    assert!(g.help_texts[20].is_none());
    assert_eq!(help_text(3).unwrap().1, "Distortion has it's own linear envelope.\nYou can have different start and ending amount of\nthe distortion envelope.");
    assert!(help_text(44).is_none());
    assert_eq!(define_gui(0).help_texts.len(), 0);
    assert_eq!(define_gui(PARAM_COUNT + 2).help_texts.len(), PARAM_COUNT + 2);
}

#[test]
fn gui_toggles_pages_and_switches() {
    let g = define_gui(PARAM_COUNT);
    assert_eq!(g.tabs, vec!["Main", "Help"]);
    assert_eq!(g.pages[0].0, "Usage");
    assert_eq!(g.pages[0].1, USAGE_TEXT);
    assert!(USAGE_TEXT.contains("Middle Mouse Button - Set Default value"));
    assert_eq!(g.toggles[4], (pid::f1_type, vec!["LP", "HP", "BP"]));
    assert_eq!(g.active_when[0], (pid::dist_start, pid::dist_on));
    let mut on = vec![false; PARAM_COUNT];
    assert!(!g.is_active(pid::dist_start, &on));
    assert!(!g.is_active(pid::f1_cutoff, &on));
    assert!(g.is_active(pid::gain, &on));
    on[pid::dist_on] = true;
    assert!(g.is_active(pid::dist_start, &on));
    assert!(!g.is_active(pid::f1_res, &on));
    assert!(g.is_active(pid::f1_res, &[]));
}

#[test]
fn gui_layout_fits_and_is_placed() {
    let g = define_gui(PARAM_COUNT);
    assert_eq!(g.layout.len(), 3);
    let labels: Vec<String> = g.layout.iter().map(|l| { let UILayout::Container { label, .. } = l; label.clone() }).collect();
    assert_eq!(labels, vec!["Main Oscillator", "Mixer", "Distortion"]);
    for (l, offs) in g.layout.iter().zip(g.cell_offsets.iter()) {
        let UILayout::Container { rows, .. } = l;
        assert!(layout_fits(rows));
        assert_eq!(&layout_cells(rows), offs);
        assert!(ids(l).iter().all(|id| *id < PARAM_COUNT));
    }
    assert_eq!(g.cell_offsets[0][3], vec![(9, 0), (9, 2), (9, 5), (9, 7), (9, 9)]);
    assert_eq!(g.cell_offsets[2], vec![vec![(0, 0)], vec![(4, 0), (4, 6)]]);
}
