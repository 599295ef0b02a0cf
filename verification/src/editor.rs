//! The declaration of the plugin user interface: the help text of each
//! value, the values switched between named states, the values that only
//! have an effect while a switch is on, and the containers with their
//! cells and grid offsets.
use crate::param_model::pid;
use crate::param_model::PARAM_COUNT;
use crate::ui::input::help_view;
use crate::ui::layout::{
    cell_positions, grid_fits, grid_layout, layout_cells, offsets_view, row_fits, row_next_offs,
};
use crate::ui::protocol::{input_position, UIBtnMode, UIInput, UILayout, UIPos};
use vstd::prelude::*;

verus! {

/// The help of value `i`: its name and text. The values up to the filter
/// switch have one; the others have none.
pub open spec fn gui_help(i: int) -> Option<(Seq<char>, Seq<char>)> {
    if i == 0 {
        Some(("Start Frequency"@, "This is the starting frequency of the frequency envelope."@))
    } else if i == 1 {
        Some(("End Frequency"@, "This is the ending frequency of the frequency envelope."@))
    } else if i == 2 {
        Some(("Length"@, "The lengths of the frequency and amplitude envelope in milliseconds."@))
    } else if i == 3 {
        Some(("Distortion start amount"@, "Distortion has it's own linear envelope.\nYou can have different start and ending amount of\nthe distortion envelope."@))
    } else if i == 4 {
        Some(("Distortion end amount"@, "Distortion has it's own linear envelope.\nYou can have different start and ending amount of\nthe distortion envelope."@))
    } else if i == 5 {
        Some(("Gain"@, "Additional gain applied to the output of the synthesizer."@))
    } else if i == 6 {
        Some(("Envelope Slope"@, "The slope of the amplitude envelope.\nYou can go from linear to exponential."@))
    } else if i == 7 {
        Some(("Frequency Envelope Slope"@, "The slope of the frequency envelope.\nYou can go from linear to exponential."@))
    } else if i == 8 {
        Some(("Noise/Tone Balance"@, "The balance between tone (0.0) and noise (1.0)."@))
    } else if i == 9 {
        Some(("Note pitch is Start frequency"@, "If you enable this, the frequency will start with the\npitch of the played MIDI note."@))
    } else if i == 10 {
        Some(("Note pitch is End frequency"@, "If you enable this, the frequency will end with the\npitch of the played MIDI note."@))
    } else if i == 11 {
        Some(("Env Release"@, "There is a second release envelope that affects the amplifier.\nIt is started when the MIDI note off event is received.\nThis parameter defines the length of that release."@))
    } else if i == 12 {
        Some(("Click Amount"@, "This value will cut the phase of the sine wave,\ncausing an audible extra 'click' at the start of the note."@))
    } else if i == 13 {
        Some(("Distortion"@, "If the distortion is enabled, the 'Start' and 'End' amounts will\ndefine the amount of distortion at the beginning and end of the\nenvelope."@))
    } else if i == 14 {
        Some(("Filter 1 Cutoff Frequency"@, ""@))
    } else if i == 15 {
        Some(("Filter 1 Resonance"@, ""@))
    } else if i == 16 {
        Some(("Filter 1 Type"@, "low pass:  0.0  - 0.33\nhigh pass: 0.33 - 0.66\nband pass: 0.66 - 1.0 \n"@))
    } else if i == 17 {
        Some(("Filter 1 Overdrive"@, ""@))
    } else if i == 18 {
        Some(("Filter 1 On/Off"@, ""@))
    } else {
        None
    }
}

/// The help of value `i`, if it has one (see [`gui_help`]).
pub fn help_text(i: usize) -> (r: Option<(&'static str, &'static str)>)
    ensures
        match r {
            Some((n, t)) => gui_help(i as int) == Some((n@, t@)),
            None => gui_help(i as int) is None,
        },
{
    match i {
        0 => Some(("Start Frequency", "This is the starting frequency of the frequency envelope.")),
        1 => Some(("End Frequency", "This is the ending frequency of the frequency envelope.")),
        2 => Some(("Length", "The lengths of the frequency and amplitude envelope in milliseconds.")),
        3 => Some(("Distortion start amount", "Distortion has it's own linear envelope.\nYou can have different start and ending amount of\nthe distortion envelope.")),
        4 => Some(("Distortion end amount", "Distortion has it's own linear envelope.\nYou can have different start and ending amount of\nthe distortion envelope.")),
        5 => Some(("Gain", "Additional gain applied to the output of the synthesizer.")),
        6 => Some(("Envelope Slope", "The slope of the amplitude envelope.\nYou can go from linear to exponential.")),
        7 => Some(("Frequency Envelope Slope", "The slope of the frequency envelope.\nYou can go from linear to exponential.")),
        8 => Some(("Noise/Tone Balance", "The balance between tone (0.0) and noise (1.0).")),
        9 => Some(("Note pitch is Start frequency", "If you enable this, the frequency will start with the\npitch of the played MIDI note.")),
        10 => Some(("Note pitch is End frequency", "If you enable this, the frequency will end with the\npitch of the played MIDI note.")),
        11 => Some(("Env Release", "There is a second release envelope that affects the amplifier.\nIt is started when the MIDI note off event is received.\nThis parameter defines the length of that release.")),
        12 => Some(("Click Amount", "This value will cut the phase of the sine wave,\ncausing an audible extra 'click' at the start of the note.")),
        13 => Some(("Distortion", "If the distortion is enabled, the 'Start' and 'End' amounts will\ndefine the amount of distortion at the beginning and end of the\nenvelope.")),
        14 => Some(("Filter 1 Cutoff Frequency", "")),
        15 => Some(("Filter 1 Resonance", "")),
        16 => Some(("Filter 1 Type", "low pass:  0.0  - 0.33\nhigh pass: 0.33 - 0.66\nband pass: 0.66 - 1.0 \n")),
        17 => Some(("Filter 1 Overdrive", "")),
        18 => Some(("Filter 1 On/Off", "")),
        _ => None,
    }
}

/// A centered position.
pub open spec fn centered(c: u8, r: u8) -> UIPos {
    UIPos { col_size: c, row_size: r, align: 0 }
}

/// A left aligned position.
pub open spec fn left_aligned(c: u8, r: u8) -> UIPos {
    UIPos { col_size: c, row_size: r, align: -1i8 }
}

/// The cell positions of the containers: the main oscillator with its
/// envelopes, click and filter, the mixer, and the distortion.
pub open spec fn gui_positions() -> Seq<Seq<Seq<UIPos>>> {
    seq![
        seq![
            seq![centered(4, 3), centered(3, 3), centered(2, 3), centered(3, 3)],
            seq![centered(4, 3), centered(3, 3), centered(2, 3), centered(3, 3)],
            seq![centered(2, 3), centered(2, 3), centered(4, 3), centered(4, 3)],
            seq![centered(2, 3), centered(3, 3), centered(2, 3), left_aligned(2, 3), centered(3, 3)],
        ],
        seq![seq![centered(6, 6), centered(6, 6)], seq![centered(6, 6)]],
        seq![seq![left_aligned(12, 4)], seq![centered(6, 8), centered(6, 8)]],
    ]
}

/// The cells of every container stay within row and column 255.
pub proof fn lemma_gui_positions_fit()
    ensures
        grid_fits(gui_positions()[0], 0),
        grid_fits(gui_positions()[1], 0),
        grid_fits(gui_positions()[2], 0),
{
    reveal_with_fuel(grid_fits, 5);
    reveal_with_fuel(row_fits, 6);
    reveal_with_fuel(row_next_offs, 6);
    assert(grid_fits(gui_positions()[0], 0));
    assert(grid_fits(gui_positions()[1], 0));
    assert(grid_fits(gui_positions()[2], 0));
}

/// The rows of a container.
pub open spec fn layout_rows(l: UILayout) -> Seq<Vec<UIInput>> {
    match l {
        UILayout::Container { rows, .. } => rows@,
    }
}

/// The title of a container.
pub open spec fn layout_label(l: UILayout) -> Seq<char> {
    match l {
        UILayout::Container { label, .. } => label@,
    }
}

/// The value that a cell is bound to, if any.
pub open spec fn input_id(i: UIInput) -> Option<usize> {
    match i {
        UIInput::Empty(_) => None,
        UIInput::KnobSmall(d) => Some(d.id),
        UIInput::Knob(d) => Some(d.id),
        UIInput::KnobHuge(d) => Some(d.id),
        UIInput::Button(d) => Some(d.id),
        UIInput::Graph(d) => Some(d.id),
    }
}

/// Whether every cell of `rows` that is bound to a value is bound to one
/// below `n`.
pub open spec fn ids_below(rows: Seq<Vec<UIInput>>, n: int) -> bool {
    forall|r: int, k: int|
        0 <= r < rows.len() && 0 <= k < rows[r]@.len() ==> (#[trigger] input_id(rows[r]@[k])
            matches Some(id) ==> id < n)
}

/// The kind of a cell: 0 empty, 1 small knob, 2 knob, 3 huge knob, 4 toggle
/// button, 5 modulation target button, 6 drag button, 7 graph.
pub open spec fn input_kind(i: UIInput) -> int {
    match i {
        UIInput::Empty(_) => 0,
        UIInput::KnobSmall(_) => 1,
        UIInput::Knob(_) => 2,
        UIInput::KnobHuge(_) => 3,
        UIInput::Button(d) => match d.mode {
            UIBtnMode::Toggle => 4,
            UIBtnMode::ModTarget => 5,
            UIBtnMode::ValueDrag => 6,
        },
        UIInput::Graph(_) => 7,
    }
}

/// The label of a cell; an empty cell has none.
pub open spec fn input_label(i: UIInput) -> Seq<char> {
    match i {
        UIInput::Empty(_) => Seq::empty(),
        UIInput::KnobSmall(d) => d.label@,
        UIInput::Knob(d) => d.label@,
        UIInput::KnobHuge(d) => d.label@,
        UIInput::Button(d) => d.label@,
        UIInput::Graph(d) => d.label@,
    }
}

/// Kind, label and value of each cell of `rows`.
pub open spec fn cell_entries(rows: Seq<Vec<UIInput>>) -> Seq<Seq<(int, Seq<char>, Option<usize>)>> {
    rows.map_values(
        |r: Vec<UIInput>| r@.map_values(|c: UIInput| (input_kind(c), input_label(c), input_id(c))),
    )
}

/// Kind, label and value of each cell of each container: every knob and
/// switch is bound to the parameter that its label names (the graphs show
/// value 0 and take no input of their own).
pub open spec fn gui_cells() -> Seq<Seq<Seq<(int, Seq<char>, Option<usize>)>>> {
    seq![
        seq![
            seq![
                (7int, "Amp Env"@, Some(0usize)),
                (2int, "Length (ms)"@, Some(pid::f_env_release)),
                (2int, "Amp Slope"@, Some(pid::env_slope)),
                (2int, "Rel (ms)"@, Some(pid::env_release)),
            ],
            seq![
                (7int, "Freq. Env"@, Some(0usize)),
                (2int, "Start Hz"@, Some(pid::freq_start)),
                (2int, "End Hz"@, Some(pid::freq_end)),
                (2int, "Freq Slope"@, Some(pid::freq_slope)),
            ],
            seq![
                (1int, "Click"@, Some(pid::phase_offs)),
                (7int, "Click"@, Some(0usize)),
                (4int, "Note>St. F"@, Some(pid::freq_note_start)),
                (4int, "Note>End F"@, Some(pid::freq_note_end)),
            ],
            seq![
                (4int, "Filter 1"@, Some(pid::f1_on)),
                (2int, "F1 Cut"@, Some(pid::f1_cutoff)),
                (2int, "F1 Res"@, Some(pid::f1_res)),
                (4int, "F1 Type"@, Some(pid::f1_type)),
                (2int, "F1 Drive"@, Some(pid::f1_drive)),
            ],
        ],
        seq![
            seq![
                (2int, "MOsc Gain"@, Some(pid::gain)),
                (2int, "Tone/Noise"@, Some(pid::noise)),
            ],
            seq![
                (2int, "Main Gain"@, Some(pid::main_gain)),
            ],
        ],
        seq![
            seq![
                (4int, "Distortion"@, Some(pid::dist_on)),
            ],
            seq![
                (2int, "Start Amt"@, Some(pid::dist_start)),
                (2int, "End Amt"@, Some(pid::dist_end)),
            ],
        ],
    ]
}

/// Whether the cell entry `e` is a control (a knob or a switch) of value `p`.
pub open spec fn is_control_of(e: (int, Seq<char>, Option<usize>), p: int) -> bool {
    1 <= e.0 <= 6 && e.2 == Some(p as usize)
}

/// Whether some cell of the interface is a control of value `p`.
pub open spec fn has_control(p: int) -> bool {
    exists|c: int, r: int, k: int|
        0 <= c < gui_cells().len() && 0 <= r < gui_cells()[c].len() && 0 <= k < gui_cells()[c][r].len()
            && is_control_of(#[trigger] gui_cells()[c][r][k], p)
}

/// Every parameter but the MIDI channel has a control in the interface.
pub proof fn lemma_every_parameter_has_a_control(p: int)
    requires
        0 <= p < PARAM_COUNT,
        p != pid::midi_chan,
    ensures
        has_control(p),
{
        if p == pid::f_env_release {
            assert(is_control_of(gui_cells()[0][0][1], p));
        } else if p == pid::env_slope {
            assert(is_control_of(gui_cells()[0][0][2], p));
        } else if p == pid::env_release {
            assert(is_control_of(gui_cells()[0][0][3], p));
        } else if p == pid::freq_start {
            assert(is_control_of(gui_cells()[0][1][1], p));
        } else if p == pid::freq_end {
            assert(is_control_of(gui_cells()[0][1][2], p));
        } else if p == pid::freq_slope {
            assert(is_control_of(gui_cells()[0][1][3], p));
        } else if p == pid::phase_offs {
            assert(is_control_of(gui_cells()[0][2][0], p));
        } else if p == pid::freq_note_start {
            assert(is_control_of(gui_cells()[0][2][2], p));
        } else if p == pid::freq_note_end {
            assert(is_control_of(gui_cells()[0][2][3], p));
        } else if p == pid::f1_on {
            assert(is_control_of(gui_cells()[0][3][0], p));
        } else if p == pid::f1_cutoff {
            assert(is_control_of(gui_cells()[0][3][1], p));
        } else if p == pid::f1_res {
            assert(is_control_of(gui_cells()[0][3][2], p));
        } else if p == pid::f1_type {
            assert(is_control_of(gui_cells()[0][3][3], p));
        } else if p == pid::f1_drive {
            assert(is_control_of(gui_cells()[0][3][4], p));
        } else if p == pid::gain {
            assert(is_control_of(gui_cells()[1][0][0], p));
        } else if p == pid::noise {
            assert(is_control_of(gui_cells()[1][0][1], p));
        } else if p == pid::main_gain {
            assert(is_control_of(gui_cells()[1][1][0], p));
        } else if p == pid::dist_on {
            assert(is_control_of(gui_cells()[2][0][0], p));
        } else if p == pid::dist_start {
            assert(is_control_of(gui_cells()[2][1][0], p));
        } else if p == pid::dist_end {
            assert(is_control_of(gui_cells()[2][1][1], p));
        }
}

/// The main oscillator container: amplitude and pitch envelopes, click,
/// note pitch switches and the filter.
fn main_oscillator() -> (l: UILayout)
    ensures
        layout_label(l) == "Main Oscillator"@,
        cell_positions(layout_rows(l)) == gui_positions()[0],
        cell_entries(layout_rows(l)) == gui_cells()[0],
        ids_below(layout_rows(l), PARAM_COUNT as int),
{
    let r0 = vec![
        UIInput::graph(0, "Amp Env".to_string(), UIPos::center(4, 3)),
        UIInput::knob(pid::f_env_release, "Length (ms)".to_string(), UIPos::center(3, 3)),
        UIInput::knob(pid::env_slope, "Amp Slope".to_string(), UIPos::center(2, 3)),
        UIInput::knob(pid::env_release, "Rel (ms)".to_string(), UIPos::center(3, 3)),
    ];
    let r1 = vec![
        UIInput::graph(0, "Freq. Env".to_string(), UIPos::center(4, 3)),
        UIInput::knob(pid::freq_start, "Start Hz".to_string(), UIPos::center(3, 3)),
        UIInput::knob(pid::freq_end, "End Hz".to_string(), UIPos::center(2, 3)),
        UIInput::knob(pid::freq_slope, "Freq Slope".to_string(), UIPos::center(3, 3)),
    ];
    let r2 = vec![
        UIInput::knob_small(pid::phase_offs, "Click".to_string(), UIPos::center(2, 3)),
        UIInput::graph(0, "Click".to_string(), UIPos::center(2, 3)),
        UIInput::btn_toggle(pid::freq_note_start, "Note>St. F".to_string(), UIPos::center(4, 3)),
        UIInput::btn_toggle(pid::freq_note_end, "Note>End F".to_string(), UIPos::center(4, 3)),
    ];
    let r3 = vec![
        UIInput::btn_toggle(pid::f1_on, "Filter 1".to_string(), UIPos::center(2, 3)),
        UIInput::knob(pid::f1_cutoff, "F1 Cut".to_string(), UIPos::center(3, 3)),
        UIInput::knob(pid::f1_res, "F1 Res".to_string(), UIPos::center(2, 3)),
        UIInput::btn_toggle(pid::f1_type, "F1 Type".to_string(), UIPos::left(2, 3)),
        UIInput::knob(pid::f1_drive, "F1 Drive".to_string(), UIPos::center(3, 3)),
    ];
    assert(r0@.map_values(|c: UIInput| input_position(c)) =~= gui_positions()[0][0]);
    assert(r1@.map_values(|c: UIInput| input_position(c)) =~= gui_positions()[0][1]);
    assert(r2@.map_values(|c: UIInput| input_position(c)) =~= gui_positions()[0][2]);
    assert(r3@.map_values(|c: UIInput| input_position(c)) =~= gui_positions()[0][3]);
    assert(r0@.map_values(|c: UIInput| (input_kind(c), input_label(c), input_id(c))) =~= gui_cells()[0][0]);
    assert(r1@.map_values(|c: UIInput| (input_kind(c), input_label(c), input_id(c))) =~= gui_cells()[0][1]);
    assert(r2@.map_values(|c: UIInput| (input_kind(c), input_label(c), input_id(c))) =~= gui_cells()[0][2]);
    assert(r3@.map_values(|c: UIInput| (input_kind(c), input_label(c), input_id(c))) =~= gui_cells()[0][3]);
    let rows = vec![r0, r1, r2, r3];
    let l = UILayout::Container {
        label: "Main Oscillator".to_string(),
        xv: 0,
        yv: 0,
        wv: 6,
        hv: 12,
        rows,
    };
    assert(cell_positions(layout_rows(l)) =~= gui_positions()[0]);
    assert(cell_entries(layout_rows(l)) =~= gui_cells()[0]);
    l
}

/// The mixer container: oscillator gain, tone/noise balance, main gain.
fn mixer() -> (l: UILayout)
    ensures
        layout_label(l) == "Mixer"@,
        cell_positions(layout_rows(l)) == gui_positions()[1],
        cell_entries(layout_rows(l)) == gui_cells()[1],
        ids_below(layout_rows(l), PARAM_COUNT as int),
{
    let r0 = vec![
        UIInput::knob(pid::gain, "MOsc Gain".to_string(), UIPos::center(6, 6)),
        UIInput::knob(pid::noise, "Tone/Noise".to_string(), UIPos::center(6, 6)),
    ];
    let r1 = vec![UIInput::knob(pid::main_gain, "Main Gain".to_string(), UIPos::center(6, 6))];
    assert(r0@.map_values(|c: UIInput| input_position(c)) =~= gui_positions()[1][0]);
    assert(r1@.map_values(|c: UIInput| input_position(c)) =~= gui_positions()[1][1]);
    assert(r0@.map_values(|c: UIInput| (input_kind(c), input_label(c), input_id(c))) =~= gui_cells()[1][0]);
    assert(r1@.map_values(|c: UIInput| (input_kind(c), input_label(c), input_id(c))) =~= gui_cells()[1][1]);
    let rows = vec![r0, r1];
    let l = UILayout::Container { label: "Mixer".to_string(), xv: 6, yv: 0, wv: 6, hv: 4, rows };
    assert(cell_positions(layout_rows(l)) =~= gui_positions()[1]);
    assert(cell_entries(layout_rows(l)) =~= gui_cells()[1]);
    l
}

/// The distortion container: its switch and its start and end amounts.
fn distortion() -> (l: UILayout)
    ensures
        layout_label(l) == "Distortion"@,
        cell_positions(layout_rows(l)) == gui_positions()[2],
        cell_entries(layout_rows(l)) == gui_cells()[2],
        ids_below(layout_rows(l), PARAM_COUNT as int),
{
    let r0 = vec![UIInput::btn_toggle(pid::dist_on, "Distortion".to_string(), UIPos::left(12, 4))];
    let r1 = vec![
        UIInput::knob(pid::dist_start, "Start Amt".to_string(), UIPos::center(6, 8)),
        UIInput::knob(pid::dist_end, "End Amt".to_string(), UIPos::center(6, 8)),
    ];
    assert(r0@.map_values(|c: UIInput| input_position(c)) =~= gui_positions()[2][0]);
    assert(r1@.map_values(|c: UIInput| input_position(c)) =~= gui_positions()[2][1]);
    assert(r0@.map_values(|c: UIInput| (input_kind(c), input_label(c), input_id(c))) =~= gui_cells()[2][0]);
    assert(r1@.map_values(|c: UIInput| (input_kind(c), input_label(c), input_id(c))) =~= gui_cells()[2][1]);
    let rows = vec![r0, r1];
    let l = UILayout::Container {
        label: "Distortion".to_string(),
        xv: 6,
        yv: 4,
        wv: 6,
        hv: 6,
        rows,
    };
    assert(cell_positions(layout_rows(l)) =~= gui_positions()[2]);
    assert(cell_entries(layout_rows(l)) =~= gui_cells()[2]);
    l
}

/// A help page of the interface.
pub const USAGE_TEXT: &'static str = r#"
About the knobs and adjustment areas:

    Coarse adjustment: Center of the knob (value label) dragging.
    Fine adjustment:   Label/Name of the knob dragging.

Mouse controls:

    Middle Mouse Button - Set Default value
    Right Mouse Button  - Enter value input mode
    Mouse Wheel Up/Down - Adjust knob value according to coarse/fine area

Keyboard controls:

    F1                  - Enter Help mode for elements.
                          The input elements (eg. Knobs) with extra
                          help text are highlighted in the UI.
    Enter               - Accept entered value in value input mode
    Escape              - Exit help or value input mode
    Shift + Drag        - fine adjustment
"#;

/// A help page of the interface.
pub const COPYING_TEXT: &'static str = r#"Kickmess - A Kick Drum Synthesizer Plugin
Copyright (c) 2020-2021 Weird Constructor <weirdconstructor@gmail.com>

The DSP code that is derived from the LMMS C++ code was originally
released under GNU General Public License Version 2 or any later.
The former authors were:

* Copyright (c) 2006-2014 Tobias Doerffel <tobydox/at/users.sourceforge.net>
* Copyright (c) 2014 grejppi <grejppi/at/gmail.com>

You may retrieve the source code along with a full copy of
the license at one of the following locations:

- <https://github.com/WeirdConstructor/Kickmess>
- <https://m8geil.de/repo/Kickmess>
"#;

/// A help page of the interface.
pub const FONTS_TEXT: &'static str = r#"The fonts used are:
DejaVuSerif.ttf and DejaVuSansMono.ttf under the license:

Fonts are (c) Bitstream. DejaVu changes are in public domain.
Glyphs imported from Arev fonts are (c) Tavmjong Bah
"#;

/// The values that are switched between named states, with the names.
pub open spec fn gui_toggles() -> Seq<(usize, Seq<Seq<char>>)> {
    seq![
        (pid::freq_note_start, seq!["Off"@, "On"@]),
        (pid::freq_note_end, seq!["Off"@, "On"@]),
        (pid::dist_on, seq!["Off"@, "On"@]),
        (pid::f1_on, seq!["Off"@, "On"@]),
        (pid::f1_type, seq!["LP"@, "HP"@, "BP"@]),
    ]
}

/// The toggles as ids and name texts.
pub open spec fn toggles_view(t: Seq<(usize, Vec<&'static str>)>) -> Seq<(usize, Seq<Seq<char>>)> {
    t.map_values(|e: (usize, Vec<&'static str>)| (e.0, e.1@.map_values(|n: &str| n@)))
}

/// `(value, switch)`: the value has an effect only while the switch is on;
/// the interface greys it out otherwise.
pub open spec fn gui_active_when() -> Seq<(usize, usize)> {
    seq![
        (pid::dist_start, pid::dist_on),
        (pid::dist_end, pid::dist_on),
        (pid::f1_cutoff, pid::f1_on),
        (pid::f1_res, pid::f1_on),
        (pid::f1_type, pid::f1_on),
        (pid::f1_drive, pid::f1_on),
    ]
}

/// The declaration of the interface.
pub struct GuiDefinition {
    /// The labels of the main tabs: the controls and the help pages.
    pub tabs: Vec<&'static str>,
    /// The help pages: title and text.
    pub pages: Vec<(&'static str, &'static str)>,
    /// Name and text of the help of each value, where it has one.
    pub help_texts: Vec<Option<(String, String)>>,
    /// The values that are switched between named states, and the names.
    pub toggles: Vec<(usize, Vec<&'static str>)>,
    /// `(value, switch)`: the value has an effect only while the switch is
    /// on.
    pub active_when: Vec<(usize, usize)>,
    /// The containers.
    pub layout: Vec<UILayout>,
    /// The grid offsets of the cells of each container.
    pub cell_offsets: Vec<Vec<Vec<(u8, u8)>>>,
}

/// Declares the interface for the first `param_count` values: their help
/// texts, the toggles, the switched values, the containers and the grid
/// offsets of their cells.
pub fn define_gui(param_count: usize) -> (g: GuiDefinition)
    requires
        param_count <= PARAM_COUNT + 2,
    ensures
        g.tabs@.map_values(|t: &str| t@) == seq!["Main"@, "Help"@],
        g.pages@.map_values(|p: (&str, &str)| (p.0@, p.1@)) == seq![
            ("Usage"@, USAGE_TEXT@),
            ("Copying"@, COPYING_TEXT@),
            ("Fonts"@, FONTS_TEXT@),
        ],
        g.help_texts@.len() == param_count,
        forall|i: int| 0 <= i < param_count ==> help_view(#[trigger] g.help_texts@[i]) == gui_help(i),
        toggles_view(g.toggles@) == gui_toggles(),
        g.active_when@ == gui_active_when(),
        g.layout@.len() == 3,
        g.cell_offsets@.len() == 3,
        layout_label(g.layout@[0]) == "Main Oscillator"@,
        layout_label(g.layout@[1]) == "Mixer"@,
        layout_label(g.layout@[2]) == "Distortion"@,
        forall|c: int|
            0 <= c < 3 ==> {
                &&& cell_positions(layout_rows(#[trigger] g.layout@[c])) == gui_positions()[c]
                &&& cell_entries(layout_rows(g.layout@[c])) == gui_cells()[c]
                &&& grid_fits(cell_positions(layout_rows(g.layout@[c])), 0)
                &&& offsets_view(g.cell_offsets@[c]@) == grid_layout(
                    cell_positions(layout_rows(g.layout@[c])),
                    0,
                )
                &&& ids_below(layout_rows(g.layout@[c]), PARAM_COUNT as int)
            },
{
    let mut help_texts: Vec<Option<(String, String)>> = Vec::new();
    let mut i: usize = 0;
    while i < param_count
        invariant
            i <= param_count,
            help_texts@.len() == i,
            forall|j: int| 0 <= j < i ==> help_view(#[trigger] help_texts@[j]) == gui_help(j),
        decreases param_count - i,
    {
        let h = match help_text(i) {
            Some((n, t)) => Some((n.to_string(), t.to_string())),
            None => None,
        };
        help_texts.push(h);
        i = i + 1;
    }

    let toggles = vec![
        (pid::freq_note_start, vec!["Off", "On"]),
        (pid::freq_note_end, vec!["Off", "On"]),
        (pid::dist_on, vec!["Off", "On"]),
        (pid::f1_on, vec!["Off", "On"]),
        (pid::f1_type, vec!["LP", "HP", "BP"]),
    ];
    assert(toggles_view(toggles@) =~= gui_toggles()) by {
        assert(toggles@[0].1@.map_values(|n: &str| n@) =~= seq!["Off"@, "On"@]);
        assert(toggles@[1].1@.map_values(|n: &str| n@) =~= seq!["Off"@, "On"@]);
        assert(toggles@[2].1@.map_values(|n: &str| n@) =~= seq!["Off"@, "On"@]);
        assert(toggles@[3].1@.map_values(|n: &str| n@) =~= seq!["Off"@, "On"@]);
        assert(toggles@[4].1@.map_values(|n: &str| n@) =~= seq!["LP"@, "HP"@, "BP"@]);
    }

    let active_when = vec![
        (pid::dist_start, pid::dist_on),
        (pid::dist_end, pid::dist_on),
        (pid::f1_cutoff, pid::f1_on),
        (pid::f1_res, pid::f1_on),
        (pid::f1_type, pid::f1_on),
        (pid::f1_drive, pid::f1_on),
    ];
    assert(active_when@ =~= gui_active_when());

    let tabs = vec!["Main", "Help"];
    assert(tabs@.map_values(|t: &str| t@) =~= seq!["Main"@, "Help"@]);
    let pages = vec![("Usage", USAGE_TEXT), ("Copying", COPYING_TEXT), ("Fonts", FONTS_TEXT)];
    assert(pages@.map_values(|p: (&str, &str)| (p.0@, p.1@)) =~= seq![
        ("Usage"@, USAGE_TEXT@),
        ("Copying"@, COPYING_TEXT@),
        ("Fonts"@, FONTS_TEXT@),
    ]);

    proof {
        lemma_gui_positions_fit();
    }
    let osc = main_oscillator();
    let mix = mixer();
    let dist = distortion();
    let osc_offsets = match &osc {
        UILayout::Container { rows, .. } => layout_cells(rows),
    };
    let mix_offsets = match &mix {
        UILayout::Container { rows, .. } => layout_cells(rows),
    };
    let dist_offsets = match &dist {
        UILayout::Container { rows, .. } => layout_cells(rows),
    };
    let layout = vec![osc, mix, dist];
    let cell_offsets = vec![osc_offsets, mix_offsets, dist_offsets];
    GuiDefinition { tabs, pages, help_texts, toggles, active_when, layout, cell_offsets }
}

/// Whether value `id` has an effect, where `switched_on[v]` tells whether
/// value `v` is switched on: it has none while one of its switches in
/// `active_when` is off. A switch outside `switched_on` counts as on.
pub open spec fn value_is_active(
    active_when: Seq<(usize, usize)>,
    id: usize,
    switched_on: Seq<bool>,
) -> bool {
    forall|j: int|
        0 <= j < active_when.len() && (#[trigger] active_when[j]).0 == id && active_when[j].1
            < switched_on.len() ==> switched_on[active_when[j].1 as int]
}

impl GuiDefinition {
    /// Whether value `id` is drawn active (see [`value_is_active`]); an
    /// inactive value is greyed out.
    pub fn is_active(&self, id: usize, switched_on: &[bool]) -> (r: bool)
        ensures
            r == value_is_active(self.active_when@, id, switched_on@),
            (forall|j: int| 0 <= j < self.active_when@.len() ==> self.active_when@[j].0 != id) ==> r,
            !r <==> exists|j: int|
                0 <= j < self.active_when@.len() && self.active_when@[j].0 == id
                    && self.active_when@[j].1 < switched_on@.len()
                    && !switched_on@[self.active_when@[j].1 as int],
    {
        let mut j: usize = 0;
        while j < self.active_when.len()
            invariant
                j <= self.active_when@.len(),
                forall|k: int|
                    0 <= k < j && (#[trigger] self.active_when@[k]).0 == id && self.active_when@[k].1
                        < switched_on@.len() ==> switched_on@[self.active_when@[k].1 as int],
            decreases self.active_when@.len() - j,
        {
            let (v, sw) = self.active_when[j];
            if v == id && sw < switched_on.len() && !switched_on[sw] {
                return false;
            }
            j = j + 1;
        }
        true
    }
}

/// A value without a switch is always active, whatever is switched on; a
/// value is inactive exactly when one of its own switches is off.
pub proof fn lemma_active_values(active_when: Seq<(usize, usize)>, id: usize, switched_on: Seq<bool>)
    ensures
        (forall|j: int| 0 <= j < active_when.len() ==> active_when[j].0 != id) ==> value_is_active(
            active_when,
            id,
            switched_on,
        ),
        !value_is_active(active_when, id, switched_on) <==> exists|j: int|
            0 <= j < active_when.len() && active_when[j].0 == id && active_when[j].1
                < switched_on.len() && !switched_on[active_when[j].1 as int],
{
}

/// In the interface the distortion and filter switches themselves are
/// always drawn active, and the values they switch are greyed out while
/// their switch is off.
pub proof fn lemma_gui_switches(switched_on: Seq<bool>)
    requires
        switched_on.len() == PARAM_COUNT,
    ensures
        value_is_active(gui_active_when(), pid::dist_on, switched_on),
        value_is_active(gui_active_when(), pid::f1_on, switched_on),
        !switched_on[pid::dist_on as int] ==> !value_is_active(gui_active_when(), pid::dist_start, switched_on)
            && !value_is_active(gui_active_when(), pid::dist_end, switched_on),
        !switched_on[pid::f1_on as int] ==> !value_is_active(gui_active_when(), pid::f1_cutoff, switched_on)
            && !value_is_active(gui_active_when(), pid::f1_res, switched_on)
            && !value_is_active(gui_active_when(), pid::f1_type, switched_on)
            && !value_is_active(gui_active_when(), pid::f1_drive, switched_on),
{
    let aw = gui_active_when();
    lemma_active_values(aw, pid::dist_on, switched_on);
    lemma_active_values(aw, pid::f1_on, switched_on);
    assert(aw[0].0 == pid::dist_start && aw[1].0 == pid::dist_end);
    assert(aw[2].0 == pid::f1_cutoff && aw[3].0 == pid::f1_res);
    assert(aw[4].0 == pid::f1_type && aw[5].0 == pid::f1_drive);
}

} // verus!
