use kickmess::proc::FrameCursor;
use kickmess::proc::{
    process_blocks, voice_for_event, MAX_BLOCKSIZE, ParamDefinition, ParamRMode, ParamSet, VoiceAction, VoiceEvent,
    VoiceManager,
};

fn bits(f: f32) -> u32 {
    f.to_bits()
}

#[test]
fn param_definition_builders() {
    let pd = ParamDefinition::from(1, bits(5.0), bits(3000.0), bits(150.0), 3, 1, "Start Freq.")
        .exp()
        .no_smooth();
    assert_eq!(pd.idx(), 1);
    assert_eq!(pd.name(), "Start Freq.");
    assert_eq!(f32::from_bits(pd.min_bits()), 5.0);
    assert_eq!(f32::from_bits(pd.max_bits()), 3000.0);
    assert_eq!(f32::from_bits(pd.def_bits()), 150.0);
    assert_eq!(pd.mode(), ParamRMode::Exp);
    assert!(!pd.is_smooth());
    assert_eq!((pd.width(), pd.prec()), (3, 1));
    let pd = pd.exp4().smooth();
    assert_eq!(pd.mode(), ParamRMode::Exp4);
    assert!(pd.is_smooth());
    assert_eq!(pd.lin().mode(), ParamRMode::Lin);
}

#[test]
fn param_definition_default() {
    let pd = ParamDefinition::new();
    assert_eq!(pd.idx(), 0);
    assert_eq!(pd.name(), "");
    assert_eq!((pd.min_bits(), pd.max_bits(), pd.def_bits()), (0, 0, 0));
    assert_eq!(pd.mode(), ParamRMode::Lin);
    assert!(!pd.is_smooth());
    assert_eq!((pd.width(), pd.prec()), (5, 2));
}

#[test]
fn param_set_add_grows_with_defaults() {
    let mut ps = ParamSet::new();
    assert_eq!(ps.param_count(), 0);
    assert!(ps.definition(0).is_none());
    ps.add(ParamDefinition::from(2, bits(5.0), bits(2000.0), bits(40.0), 3, 1, "End Freq."));
    assert_eq!(ps.param_count(), 3);
    assert_eq!(ps.definition(0).unwrap().name(), "");
    assert_eq!(ps.definition(1).unwrap().name(), "");
    assert!(!ps.is_smooth(0));
    assert_eq!(ps.definition(2).unwrap().name(), "End Freq.");
    assert!(ps.is_smooth(2));
    assert!(!ps.is_smooth(3));
    assert!(ps.definition(3).is_none());
}

#[test]
fn param_set_read_after_add() {
    let mut ps = ParamSet::new();
    ps.add(ParamDefinition::from(3, 0, 0, 0, 3, 1, "Length").smooth());
    ps.add(ParamDefinition::from(1, 0, 0, 0, 3, 1, "Start Freq.").no_smooth());
    ps.add(ParamDefinition::from(3, 0, 0, 0, 3, 1, "Length 2").no_smooth());
    assert_eq!(ps.param_count(), 4);
    assert_eq!(ps.definition(1).unwrap().name(), "Start Freq.");
    assert_eq!(ps.definition(3).unwrap().name(), "Length 2");
    assert_eq!(ps.definition(3).unwrap().idx(), 3);
    assert!(!ps.is_smooth(3));
}

#[test]
fn midi_note_on_and_off() {
    let mut vm = VoiceManager::new(16);
    assert!(vm.is_idle());
    vm.handle_midi(&[0x90, 60, 100], 7, 0);
    vm.handle_midi(&[0x80, 60, 0], 9, 0);
    assert_eq!(vm.next_event(), Some(VoiceEvent::End { note: 60, delta_frames: 9 }));
    assert_eq!(vm.next_event(), Some(VoiceEvent::Start { note: 60, vel: 100, delta_frames: 7 }));
    assert_eq!(vm.next_event(), None);
    assert!(vm.is_idle());
}

#[test]
fn midi_other_channel_and_commands_ignored() {
    let mut vm = VoiceManager::new(4);
    vm.handle_midi(&[0x91, 60, 100], 0, 0);
    vm.handle_midi(&[0xB0, 7, 100], 0, 0);
    vm.handle_midi(&[0xF8], 0, 0);
    assert!(vm.is_idle());
    vm.handle_midi(&[0x9F, 36, 1], 3, 15);
    assert_eq!(vm.next_event(), Some(VoiceEvent::Start { note: 36, vel: 1, delta_frames: 3 }));
    vm.handle_midi(&[0x8F, 36], 4, 15);
    assert_eq!(vm.next_event(), Some(VoiceEvent::End { note: 36, delta_frames: 4 }));
}

#[test]
fn voice_selection() {
    let start = VoiceEvent::Start { note: 40, vel: 90, delta_frames: 5 };
    assert_eq!(
        voice_for_event(&start, &[true, false, false], &[1, 2, 3]),
        VoiceAction::StartNote { voice: 1, note: 40, vel: 90, delta_frames: 5 }
    );
    assert_eq!(voice_for_event(&start, &[true, true], &[1, 2]), VoiceAction::Ignore);
    let end = VoiceEvent::End { note: 3, delta_frames: 6 };
    assert_eq!(
        voice_for_event(&end, &[true, true, true, true], &[1, 3, 2, 3]),
        VoiceAction::EndNote { voice: 1, delta_frames: 6 }
    );
    assert_eq!(voice_for_event(&end, &[true], &[7]), VoiceAction::Ignore);
    assert_eq!(voice_for_event(&end, &[], &[]), VoiceAction::Ignore);
}

#[test]
fn blocks_of_a_buffer() {
    assert_eq!(MAX_BLOCKSIZE, 64);
    assert_eq!(process_blocks(0), vec![(0, 0)]);
    assert_eq!(process_blocks(1), vec![(0, 1)]);
    assert_eq!(process_blocks(64), vec![(0, 64)]);
    assert_eq!(process_blocks(65), vec![(0, 64), (64, 1)]);
    assert_eq!(process_blocks(200), vec![(0, 64), (64, 64), (128, 64), (192, 8)]);
}

#[test]
fn blocks_cover_the_buffer() {
    for len in 1..300usize {
        let b = process_blocks(len);
        assert_eq!(b[0].0, 0);
        for w in b.windows(2) {
            assert_eq!(w[0].0 + w[0].1, w[1].0);
        }
        for (_, n) in &b {
            assert!(*n >= 1 && *n <= 64);
        }
        let last = b[b.len() - 1];
        assert_eq!(last.0 + last.1, len);
    }
}

fn names(ps: &ParamSet) -> Vec<(&'static str, bool)> {
    (0..ps.param_count())
        .map(|i| {
            let pd = ps.definition(i).unwrap();
            (pd.name(), pd.is_smooth())
        })
        .collect()
}

#[test]
fn param_set_adds_commute_and_repeat() {
    let a = ParamDefinition::from(4, 0, 0, 0, 3, 1, "A");
    let b = ParamDefinition::from(1, 0, 0, 0, 3, 1, "B").no_smooth();
    let mut ab = ParamSet::new();
    ab.add(a);
    ab.add(b);
    let mut ba = ParamSet::new();
    ba.add(b);
    ba.add(a);
    assert_eq!(names(&ab), names(&ba));
    let mut aa = ParamSet::new();
    aa.add(a);
    aa.add(a);
    let mut once = ParamSet::new();
    once.add(a);
    assert_eq!(names(&aa), names(&once));
}

#[test]
fn dispatch_newest_first_with_updated_voices() {
    let mut vm = VoiceManager::new(4);
    vm.handle_midi(&[0x90, 40, 100], 1, 0);
    vm.handle_midi(&[0x90, 41, 90], 2, 0);
    vm.handle_midi(&[0x80, 40, 0], 3, 0);
    let actions = vm.dispatch_events(vec![false, true, false], vec![0, 7, 0]);
    assert_eq!(
        actions,
        vec![
            VoiceAction::Ignore,
            VoiceAction::StartNote { voice: 0, note: 41, vel: 90, delta_frames: 2 },
            VoiceAction::StartNote { voice: 2, note: 40, vel: 100, delta_frames: 1 },
        ]
    );
    assert!(vm.is_idle());
    vm.handle_midi(&[0x90, 50, 1], 0, 0);
    vm.handle_midi(&[0x80, 50, 0], 5, 0);
    assert_eq!(
        vm.dispatch_events(vec![false], vec![0]),
        vec![VoiceAction::Ignore, VoiceAction::StartNote { voice: 0, note: 50, vel: 1, delta_frames: 0 }]
    );
}

#[test]
fn frame_cursor_bookkeeping() {
    let c = FrameCursor::init(2, 4);
    assert_eq!((c.last_frame_cnt, c.last_frame_idx), (2, 4));
    let c = c.advance(64, 66, 4);
    assert_eq!((c.last_frame_cnt, c.last_frame_idx), (0, 252));
    let c = c.advance(64, 256, 4).advance(64, 256, 4);
    assert_eq!(c.last_frame_cnt, 128);
    let c = FrameCursor::new();
    assert_eq!((c.last_frame_cnt, c.last_frame_idx), (0, 0));
}
