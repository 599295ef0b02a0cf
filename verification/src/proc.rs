//! Parameter definitions, the parameter set of the synthesizer, and the
//! voice manager that turns MIDI messages into note events for the voices.
use vstd::prelude::*;

verus! {

/// How a normalized parameter value in `0..1` is mapped onto its range.
#[derive(Debug, Clone, Copy, PartialEq, Eq, Structural)]
pub enum ParamRMode {
    Lin,
    Exp,
    Exp4,
}

/// The abstract content of a [`ParamDefinition`]. The range bounds and the
/// default are the bit patterns of the `f32` values that the audio side
/// computes with.
pub struct ParamDefView {
    pub idx: usize,
    pub min_bits: u32,
    pub max_bits: u32,
    pub def_bits: u32,
    pub name: Seq<char>,
    pub mode: ParamRMode,
    pub smooth: bool,
    pub width: usize,
    pub prec: usize,
}

/// The definition of one synthesizer parameter: its index, range, default,
/// name, range mapping, whether it is smoothed, and the width and precision
/// of its text display.
#[derive(Debug, Clone, Copy)]
pub struct ParamDefinition(usize, u32, u32, u32, &'static str, ParamRMode, bool, usize, usize);

impl View for ParamDefinition {
    type V = ParamDefView;

    closed spec fn view(&self) -> ParamDefView {
        ParamDefView {
            idx: self.0,
            min_bits: self.1,
            max_bits: self.2,
            def_bits: self.3,
            name: self.4@,
            mode: self.5,
            smooth: self.6,
            width: self.7,
            prec: self.8,
        }
    }
}

/// The definition that fills the gaps of a parameter set.
pub open spec fn default_param_def() -> ParamDefView {
    ParamDefView {
        idx: 0,
        min_bits: 0,
        max_bits: 0,
        def_bits: 0,
        name: Seq::empty(),
        mode: ParamRMode::Lin,
        smooth: false,
        width: 5,
        prec: 2,
    }
}

impl ParamDefinition {
    /// The empty definition: index 0, all bounds zero, no name, linear,
    /// not smoothed, width 5 and precision 2.
    pub fn new() -> (pd: Self)
        ensures
            pd@ == default_param_def(),
    {
        let name = "";
        proof {
            reveal_strlit("");
            assert(name@ =~= Seq::<char>::empty());
        }
        Self(0, 0, 0, 0, name, ParamRMode::Lin, false, 5, 2)
    }

    /// A linear, smoothed definition of the parameter `idx` with the range
    /// `min..max` and the default `def` (each given as `f32` bits).
    pub fn from(
        idx: usize,
        min: u32,
        max: u32,
        def: u32,
        width: usize,
        prec: usize,
        desc: &'static str,
    ) -> (pd: Self)
        ensures
            pd@ == (ParamDefView {
                idx,
                min_bits: min,
                max_bits: max,
                def_bits: def,
                name: desc@,
                mode: ParamRMode::Lin,
                smooth: true,
                width,
                prec,
            }),
    {
        Self(idx, min, max, def, desc, ParamRMode::Lin, true, width, prec)
    }

    /// The same definition with a linear range mapping.
    pub fn lin(self) -> (pd: Self)
        ensures
            pd@ == (ParamDefView { mode: ParamRMode::Lin, ..self@ }),
    {
        let mut s = self;
        s.5 = ParamRMode::Lin;
        s
    }

    /// The same definition with an exponential range mapping.
    pub fn exp(self) -> (pd: Self)
        ensures
            pd@ == (ParamDefView { mode: ParamRMode::Exp, ..self@ }),
    {
        let mut s = self;
        s.5 = ParamRMode::Exp;
        s
    }

    /// The same definition with a fourth power range mapping.
    pub fn exp4(self) -> (pd: Self)
        ensures
            pd@ == (ParamDefView { mode: ParamRMode::Exp4, ..self@ }),
    {
        let mut s = self;
        s.5 = ParamRMode::Exp4;
        s
    }

    /// The same definition, smoothed between audio frames.
    pub fn smooth(self) -> (pd: Self)
        ensures
            pd@ == (ParamDefView { smooth: true, ..self@ }),
    {
        let mut s = self;
        s.6 = true;
        s
    }

    /// The same definition, not smoothed.
    pub fn no_smooth(self) -> (pd: Self)
        ensures
            pd@ == (ParamDefView { smooth: false, ..self@ }),
    {
        let mut s = self;
        s.6 = false;
        s
    }

    /// The parameter index.
    pub fn idx(&self) -> (r: usize)
        ensures
            r == self@.idx,
    {
        self.0
    }

    /// The parameter name.
    pub fn name(&self) -> (r: &'static str)
        ensures
            r@ == self@.name,
    {
        self.4
    }

    /// Bits of the lower range bound.
    pub fn min_bits(&self) -> (r: u32)
        ensures
            r == self@.min_bits,
    {
        self.1
    }

    /// Bits of the upper range bound.
    pub fn max_bits(&self) -> (r: u32)
        ensures
            r == self@.max_bits,
    {
        self.2
    }

    /// Bits of the default value.
    pub fn def_bits(&self) -> (r: u32)
        ensures
            r == self@.def_bits,
    {
        self.3
    }

    /// The range mapping.
    pub fn mode(&self) -> (r: ParamRMode)
        ensures
            r == self@.mode,
    {
        self.5
    }

    /// Whether the parameter is smoothed.
    pub fn is_smooth(&self) -> (r: bool)
        ensures
            r == self@.smooth,
    {
        self.6
    }

    /// Width of the text display.
    pub fn width(&self) -> (r: usize)
        ensures
            r == self@.width,
    {
        self.7
    }

    /// Precision of the text display.
    pub fn prec(&self) -> (r: usize)
        ensures
            r == self@.prec,
    {
        self.8
    }
}

/// The definitions after `pd` was added to `defs`: the sequence grows with
/// default definitions up to `pd.idx`, and `pd` takes the slot `pd.idx`.
pub open spec fn param_set_add(defs: Seq<ParamDefView>, pd: ParamDefView) -> Seq<ParamDefView> {
    let n: nat = if pd.idx < defs.len() { defs.len() } else { (pd.idx + 1) as nat };
    Seq::new(
        n,
        |i: int|
            if i == pd.idx {
                pd
            } else if i < defs.len() {
                defs[i]
            } else {
                default_param_def()
            },
    )
}

/// A set of parameter definitions, indexed by parameter index.
pub struct ParamSet {
    defines: Vec<ParamDefinition>,
}

impl View for ParamSet {
    type V = Seq<ParamDefView>;

    closed spec fn view(&self) -> Seq<ParamDefView> {
        self.defines@.map_values(|pd: ParamDefinition| pd@)
    }
}

impl ParamSet {
    /// An empty parameter set.
    pub fn new() -> (ps: Self)
        ensures
            ps@ == Seq::<ParamDefView>::empty(),
    {
        let ps = Self { defines: Vec::new() };
        assert(ps@ =~= Seq::<ParamDefView>::empty());
        ps
    }

    /// Stores `pd` at its own index, growing the set with default
    /// definitions where needed.
    pub fn add(&mut self, pd: ParamDefinition)
        requires
            pd@.idx < usize::MAX,
        ensures
            final(self)@ == param_set_add(old(self)@, pd@),
    {
        let idx = pd.idx();
        if idx >= self.defines.len() {
            while self.defines.len() < idx + 1
                invariant
                    idx < usize::MAX,
                    old(self).defines.len() <= self.defines.len() <= idx + 1,
                    forall|i: int|
                        0 <= i < old(self).defines.len() ==> self.defines@[i] == old(
                            self,
                        ).defines@[i],
                    forall|i: int|
                        old(self).defines.len() <= i < self.defines.len() ==> self.defines@[i]@
                            == default_param_def(),
                decreases idx + 1 - self.defines.len(),
            {
                self.defines.push(ParamDefinition::new());
            }
        }
        self.defines.set(idx, pd);
        assert(self@ =~= param_set_add(old(self)@, pd@));
    }

    /// The number of slots in the set.
    pub fn param_count(&self) -> (n: usize)
        ensures
            n == self@.len(),
    {
        self.defines.len()
    }

    /// The definition in slot `idx`, if the set has that slot.
    pub fn definition(&self, idx: usize) -> (r: Option<&ParamDefinition>)
        ensures
            idx < self@.len() ==> (r matches Some(pd) && pd@ == self@[idx as int]),
            idx >= self@.len() ==> r is None,
    {
        if idx >= self.defines.len() {
            return None;
        }
        Some(&self.defines[idx])
    }

    /// Whether the parameter in slot `idx` is smoothed; `false` for a slot
    /// the set does not have.
    pub fn is_smooth(&self, idx: usize) -> (r: bool)
        ensures
            r == (idx < self@.len() && self@[idx as int].smooth),
    {
        if let Some(pd) = self.definition(idx) {
            return pd.is_smooth();
        }
        false
    }
}

/// Reading back a definition gives what was added last at its index, and
/// adding a definition leaves every other slot as it was.
pub proof fn lemma_param_set_read_after_add(defs: Seq<ParamDefView>, pd: ParamDefView, j: int)
    requires
        0 <= j < defs.len(),
        j != pd.idx,
    ensures
        param_set_add(defs, pd)[pd.idx as int] == pd,
        param_set_add(defs, pd).len() > pd.idx,
        param_set_add(defs, pd)[j] == defs[j],
{
}

/// Adding two definitions for different indices gives the same set in either
/// order.
pub proof fn lemma_param_set_add_commutes(
    defs: Seq<ParamDefView>,
    a: ParamDefView,
    b: ParamDefView,
)
    requires
        a.idx != b.idx,
    ensures
        param_set_add(param_set_add(defs, a), b) == param_set_add(param_set_add(defs, b), a),
{
    assert(param_set_add(param_set_add(defs, a), b) =~= param_set_add(param_set_add(defs, b), a));
}

/// Adding the same definition twice is the same as adding it once.
pub proof fn lemma_param_set_add_idempotent(defs: Seq<ParamDefView>, pd: ParamDefView)
    ensures
        param_set_add(param_set_add(defs, pd), pd) == param_set_add(defs, pd),
{
    assert(param_set_add(param_set_add(defs, pd), pd) =~= param_set_add(defs, pd));
}

/// A note event for the voices, taken from a MIDI message.
#[derive(Debug, Clone, Copy, PartialEq, Eq, Structural)]
pub enum VoiceEvent {
    Start { note: u8, vel: u8, delta_frames: usize },
    End { note: u8, delta_frames: usize },
}

/// The note event that the MIDI message `data`, received `delta_frames`
/// into the current block, means for a plugin listening on `my_channel`:
/// a note on (status `0x9n`) or note off (status `0x8n`) on channel
/// `my_channel`; every other message means nothing.
pub open spec fn midi_event(data: Seq<u8>, delta_frames: usize, my_channel: u8) -> Option<
    VoiceEvent,
> {
    let cmd = data[0] / 16;
    let chan = data[0] % 16;
    if chan != my_channel {
        None
    } else if cmd == 9 {
        Some(VoiceEvent::Start { note: data[1], vel: data[2], delta_frames })
    } else if cmd == 8 {
        Some(VoiceEvent::End { note: data[1], delta_frames })
    } else {
        None
    }
}

/// The number of bytes that the MIDI message starting with `status` must
/// have for a plugin listening on `my_channel` to read it.
pub open spec fn midi_needed_len(status: u8, my_channel: u8) -> int {
    if status % 16 != my_channel {
        1
    } else if status / 16 == 9 {
        3
    } else if status / 16 == 8 {
        2
    } else {
        1
    }
}

/// The events that have been received and not yet handed to the voices.
/// Events leave the queue from its end: the last one received is handed on
/// first.
pub struct VoiceManager {
    events: Vec<VoiceEvent>,
}

impl View for VoiceManager {
    type V = Seq<VoiceEvent>;

    closed spec fn view(&self) -> Seq<VoiceEvent> {
        self.events@
    }
}

impl VoiceManager {
    /// A voice manager for `max_voices` voices, with no pending event. Room
    /// for ten events per voice is reserved.
    pub fn new(max_voices: usize) -> (vm: Self)
        requires
            10 * max_voices <= usize::MAX,
        ensures
            vm@ == Seq::<VoiceEvent>::empty(),
    {
        Self { events: Vec::with_capacity(10 * max_voices) }
    }

    /// Queues the note event of the MIDI message `data`, if it has one for
    /// `my_channel`.
    pub fn handle_midi(&mut self, data: &[u8], delta_frames: usize, my_channel: u8)
        requires
            data@.len() >= 1,
            data@.len() >= midi_needed_len(data@[0], my_channel),
        ensures
            final(self)@ == match midi_event(data@, delta_frames, my_channel) {
                Some(ev) => old(self)@.push(ev),
                None => old(self)@,
            },
    {
        let status = data[0];
        let cmd = (status & 0xF0) >> 4;
        let chan = status & 0x0F;
        assert(cmd == status / 16 && chan == status % 16) by (bit_vector)
            requires
                cmd == (status & 0xF0) >> 4,
                chan == status & 0x0F,
        ;

        if my_channel != chan {
            return;
        }
        if cmd == 0b1001 {
            self.events.push(VoiceEvent::Start { note: data[1], vel: data[2], delta_frames });
        } else if cmd == 0b1000 {
            self.events.push(VoiceEvent::End { note: data[1], delta_frames });
        }
    }

    /// Takes the most recently received pending event.
    pub fn next_event(&mut self) -> (ev: Option<VoiceEvent>)
        ensures
            old(self)@.len() == 0 ==> ev is None && final(self)@ == old(self)@,
            old(self)@.len() > 0 ==> ev == Some(old(self)@.last()) && final(self)@
                == old(self)@.drop_last(),
    {
        self.events.pop()
    }

    /// Whether no event is pending.
    pub fn is_idle(&self) -> (r: bool)
        ensures
            r == (self@.len() == 0),
    {
        self.events.len() == 0
    }
}

/// What a voice is to do for an event.
#[derive(Debug, Clone, Copy, PartialEq, Eq, Structural)]
pub enum VoiceAction {
    /// Voice `voice` starts playing `note` (which becomes its id).
    StartNote { voice: usize, note: u8, vel: u8, delta_frames: usize },
    /// Voice `voice` releases its note.
    EndNote { voice: usize, delta_frames: usize },
    /// No voice takes the event.
    Ignore,
}

/// Whether `a` is the action for `ev` when voice `i` is playing exactly if
/// `playing[i]` and has the id `ids[i]`: a note start goes to the first voice
/// that is not playing, a note end to the first voice whose id is the note,
/// and the event is ignored when there is no such voice.
pub open spec fn is_voice_action(
    ev: VoiceEvent,
    playing: Seq<bool>,
    ids: Seq<usize>,
    a: VoiceAction,
) -> bool {
    match ev {
        VoiceEvent::Start { note, vel, delta_frames } => match a {
            VoiceAction::StartNote { voice, note: n, vel: v, delta_frames: d } => {
                &&& n == note
                &&& v == vel
                &&& d == delta_frames
                &&& voice < playing.len()
                &&& !playing[voice as int]
                &&& forall|j: int| 0 <= j < voice ==> playing[j]
            },
            VoiceAction::Ignore => forall|j: int| 0 <= j < playing.len() ==> playing[j],
            VoiceAction::EndNote { .. } => false,
        },
        VoiceEvent::End { note, delta_frames } => match a {
            VoiceAction::EndNote { voice, delta_frames: d } => {
                &&& d == delta_frames
                &&& voice < ids.len()
                &&& ids[voice as int] == note as usize
                &&& forall|j: int| 0 <= j < voice ==> ids[j] != note as usize
            },
            VoiceAction::Ignore => forall|j: int| 0 <= j < ids.len() ==> ids[j] != note as usize,
            VoiceAction::StartNote { .. } => false,
        },
    }
}

/// Chooses the voice that handles `ev`, given for each voice whether it is
/// playing and its id.
pub fn voice_for_event(ev: &VoiceEvent, playing: &[bool], ids: &[usize]) -> (a: VoiceAction)
    ensures
        is_voice_action(*ev, playing@, ids@, a),
{
    match *ev {
        VoiceEvent::Start { note, vel, delta_frames } => {
            let mut i: usize = 0;
            while i < playing.len()
                invariant
                    i <= playing.len(),
                    *ev == (VoiceEvent::Start { note, vel, delta_frames }),
                    forall|j: int| 0 <= j < i ==> playing@[j],
                decreases playing.len() - i,
            {
                if !playing[i] {
                    return VoiceAction::StartNote { voice: i, note, vel, delta_frames };
                }
                i = i + 1;
            }
            VoiceAction::Ignore
        },
        VoiceEvent::End { note, delta_frames } => {
            let id = note as usize;
            let mut i: usize = 0;
            while i < ids.len()
                invariant
                    i <= ids.len(),
                    id == note as usize,
                    *ev == (VoiceEvent::End { note, delta_frames }),
                    forall|j: int| 0 <= j < i ==> ids@[j] != id,
                decreases ids.len() - i,
            {
                if ids[i] == id {
                    return VoiceAction::EndNote { voice: i, delta_frames };
                }
                i = i + 1;
            }
            VoiceAction::Ignore
        },
    }
}

/// The action for an event is determined by the voice states: no two
/// different actions fit the same event and states.
pub proof fn lemma_voice_action_unique(
    ev: VoiceEvent,
    playing: Seq<bool>,
    ids: Seq<usize>,
    a: VoiceAction,
    b: VoiceAction,
)
    requires
        is_voice_action(ev, playing, ids, a),
        is_voice_action(ev, playing, ids, b),
    ensures
        a == b,
{
}

/// The action for `ev` when voice `i` is playing exactly if `playing[i]`
/// and has the id `ids[i]` (the one action that [`is_voice_action`]
/// allows, see [`lemma_voice_action_unique`]).
pub open spec fn voice_action(ev: VoiceEvent, playing: Seq<bool>, ids: Seq<usize>) -> VoiceAction {
    choose|a: VoiceAction| is_voice_action(ev, playing, ids, a)
}

/// The voice states after action `a`: a started voice plays, with the note
/// as its id; a released voice keeps playing its release.
pub open spec fn voices_after(a: VoiceAction, playing: Seq<bool>, ids: Seq<usize>) -> (
    Seq<bool>,
    Seq<usize>,
) {
    match a {
        VoiceAction::StartNote { voice, note, .. } => (
            playing.update(voice as int, true),
            ids.update(voice as int, note as usize),
        ),
        _ => (playing, ids),
    }
}

/// The actions for the pending `events`, handed to the voices newest
/// first, each chosen for the voice states that the actions before it left.
pub open spec fn dispatch(events: Seq<VoiceEvent>, playing: Seq<bool>, ids: Seq<usize>) -> Seq<
    VoiceAction,
>
    decreases events.len(),
{
    if events.len() == 0 {
        Seq::empty()
    } else {
        let a = voice_action(events.last(), playing, ids);
        let (p, i) = voices_after(a, playing, ids);
        seq![a] + dispatch(events.drop_last(), p, i)
    }
}

/// The first voice from `k` on that is not playing, or -1 when all play.
proof fn lemma_first_free(p: Seq<bool>, k: int) -> (v: int)
    requires
        0 <= k <= p.len(),
        forall|j: int| 0 <= j < k ==> p[j],
    ensures
        v == -1 ==> forall|j: int| 0 <= j < p.len() ==> p[j],
        v != -1 ==> 0 <= v < p.len() && !p[v] && forall|j: int| 0 <= j < v ==> p[j],
    decreases p.len() - k,
{
    if k == p.len() {
        -1
    } else if !p[k] {
        k
    } else {
        lemma_first_free(p, k + 1)
    }
}

/// The first voice from `k` on whose id is `id`, or -1 when there is none.
proof fn lemma_first_id(ids: Seq<usize>, id: usize, k: int) -> (v: int)
    requires
        0 <= k <= ids.len(),
        forall|j: int| 0 <= j < k ==> ids[j] != id,
    ensures
        v == -1 ==> forall|j: int| 0 <= j < ids.len() ==> ids[j] != id,
        v != -1 ==> 0 <= v < ids.len() && ids[v] == id && forall|j: int| 0 <= j < v ==> ids[j] != id,
    decreases ids.len() - k,
{
    if k == ids.len() {
        -1
    } else if ids[k] == id {
        k
    } else {
        lemma_first_id(ids, id, k + 1)
    }
}

/// Every event has an action.
proof fn lemma_voice_action_exists(ev: VoiceEvent, playing: Seq<bool>, ids: Seq<usize>)
    requires
        playing.len() <= usize::MAX,
        ids.len() <= usize::MAX,
    ensures
        is_voice_action(ev, playing, ids, voice_action(ev, playing, ids)),
{
    match ev {
        VoiceEvent::Start { note, vel, delta_frames } => {
            let v = lemma_first_free(playing, 0);
            if v == -1 {
                assert(is_voice_action(ev, playing, ids, VoiceAction::Ignore));
            } else {
                assert(is_voice_action(
                    ev,
                    playing,
                    ids,
                    VoiceAction::StartNote { voice: v as usize, note, vel, delta_frames },
                ));
            }
        },
        VoiceEvent::End { note, delta_frames } => {
            let v = lemma_first_id(ids, note as usize, 0);
            if v == -1 {
                assert(is_voice_action(ev, playing, ids, VoiceAction::Ignore));
            } else {
                assert(is_voice_action(
                    ev,
                    playing,
                    ids,
                    VoiceAction::EndNote { voice: v as usize, delta_frames },
                ));
            }
        },
    }
}

/// Whether `a` starts a note on voice `v`.
pub open spec fn starts_on(a: VoiceAction, v: usize) -> bool {
    a matches VoiceAction::StartNote { voice, .. } && voice == v
}

/// In one batch of events every event gets one action, and a note start
/// takes a voice that was not playing before the batch and that no earlier
/// start of the batch took: a playing voice, also one that only plays the
/// release of a note ended in the same batch, is never taken over. A note
/// start never goes unserved while some voice is free of the batch.
pub proof fn lemma_dispatch_takes_free_voices(
    events: Seq<VoiceEvent>,
    playing: Seq<bool>,
    ids: Seq<usize>,
)
    requires
        playing.len() == ids.len(),
        playing.len() <= usize::MAX,
    ensures
        dispatch(events, playing, ids).len() == events.len(),
        forall|j: int|
            0 <= j < dispatch(events, playing, ids).len() ==> (#[trigger] dispatch(
                events,
                playing,
                ids,
            )[j] matches VoiceAction::StartNote { voice, .. } ==> voice < playing.len()
                && !playing[voice as int] && forall|k: int|
                0 <= k < j ==> !starts_on(dispatch(events, playing, ids)[k], voice)),
    decreases events.len(),
{
    if events.len() > 0 {
        let a = voice_action(events.last(), playing, ids);
        lemma_voice_action_exists(events.last(), playing, ids);
        let (p2, i2) = voices_after(a, playing, ids);
        lemma_dispatch_takes_free_voices(events.drop_last(), p2, i2);
        let d = dispatch(events, playing, ids);
        let rest = dispatch(events.drop_last(), p2, i2);
        assert(d == seq![a] + rest);
        assert forall|j: int|
            0 <= j < d.len() implies (#[trigger] d[j] matches VoiceAction::StartNote { voice, .. }
                ==> voice < playing.len() && !playing[voice as int] && forall|k: int|
                0 <= k < j ==> !starts_on(d[k], voice)) by {
            if j > 0 {
                assert(d[j] == rest[j - 1]);
                if let VoiceAction::StartNote { voice, .. } = d[j] {
                    assert(voice < p2.len() && !p2[voice as int]);
                    assert forall|k: int| 0 <= k < j implies !starts_on(d[k], voice) by {
                        if k > 0 {
                            assert(d[k] == rest[k - 1]);
                        }
                    }
                }
            }
        }
    }
}

impl VoiceManager {
    /// Takes all pending events and returns the actions for them, newest
    /// first (see [`dispatch`]), given for each voice whether it plays and
    /// its id.
    pub fn dispatch_events(&mut self, playing: Vec<bool>, ids: Vec<usize>) -> (r: Vec<VoiceAction>)
        requires
            playing@.len() == ids@.len(),
        ensures
            r@ == dispatch(old(self)@, playing@, ids@),
            final(self)@ == Seq::<VoiceEvent>::empty(),
    {
        let ghost events0 = self@;
        let ghost playing0 = playing@;
        let ghost ids0 = ids@;
        let mut playing = playing;
        let mut ids = ids;
        let mut r: Vec<VoiceAction> = Vec::new();
        while !self.is_idle()
            invariant
                playing@.len() == ids@.len(),
                r@ + dispatch(self@, playing@, ids@) == dispatch(events0, playing0, ids0),
            decreases self@.len(),
        {
            let ghost events = self@;
            let ghost p0 = playing@;
            let ghost i0 = ids@;
            let ev = self.next_event().unwrap();
            let a = voice_for_event(&ev, playing.as_slice(), ids.as_slice());
            proof {
                let c = voice_action(ev, p0, i0);
                lemma_voice_action_unique(ev, p0, i0, a, c);
            }
            let ghost before = r@;
            r.push(a);
            if let VoiceAction::StartNote { voice, note, .. } = a {
                playing.set(voice, true);
                ids.set(voice, note as usize);
            }
            assert(playing@ == voices_after(a, p0, i0).0 && ids@ == voices_after(a, p0, i0).1);
            assert(dispatch(events, p0, i0) == seq![a] + dispatch(self@, playing@, ids@));
            assert(r@ + dispatch(self@, playing@, ids@) =~= before + dispatch(events, p0, i0));
        }
        r
    }
}

/// The largest number of frames that are processed in one block.
pub const MAX_BLOCKSIZE: usize = 64;

/// The number of blocks that a buffer of `len` frames is processed in: at
/// least one, even for an empty buffer.
pub open spec fn block_count(len: nat) -> nat {
    if len == 0 {
        1
    } else {
        ((len + 63) / 64) as nat
    }
}

/// The blocks `(offset, frames)` that a buffer of `len` frames is processed
/// in: consecutive blocks of 64 frames, the last one taking the rest.
pub open spec fn block_plan(len: nat) -> Seq<(usize, usize)> {
    Seq::new(
        block_count(len),
        |i: int|
            ((i * 64) as usize, (if len - i * 64 > 64 {
                64
            } else {
                len - i * 64
            }) as usize),
    )
}

/// Block `i` starts inside a non-empty buffer exactly when `i` is below the
/// block count, and it is the last block when the rest fits into it.
proof fn lemma_block_index(len: nat, i: nat)
    requires
        len > 0,
        i * 64 < len,
    ensures
        i < block_count(len),
        len - i * 64 <= 64 ==> i + 1 == block_count(len),
        len - i * 64 > 64 ==> i + 1 < block_count(len),
{
    let n = block_count(len);
    assert(i < n) by (nonlinear_arith)
        requires
            n == (len + 63) / 64,
            i * 64 < len,
    ;
    assert(len - i * 64 <= 64 ==> i + 1 == n) by (nonlinear_arith)
        requires
            n == (len + 63) / 64,
            i * 64 < len,
    ;
    assert(len - i * 64 > 64 ==> i + 1 < n) by (nonlinear_arith)
        requires
            n == (len + 63) / 64,
            i * 64 < len,
    ;
}

/// Splits a buffer of `len` frames into the blocks it is processed in
/// (see [`block_plan`]).
pub fn process_blocks(len: usize) -> (r: Vec<(usize, usize)>)
    ensures
        r@ == block_plan(len as nat),
{
    let mut r: Vec<(usize, usize)> = Vec::new();
    if len == 0 {
        r.push((0, 0));
        assert(r@ =~= block_plan(0));
        return r;
    }
    let mut offs: usize = 0;
    let mut remaining: usize = len;
    while remaining > 0
        invariant
            len > 0,
            offs + remaining == len,
            remaining > 0 ==> offs == r@.len() * 64,
            remaining > 0 ==> r@.len() < block_count(len as nat),
            remaining == 0 ==> r@.len() == block_count(len as nat),
            forall|i: int| 0 <= i < r@.len() ==> r@[i] == block_plan(len as nat)[i],
        decreases remaining,
    {
        let advance = if remaining > MAX_BLOCKSIZE {
            MAX_BLOCKSIZE
        } else {
            remaining
        };
        proof {
            lemma_block_index(len as nat, r@.len());
        }
        r.push((offs, advance));
        offs = offs + advance;
        remaining = remaining - advance;
    }
    assert(r@ =~= block_plan(len as nat));
    r
}

/// The blocks of a non-empty buffer follow each other without gap or
/// overlap, each holds 1 to 64 frames, and together they cover the buffer.
pub proof fn lemma_block_plan_covers(len: nat)
    requires
        0 < len <= usize::MAX,
    ensures
        block_plan(len)[0].0 == 0,
        forall|i: int|
            0 <= i < block_plan(len).len() ==> 1 <= #[trigger] block_plan(len)[i].1 <= 64,
        forall|i: int|
            0 <= i < block_plan(len).len() - 1 ==> #[trigger] block_plan(len)[i].0 + block_plan(
                len,
            )[i].1 == block_plan(len)[i + 1].0,
        block_plan(len).last().0 + block_plan(len).last().1 == len,
{
    let n = block_count(len);
    assert(n >= 1 && n * 64 >= len && (n - 1) * 64 < len) by (nonlinear_arith)
        requires
            n == (len + 63) / 64,
            len > 0,
    ;
    assert forall|i: int| 0 <= i < n implies 1 <= #[trigger] block_plan(len)[i].1 <= 64 by {
        assert(i * 64 < len) by (nonlinear_arith)
            requires
                0 <= i <= n - 1,
                (n - 1) * 64 < len,
        ;
    }
    assert forall|i: int| 0 <= i < n - 1 implies #[trigger] block_plan(len)[i].0 + block_plan(
        len,
    )[i].1 == block_plan(len)[i + 1].0 by {
        assert((i + 1) * 64 < len && i * 64 + 64 == (i + 1) * 64) by (nonlinear_arith)
            requires
                0 <= i,
                i + 1 <= n - 1,
                (n - 1) * 64 < len,
        ;
    }
    assert(len - (n - 1) * 64 <= 64 && (n - 1) * 64 < len) by (nonlinear_arith)
        requires
            n * 64 >= len,
            (n - 1) * 64 < len,
    ;
}

/// Where the parameter smoothing stands in the host's buffer: how many of
/// its frames were processed since the parameters were last reached, and
/// where in the frame buffer the values of the last processed frame start.
#[derive(Debug, Clone, Copy, PartialEq, Eq, Structural)]
pub struct FrameCursor {
    pub last_frame_cnt: usize,
    pub last_frame_idx: usize,
}

impl FrameCursor {
    /// Nothing processed yet.
    pub fn new() -> (c: Self)
        ensures
            c == (FrameCursor { last_frame_cnt: 0, last_frame_idx: 0 }),
    {
        FrameCursor { last_frame_cnt: 0, last_frame_idx: 0 }
    }

    /// The cursor after the first block of `frames` frames with
    /// `param_count` values per frame.
    pub fn init(frames: usize, param_count: usize) -> (c: Self)
        requires
            frames >= 1,
            (frames - 1) * param_count <= usize::MAX,
        ensures
            c.last_frame_cnt == frames,
            c.last_frame_idx == (frames - 1) * param_count,
    {
        FrameCursor { last_frame_cnt: frames, last_frame_idx: (frames - 1) * param_count }
    }

    /// The cursor after the next block of `frames` frames, of a buffer of
    /// `total_nframes` frames: the count starts again at 0 once the buffer
    /// is done.
    pub fn advance(&self, frames: usize, total_nframes: usize, param_count: usize) -> (c: Self)
        requires
            frames >= 1,
            self.last_frame_cnt + frames <= usize::MAX,
            (frames - 1) * param_count <= usize::MAX,
        ensures
            c.last_frame_cnt == (if self.last_frame_cnt + frames >= total_nframes {
                0
            } else {
                self.last_frame_cnt + frames
            }),
            c.last_frame_idx == (frames - 1) * param_count,
    {
        let cnt = self.last_frame_cnt + frames;
        let cnt = if cnt >= total_nframes {
            0
        } else {
            cnt
        };
        FrameCursor { last_frame_cnt: cnt, last_frame_idx: (frames - 1) * param_count }
    }
}

} // verus!
