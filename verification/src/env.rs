//! The release envelope: a linear ramp over a fixed number of samples that
//! starts at a given sample offset of an audio block.
use vstd::prelude::*;

verus! {

/// Where the envelope is in its life.
#[derive(Debug, Clone, Copy, PartialEq, Eq, Structural)]
pub enum EnvPosState {
    /// Not triggered.
    Wait,
    /// Triggered; starts when the sample offset is reached.
    StartOffs(usize),
    /// Ramping.
    Running,
    /// Done.
    End,
}

/// What the envelope yields for one sample.
#[derive(Debug, Clone, Copy, PartialEq, Eq, Structural)]
pub enum EnvPos {
    /// The envelope does not run.
    Off,
    /// Sample `.0` of a ramp of `.1` samples; the envelope value is
    /// `.0 / .1`.
    Running(usize, usize),
    /// The ramp is over.
    End,
}

/// The abstract state of a release envelope.
pub struct REnvView {
    pub state: EnvPosState,
    pub pos: usize,
    pub len_samples: usize,
}

/// One step of the envelope from `s` at sample offset `offs`, where
/// `len_samples` is the ramp length that a start would take: the next state
/// and the output.
pub open spec fn renv_step(s: REnvView, offs: usize, len_samples: usize) -> (REnvView, EnvPos) {
    match s.state {
        EnvPosState::Wait => (s, EnvPos::Off),
        EnvPosState::End => (s, EnvPos::End),
        EnvPosState::StartOffs(s_offs) => {
            if s_offs != offs {
                (s, EnvPos::Off)
            } else {
                renv_ramp(REnvView { state: EnvPosState::Running, pos: 0, len_samples })
            }
        },
        EnvPosState::Running => renv_ramp(s),
    }
}

/// The ramp step of a running envelope.
pub open spec fn renv_ramp(s: REnvView) -> (REnvView, EnvPos) {
    if s.pos >= s.len_samples {
        (REnvView { state: EnvPosState::End, ..s }, EnvPos::End)
    } else {
        (REnvView { pos: (s.pos + 1) as usize, ..s }, EnvPos::Running(s.pos, s.len_samples))
    }
}

/// The outputs of `n` steps from `s`, all at offset `offs` with ramp
/// length `len_samples`.
pub open spec fn renv_run(s: REnvView, offs: usize, len_samples: usize, n: nat) -> Seq<EnvPos>
    decreases n,
{
    if n == 0 {
        Seq::empty()
    } else {
        let (s2, out) = renv_step(s, offs, len_samples);
        seq![out] + renv_run(s2, offs, len_samples, (n - 1) as nat)
    }
}

/// A release envelope.
#[derive(Debug, Clone, Copy)]
pub struct REnv {
    len_samples: usize,
    pos: usize,
    state: EnvPosState,
}

impl View for REnv {
    type V = REnvView;

    closed spec fn view(&self) -> REnvView {
        REnvView { state: self.state, pos: self.pos, len_samples: self.len_samples }
    }
}

impl REnv {
    /// Whether the position stays within the ramp while it runs.
    pub closed spec fn wf(&self) -> bool {
        self.state == EnvPosState::Running ==> self.pos <= self.len_samples
    }

    /// An envelope that waits for a trigger.
    pub fn new() -> (e: Self)
        ensures
            e.wf(),
            e@ == (REnvView { state: EnvPosState::Wait, pos: 0, len_samples: 0 }),
    {
        Self { len_samples: 0, pos: 0, state: EnvPosState::Wait }
    }

    /// Advances the envelope by one sample at offset `offs` of the current
    /// block. `len_samples` is the ramp length, taken when the envelope
    /// starts.
    pub fn next(&mut self, offs: usize, len_samples: usize) -> (r: EnvPos)
        requires
            old(self).wf(),
        ensures
            final(self).wf(),
            (final(self)@, r) == renv_step(old(self)@, offs, len_samples),
    {
        match self.state {
            EnvPosState::Wait => {
                return EnvPos::Off;
            },
            EnvPosState::StartOffs(s_offs) => {
                if s_offs == offs {
                    self.state = EnvPosState::Running;
                    self.len_samples = len_samples;
                    self.pos = 0;
                } else {
                    return EnvPos::Off;
                }
            },
            EnvPosState::End => {
                return EnvPos::End;
            },
            EnvPosState::Running => {},
        }
        let pos = self.pos;
        if pos >= self.len_samples {
            self.state = EnvPosState::End;
            EnvPos::End
        } else {
            self.pos = pos + 1;
            EnvPos::Running(pos, self.len_samples)
        }
    }

    /// Stops the envelope; it waits for a trigger again.
    pub fn reset(&mut self)
        ensures
            final(self).wf(),
            final(self)@ == (REnvView { state: EnvPosState::Wait, ..old(self)@ }),
    {
        self.state = EnvPosState::Wait;
    }

    /// Makes the envelope start at sample offset `offs`.
    pub fn trigger(&mut self, offs: usize)
        ensures
            final(self).wf(),
            final(self)@ == (REnvView { state: EnvPosState::StartOffs(offs), ..old(self)@ }),
    {
        self.state = EnvPosState::StartOffs(offs);
    }

    /// Whether the envelope is triggered or ramping.
    pub fn active(&self) -> (r: bool)
        ensures
            r == (self@.state is StartOffs || self@.state is Running),
    {
        match self.state {
            EnvPosState::StartOffs(_) => true,
            EnvPosState::Running => true,
            _ => false,
        }
    }
}

/// Once triggered at offset `offs` and stepped at that offset, the envelope
/// yields the positions `0 .. len_samples - 1` of its ramp, one per step,
/// and then ends for good.
pub proof fn lemma_renv_ramp(s: REnvView, offs: usize, len_samples: usize, n: nat)
    requires
        s.state == EnvPosState::StartOffs(offs),
    ensures
        renv_run(s, offs, len_samples, n) == Seq::new(
            n,
            |i: int|
                if i < len_samples {
                    EnvPos::Running(i as usize, len_samples)
                } else {
                    EnvPos::End
                },
        ),
{
    if n > 0 {
        let s1 = REnvView { state: EnvPosState::Running, pos: 0, len_samples };
        lemma_renv_running(s1, offs, (n - 1) as nat, len_samples);
        let (s2, out) = renv_step(s, offs, len_samples);
        assert(renv_step(s, offs, len_samples) == renv_ramp(s1));
        if len_samples == 0 {
            lemma_renv_end(s2, offs, len_samples, (n - 1) as nat);
        }
        assert(renv_run(s, offs, len_samples, n) =~= Seq::new(
            n,
            |i: int|
                if i < len_samples {
                    EnvPos::Running(i as usize, len_samples)
                } else {
                    EnvPos::End
                },
        ));
    } else {
        assert(renv_run(s, offs, len_samples, n) =~= Seq::new(
            n,
            |i: int|
                if i < len_samples {
                    EnvPos::Running(i as usize, len_samples)
                } else {
                    EnvPos::End
                },
        ));
    }
}

/// A running envelope at position `p` goes on from `p`.
proof fn lemma_renv_running(s: REnvView, offs: usize, n: nat, len_samples: usize)
    requires
        s.state == EnvPosState::Running,
        s.len_samples == len_samples,
        s.pos <= len_samples,
    ensures
        renv_run(renv_ramp(s).0, offs, len_samples, n) == Seq::new(
            n,
            |i: int|
                if s.pos + 1 + i < len_samples {
                    EnvPos::Running((s.pos + 1 + i) as usize, len_samples)
                } else {
                    EnvPos::End
                },
        ),
    decreases n,
{
    let s1 = renv_ramp(s).0;
    if n > 0 {
        if s.pos >= len_samples {
            lemma_renv_end(s1, offs, len_samples, n);
        } else {
            lemma_renv_running(s1, offs, (n - 1) as nat, len_samples);
        }
    }
    assert(renv_run(s1, offs, len_samples, n) =~= Seq::new(
        n,
        |i: int|
            if s.pos + 1 + i < len_samples {
                EnvPos::Running((s.pos + 1 + i) as usize, len_samples)
            } else {
                EnvPos::End
            },
    ));
}

/// An ended envelope yields `End` for good.
pub proof fn lemma_renv_end(s: REnvView, offs: usize, len_samples: usize, n: nat)
    requires
        s.state == EnvPosState::End,
    ensures
        renv_run(s, offs, len_samples, n) == Seq::new(n, |i: int| EnvPos::End),
    decreases n,
{
    if n > 0 {
        lemma_renv_end(s, offs, len_samples, (n - 1) as nat);
    }
    assert(renv_run(s, offs, len_samples, n) =~= Seq::new(n, |i: int| EnvPos::End));
}

} // verus!
