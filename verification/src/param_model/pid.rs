//! The index of each parameter of the synthesizer.
use vstd::prelude::*;

verus! {

#[allow(non_upper_case_globals)]
pub const freq_start: usize = 0;

#[allow(non_upper_case_globals)]
pub const freq_end: usize = 1;

#[allow(non_upper_case_globals)]
pub const f_env_release: usize = 2;

#[allow(non_upper_case_globals)]
pub const dist_start: usize = 3;

#[allow(non_upper_case_globals)]
pub const dist_end: usize = 4;

#[allow(non_upper_case_globals)]
pub const gain: usize = 5;

#[allow(non_upper_case_globals)]
pub const env_slope: usize = 6;

#[allow(non_upper_case_globals)]
pub const freq_slope: usize = 7;

#[allow(non_upper_case_globals)]
pub const noise: usize = 8;

#[allow(non_upper_case_globals)]
pub const freq_note_start: usize = 9;

#[allow(non_upper_case_globals)]
pub const freq_note_end: usize = 10;

#[allow(non_upper_case_globals)]
pub const env_release: usize = 11;

#[allow(non_upper_case_globals)]
pub const phase_offs: usize = 12;

#[allow(non_upper_case_globals)]
pub const dist_on: usize = 13;

#[allow(non_upper_case_globals)]
pub const f1_cutoff: usize = 14;

#[allow(non_upper_case_globals)]
pub const f1_res: usize = 15;

#[allow(non_upper_case_globals)]
pub const f1_drive: usize = 16;

#[allow(non_upper_case_globals)]
pub const main_gain: usize = 17;

#[allow(non_upper_case_globals)]
pub const f1_type: usize = 18;

#[allow(non_upper_case_globals)]
pub const f1_on: usize = 19;

#[allow(non_upper_case_globals)]
pub const midi_chan: usize = 20;

} // verus!
