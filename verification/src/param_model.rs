//! The parameter model of the synthesizer: the parameter indices, and the
//! text format in which presets store parameter values.
//!
//! A preset is UTF-8 text: `!PARAMS;` followed by one line
//! `<key>=<value>;` per parameter, in index order, where the key is `pub:`
//! or `priv:` followed by the parameter name, and the value is the text of
//! the parameter's number.
use crate::text::{is_whitespace, lemma_split_first, lemma_split_none, trim_end, trim_start, chars_eq, chars_range, split, split_chars, str_chars, trim, trim_chars, utf8_lossy, utf8_lossy_string, lemma_split_nonempty};
use vstd::prelude::*;
use vstd::slice::slice_to_vec;
use vstd::utf8::*;

pub mod pid;

verus! {

/// The number of parameters that the plugin host sees.
pub const PUB_PARAM_COUNT: usize = 18;

/// The number of parameters, the host's and the plugin's own.
pub const PARAM_COUNT: usize = 21;

/// The key under which parameter `p` is stored in a preset: `pub:` or
/// `priv:` followed by the parameter name.
pub open spec fn param_key(p: int) -> Seq<char> {
    if p == 0 {
        "pub:freq_start"@
    } else if p == 1 {
        "pub:freq_end"@
    } else if p == 2 {
        "pub:f_env_release"@
    } else if p == 3 {
        "pub:dist_start"@
    } else if p == 4 {
        "pub:dist_end"@
    } else if p == 5 {
        "pub:gain"@
    } else if p == 6 {
        "pub:env_slope"@
    } else if p == 7 {
        "pub:freq_slope"@
    } else if p == 8 {
        "pub:noise"@
    } else if p == 9 {
        "pub:freq_note_start"@
    } else if p == 10 {
        "pub:freq_note_end"@
    } else if p == 11 {
        "pub:env_release"@
    } else if p == 12 {
        "pub:phase_offs"@
    } else if p == 13 {
        "pub:dist_on"@
    } else if p == 14 {
        "pub:f1_cutoff"@
    } else if p == 15 {
        "pub:f1_res"@
    } else if p == 16 {
        "pub:f1_drive"@
    } else if p == 17 {
        "pub:main_gain"@
    } else if p == 18 {
        "priv:f1_type"@
    } else if p == 19 {
        "priv:f1_on"@
    } else if p == 20 {
        "priv:midi_chan"@
    } else {
        Seq::empty()
    }
}

/// The preset key of parameter `p` (see [`param_key`]).
pub fn param_key_str(p: usize) -> (r: &'static str)
    requires
        p < PARAM_COUNT,
    ensures
        r@ == param_key(p as int),
{
    match p {
        0 => "pub:freq_start",
        1 => "pub:freq_end",
        2 => "pub:f_env_release",
        3 => "pub:dist_start",
        4 => "pub:dist_end",
        5 => "pub:gain",
        6 => "pub:env_slope",
        7 => "pub:freq_slope",
        8 => "pub:noise",
        9 => "pub:freq_note_start",
        10 => "pub:freq_note_end",
        11 => "pub:env_release",
        12 => "pub:phase_offs",
        13 => "pub:dist_on",
        14 => "pub:f1_cutoff",
        15 => "pub:f1_res",
        16 => "pub:f1_drive",
        17 => "pub:main_gain",
        18 => "priv:f1_type",
        19 => "priv:f1_on",
        _ => "priv:midi_chan",
    }
}

/// Every key is non empty, starts with `p`, and holds neither `;` nor `=`.
pub proof fn lemma_param_key_chars(p: int)
    requires
        0 <= p < PARAM_COUNT,
    ensures
        param_key(p).len() > 0,
        param_key(p)[0] == 'p',
        forall|j: int| 0 <= j < param_key(p).len() ==> param_key(p)[j] != ';' && param_key(p)[j] != '=',
{
    reveal_strlit("pub:freq_start");
    reveal_strlit("pub:freq_end");
    reveal_strlit("pub:f_env_release");
    reveal_strlit("pub:dist_start");
    reveal_strlit("pub:dist_end");
    reveal_strlit("pub:gain");
    reveal_strlit("pub:env_slope");
    reveal_strlit("pub:freq_slope");
    reveal_strlit("pub:noise");
    reveal_strlit("pub:freq_note_start");
    reveal_strlit("pub:freq_note_end");
    reveal_strlit("pub:env_release");
    reveal_strlit("pub:phase_offs");
    reveal_strlit("pub:dist_on");
    reveal_strlit("pub:f1_cutoff");
    reveal_strlit("pub:f1_res");
    reveal_strlit("pub:f1_drive");
    reveal_strlit("pub:main_gain");
    reveal_strlit("priv:f1_type");
    reveal_strlit("priv:f1_on");
    reveal_strlit("priv:midi_chan");
}

/// The parameters the host sees are exactly those below
/// [`PUB_PARAM_COUNT`]: their keys start with `pub:`, the keys of the
/// plugin's own, hidden ones with `priv:`.
pub proof fn lemma_public_keys(p: int)
    requires
        0 <= p < PARAM_COUNT,
    ensures
        p < PUB_PARAM_COUNT ==> param_key(p).subrange(0, 4) == "pub:"@,
        p >= PUB_PARAM_COUNT ==> param_key(p).subrange(0, 5) == "priv:"@,
{
    reveal_strlit("pub:");
    reveal_strlit("priv:");
    reveal_strlit("pub:freq_start");
    reveal_strlit("pub:freq_end");
    reveal_strlit("pub:f_env_release");
    reveal_strlit("pub:dist_start");
    reveal_strlit("pub:dist_end");
    reveal_strlit("pub:gain");
    reveal_strlit("pub:env_slope");
    reveal_strlit("pub:freq_slope");
    reveal_strlit("pub:noise");
    reveal_strlit("pub:freq_note_start");
    reveal_strlit("pub:freq_note_end");
    reveal_strlit("pub:env_release");
    reveal_strlit("pub:phase_offs");
    reveal_strlit("pub:dist_on");
    reveal_strlit("pub:f1_cutoff");
    reveal_strlit("pub:f1_res");
    reveal_strlit("pub:f1_drive");
    reveal_strlit("pub:main_gain");
    reveal_strlit("priv:f1_type");
    reveal_strlit("priv:f1_on");
    reveal_strlit("priv:midi_chan");
    assert(p < PUB_PARAM_COUNT ==> param_key(p).subrange(0, 4) =~= "pub:"@);
    assert(p >= PUB_PARAM_COUNT ==> param_key(p).subrange(0, 5) =~= "priv:"@);
}

/// Each parameter is stored under its own name: the key of the parameter
/// with the index `pid::<name>` is `pub:<name>` for the parameters the host
/// sees and `priv:<name>` for the plugin's own.
pub proof fn lemma_param_key_names()
    ensures
        param_key(pid::freq_start as int) == "pub:freq_start"@,
        param_key(pid::freq_end as int) == "pub:freq_end"@,
        param_key(pid::f_env_release as int) == "pub:f_env_release"@,
        param_key(pid::dist_start as int) == "pub:dist_start"@,
        param_key(pid::dist_end as int) == "pub:dist_end"@,
        param_key(pid::gain as int) == "pub:gain"@,
        param_key(pid::env_slope as int) == "pub:env_slope"@,
        param_key(pid::freq_slope as int) == "pub:freq_slope"@,
        param_key(pid::noise as int) == "pub:noise"@,
        param_key(pid::freq_note_start as int) == "pub:freq_note_start"@,
        param_key(pid::freq_note_end as int) == "pub:freq_note_end"@,
        param_key(pid::env_release as int) == "pub:env_release"@,
        param_key(pid::phase_offs as int) == "pub:phase_offs"@,
        param_key(pid::dist_on as int) == "pub:dist_on"@,
        param_key(pid::f1_cutoff as int) == "pub:f1_cutoff"@,
        param_key(pid::f1_res as int) == "pub:f1_res"@,
        param_key(pid::f1_drive as int) == "pub:f1_drive"@,
        param_key(pid::main_gain as int) == "pub:main_gain"@,
        param_key(pid::f1_type as int) == "priv:f1_type"@,
        param_key(pid::f1_on as int) == "priv:f1_on"@,
        param_key(pid::midi_chan as int) == "priv:midi_chan"@,
        pid::freq_start < PUB_PARAM_COUNT,
        pid::freq_end < PUB_PARAM_COUNT,
        pid::f_env_release < PUB_PARAM_COUNT,
        pid::dist_start < PUB_PARAM_COUNT,
        pid::dist_end < PUB_PARAM_COUNT,
        pid::gain < PUB_PARAM_COUNT,
        pid::env_slope < PUB_PARAM_COUNT,
        pid::freq_slope < PUB_PARAM_COUNT,
        pid::noise < PUB_PARAM_COUNT,
        pid::freq_note_start < PUB_PARAM_COUNT,
        pid::freq_note_end < PUB_PARAM_COUNT,
        pid::env_release < PUB_PARAM_COUNT,
        pid::phase_offs < PUB_PARAM_COUNT,
        pid::dist_on < PUB_PARAM_COUNT,
        pid::f1_cutoff < PUB_PARAM_COUNT,
        pid::f1_res < PUB_PARAM_COUNT,
        pid::f1_drive < PUB_PARAM_COUNT,
        pid::main_gain < PUB_PARAM_COUNT,
        pid::f1_type >= PUB_PARAM_COUNT,
        pid::f1_on >= PUB_PARAM_COUNT,
        pid::midi_chan >= PUB_PARAM_COUNT,
{
}

/// Different parameters have different keys.
pub proof fn lemma_param_keys_distinct(p: int, q: int)
    requires
        0 <= p < PARAM_COUNT,
        0 <= q < PARAM_COUNT,
        p != q,
    ensures
        param_key(p) != param_key(q),
{
    reveal_strlit("pub:freq_start");
    reveal_strlit("pub:freq_end");
    reveal_strlit("pub:f_env_release");
    reveal_strlit("pub:dist_start");
    reveal_strlit("pub:dist_end");
    reveal_strlit("pub:gain");
    reveal_strlit("pub:env_slope");
    reveal_strlit("pub:freq_slope");
    reveal_strlit("pub:noise");
    reveal_strlit("pub:freq_note_start");
    reveal_strlit("pub:freq_note_end");
    reveal_strlit("pub:env_release");
    reveal_strlit("pub:phase_offs");
    reveal_strlit("pub:dist_on");
    reveal_strlit("pub:f1_cutoff");
    reveal_strlit("pub:f1_res");
    reveal_strlit("pub:f1_drive");
    reveal_strlit("pub:main_gain");
    reveal_strlit("priv:f1_type");
    reveal_strlit("priv:f1_on");
    reveal_strlit("priv:midi_chan");
    if param_key(p).len() == param_key(q).len() {
        if (p == 0 && q == 3) || (p == 3 && q == 0) {
            assert(param_key(p)[4] != param_key(q)[4]);
        }
        if (p == 0 && q == 7) || (p == 7 && q == 0) {
            assert(param_key(p)[10] != param_key(q)[10]);
        }
        if (p == 0 && q == 12) || (p == 12 && q == 0) {
            assert(param_key(p)[4] != param_key(q)[4]);
        }
        if (p == 0 && q == 20) || (p == 20 && q == 0) {
            assert(param_key(p)[1] != param_key(q)[1]);
        }
        if (p == 1 && q == 4) || (p == 4 && q == 1) {
            assert(param_key(p)[4] != param_key(q)[4]);
        }
        if (p == 1 && q == 16) || (p == 16 && q == 1) {
            assert(param_key(p)[5] != param_key(q)[5]);
        }
        if (p == 1 && q == 18) || (p == 18 && q == 1) {
            assert(param_key(p)[1] != param_key(q)[1]);
        }
        if (p == 2 && q == 10) || (p == 10 && q == 2) {
            assert(param_key(p)[5] != param_key(q)[5]);
        }
        if (p == 3 && q == 7) || (p == 7 && q == 3) {
            assert(param_key(p)[4] != param_key(q)[4]);
        }
        if (p == 3 && q == 12) || (p == 12 && q == 3) {
            assert(param_key(p)[4] != param_key(q)[4]);
        }
        if (p == 3 && q == 20) || (p == 20 && q == 3) {
            assert(param_key(p)[1] != param_key(q)[1]);
        }
        if (p == 4 && q == 16) || (p == 16 && q == 4) {
            assert(param_key(p)[4] != param_key(q)[4]);
        }
        if (p == 4 && q == 18) || (p == 18 && q == 4) {
            assert(param_key(p)[1] != param_key(q)[1]);
        }
        if (p == 6 && q == 14) || (p == 14 && q == 6) {
            assert(param_key(p)[4] != param_key(q)[4]);
        }
        if (p == 6 && q == 17) || (p == 17 && q == 6) {
            assert(param_key(p)[4] != param_key(q)[4]);
        }
        if (p == 7 && q == 12) || (p == 12 && q == 7) {
            assert(param_key(p)[4] != param_key(q)[4]);
        }
        if (p == 7 && q == 20) || (p == 20 && q == 7) {
            assert(param_key(p)[1] != param_key(q)[1]);
        }
        if (p == 12 && q == 20) || (p == 20 && q == 12) {
            assert(param_key(p)[1] != param_key(q)[1]);
        }
        if (p == 14 && q == 17) || (p == 17 && q == 14) {
            assert(param_key(p)[4] != param_key(q)[4]);
        }
        if (p == 15 && q == 19) || (p == 19 && q == 15) {
            assert(param_key(p)[1] != param_key(q)[1]);
        }
        if (p == 16 && q == 18) || (p == 18 && q == 16) {
            assert(param_key(p)[1] != param_key(q)[1]);
        }
    }
}

/// The field that starts the parameter section of a preset.
pub open spec fn params_marker() -> Seq<char> {
    "!PARAMS"@
}

/// The text of a preset of the parameter values `values` up to parameter
/// `n`: `!PARAMS;` and a line break, then `<key>=<value>;` and a line break
/// for each parameter below `n`.
pub open spec fn preset_body(values: Seq<Seq<char>>, n: nat) -> Seq<char>
    decreases n,
{
    if n == 0 {
        params_marker() + seq![';', '\n']
    } else {
        preset_body(values, (n - 1) as nat) + param_key(n - 1) + seq!['='] + values[n - 1]
            + seq![';', '\n']
    }
}

/// The text of a preset of all parameters' values.
pub open spec fn preset_text(values: Seq<Seq<char>>) -> Seq<char> {
    preset_body(values, PARAM_COUNT as nat)
}

/// The name and the value that a preset field gives: the field is trimmed
/// and split at `=`; the name is the first piece and the value the second,
/// or `0` when there is none.
pub open spec fn preset_entry(field: Seq<char>) -> (Seq<char>, Seq<char>) {
    let par = split(trim(field), '=');
    (par[0], if par.len() > 1 { par[1] } else { seq!['0'] })
}

/// The entries of the fields `fields`: every field after the first one that
/// is exactly `!PARAMS` (when `started`, every field) gives an entry.
pub open spec fn preset_entries(fields: Seq<Seq<char>>, started: bool) -> Seq<(Seq<char>, Seq<char>)>
    decreases fields.len(),
{
    if fields.len() == 0 {
        Seq::empty()
    } else if started {
        seq![preset_entry(fields[0])] + preset_entries(fields.drop_first(), true)
    } else {
        preset_entries(fields.drop_first(), fields[0] == params_marker())
    }
}

/// The values of the entries named by parameter `p`'s key, in entry order,
/// each paired with `p`.
pub open spec fn key_matches(entries: Seq<(Seq<char>, Seq<char>)>, p: int) -> Seq<(usize, Seq<char>)>
    decreases entries.len(),
{
    if entries.len() == 0 {
        Seq::empty()
    } else {
        (if entries[0].0 == param_key(p) {
            seq![(p as usize, entries[0].1)]
        } else {
            Seq::empty()
        }) + key_matches(entries.drop_first(), p)
    }
}

/// The value assignments of the parameters below `n`: parameter by
/// parameter, the values of the entries named by its key.
pub open spec fn preset_assignments(entries: Seq<(Seq<char>, Seq<char>)>, n: nat) -> Seq<
    (usize, Seq<char>),
>
    decreases n,
{
    if n == 0 {
        Seq::empty()
    } else {
        preset_assignments(entries, (n - 1) as nat) + key_matches(entries, n - 1)
    }
}

/// The value assignments that the preset text `text` makes: the text is
/// split at `;` into fields, and the entries of the parameter section are
/// assigned parameter by parameter.
pub open spec fn preset_values_of_text(text: Seq<char>) -> Seq<(usize, Seq<char>)> {
    preset_assignments(preset_entries(split(text, ';'), false), PARAM_COUNT as nat)
}

/// The preset of the parameter value texts `values` (one per parameter,
/// in index order), as UTF-8 bytes.
pub fn serialize_preset(values: &Vec<String>) -> (r: Vec<u8>)
    requires
        values.len() == PARAM_COUNT,
    ensures
        r@ == encode_utf8(preset_text(values@.map_values(|v: String| v@))),
{
    let ghost vs = values@.map_values(|v: String| v@);
    let mut out = String::new();
    let head = "!PARAMS;\n";
    let eq = "=";
    let end = ";\n";
    proof {
        reveal_strlit("!PARAMS;\n");
        reveal_strlit("!PARAMS");
        reveal_strlit("=");
        reveal_strlit(";\n");
        assert(head@ =~= params_marker() + seq![';', '\n']);
        assert(eq@ =~= seq!['=']);
        assert(end@ =~= seq![';', '\n']);
    }
    out.append(head);
    assert(out@ =~= preset_body(vs, 0));
    let mut p: usize = 0;
    while p < PARAM_COUNT
        invariant
            p <= PARAM_COUNT,
            values.len() == PARAM_COUNT,
            vs == values@.map_values(|v: String| v@),
            eq@ == seq!['='],
            end@ == seq![';', '\n'],
            out@ == preset_body(vs, p as nat),
        decreases PARAM_COUNT - p,
    {
        out.append(param_key_str(p));
        out.append(eq);
        out.append(values[p].as_str());
        out.append(end);
        p = p + 1;
        assert(out@ =~= preset_body(vs, p as nat));
    }
    let bytes = out.as_str().as_bytes();
    slice_to_vec(bytes)
}

/// The entry of one preset field (see [`preset_entry`]).
fn field_entry(field: &Vec<char>) -> (r: (Vec<char>, Vec<char>))
    ensures
        (r.0@, r.1@) == preset_entry(field@),
{
    let t = trim_chars(field);
    let par = split_chars(&t, '=');
    proof {
        lemma_split_nonempty(t@, '=');
        assert(par@.map_values(|v: Vec<char>| v@)[0] == par@[0]@);
    }
    let name = chars_range(&par[0], 0, par[0].len());
    assert(name@ =~= par@[0]@);
    let value = if par.len() > 1 {
        assert(par@.map_values(|v: Vec<char>| v@)[1] == par@[1]@);
        let v = chars_range(&par[1], 0, par[1].len());
        assert(v@ =~= par@[1]@);
        v
    } else {
        let mut v: Vec<char> = Vec::new();
        v.push('0');
        assert(v@ =~= seq!['0']);
        v
    };
    (name, value)
}

/// Appending an entry to `entries` appends its match to the matches of
/// parameter `p`.
proof fn lemma_key_matches_push(
    entries: Seq<(Seq<char>, Seq<char>)>,
    e: (Seq<char>, Seq<char>),
    p: int,
)
    ensures
        key_matches(entries.push(e), p) == key_matches(entries, p) + (if e.0 == param_key(p) {
            seq![(p as usize, e.1)]
        } else {
            Seq::empty()
        }),
    decreases entries.len(),
{
    if entries.len() == 0 {
        assert(entries.push(e).drop_first() =~= Seq::<(Seq<char>, Seq<char>)>::empty());
        assert(entries.push(e)[0] == e);
        assert(key_matches(Seq::<(Seq<char>, Seq<char>)>::empty(), p) == Seq::<
            (usize, Seq<char>),
        >::empty());
        assert(key_matches(entries.push(e), p) =~= key_matches(entries, p) + (if e.0
            == param_key(p) {
            seq![(p as usize, e.1)]
        } else {
            Seq::empty()
        }));
    } else {
        assert(entries.push(e).drop_first() =~= entries.drop_first().push(e));
        lemma_key_matches_push(entries.drop_first(), e, p);
        assert(key_matches(entries.push(e), p) =~= key_matches(entries, p) + (if e.0
            == param_key(p) {
            seq![(p as usize, e.1)]
        } else {
            Seq::empty()
        }));
    }
}

/// Reads a preset: the value texts that it assigns to parameters, in
/// parameter order, and for each parameter in the order of its lines. The
/// bytes are decoded as UTF-8 with invalid sequences replaced.
pub fn deserialize_preset(preset: &[u8]) -> (r: Vec<(usize, Vec<char>)>)
    ensures
        r@.map_values(|a: (usize, Vec<char>)| (a.0, a.1@)) == preset_values_of_text(
            utf8_lossy(preset@),
        ),
        valid_utf8(preset@) ==> r@.map_values(|a: (usize, Vec<char>)| (a.0, a.1@))
            == preset_values_of_text(decode_utf8(preset@)),
{
    let text = utf8_lossy_string(preset);
    let chars = str_chars(text.as_str());
    parse_preset_text(&chars)
}

/// The value texts that the preset text `chars` assigns to parameters, in
/// parameter order, and for each parameter in the order of its lines (see
/// [`preset_values_of_text`]).
pub fn parse_preset_text(chars: &Vec<char>) -> (r: Vec<(usize, Vec<char>)>)
    ensures
        r@.map_values(|a: (usize, Vec<char>)| (a.0, a.1@)) == preset_values_of_text(chars@),
{
    let fields = split_chars(chars, ';');
    let ghost fv = fields@.map_values(|v: Vec<char>| v@);
    let marker = str_chars("!PARAMS");

    let mut entries: Vec<(Vec<char>, Vec<char>)> = Vec::new();
    let mut started = false;
    let mut i: usize = 0;
    assert(fv.skip(0) =~= fv);
    assert(entries@.map_values(|e: (Vec<char>, Vec<char>)| (e.0@, e.1@)) =~= Seq::<
        (Seq<char>, Seq<char>),
    >::empty());
    while i < fields.len()
        invariant
            i <= fields.len(),
            fv == fields@.map_values(|v: Vec<char>| v@),
            fv == split(chars@, ';'),
            marker@ == params_marker(),
            entries@.map_values(|e: (Vec<char>, Vec<char>)| (e.0@, e.1@)) + preset_entries(
                fv.skip(i as int),
                started,
            ) == preset_entries(fv, false),
        decreases fields.len() - i,
    {
        let ghost ev = entries@.map_values(|e: (Vec<char>, Vec<char>)| (e.0@, e.1@));
        assert(fv.skip(i as int).drop_first() =~= fv.skip(i + 1));
        assert(fv.skip(i as int)[0] == fields@[i as int]@);
        if started {
            let e = field_entry(&fields[i]);
            entries.push(e);
            assert(entries@.map_values(|e: (Vec<char>, Vec<char>)| (e.0@, e.1@)) =~= ev.push(
                (e.0@, e.1@),
            ));
            assert(ev.push((e.0@, e.1@)) + preset_entries(fv.skip(i + 1), true) =~= ev
                + preset_entries(fv.skip(i as int), true));
        } else if chars_eq(&fields[i], &marker) {
            started = true;
        }
        i = i + 1;
    }
    assert(fv.skip(fields.len() as int) =~= Seq::<Seq<char>>::empty());
    let ghost ev = entries@.map_values(|e: (Vec<char>, Vec<char>)| (e.0@, e.1@));
    assert(ev =~= preset_entries(fv, false));

    let mut out: Vec<(usize, Vec<char>)> = Vec::new();
    let mut p: usize = 0;
    assert(out@.map_values(|a: (usize, Vec<char>)| (a.0, a.1@)) =~= preset_assignments(ev, 0));
    while p < PARAM_COUNT
        invariant
            p <= PARAM_COUNT,
            ev == entries@.map_values(|e: (Vec<char>, Vec<char>)| (e.0@, e.1@)),
            out@.map_values(|a: (usize, Vec<char>)| (a.0, a.1@)) == preset_assignments(
                ev,
                p as nat,
            ),
        decreases PARAM_COUNT - p,
    {
        let key = str_chars(param_key_str(p));
        let ghost before = out@.map_values(|a: (usize, Vec<char>)| (a.0, a.1@));
        let mut k: usize = 0;
        assert(ev.take(0) =~= Seq::<(Seq<char>, Seq<char>)>::empty());
        assert(out@.map_values(|a: (usize, Vec<char>)| (a.0, a.1@)) =~= before + key_matches(
            ev.take(0),
            p as int,
        ));
        while k < entries.len()
            invariant
                k <= entries.len(),
                p < PARAM_COUNT,
                key@ == param_key(p as int),
                ev == entries@.map_values(|e: (Vec<char>, Vec<char>)| (e.0@, e.1@)),
                out@.map_values(|a: (usize, Vec<char>)| (a.0, a.1@)) == before + key_matches(
                    ev.take(k as int),
                    p as int,
                ),
            decreases entries.len() - k,
        {
            let ghost o = out@.map_values(|a: (usize, Vec<char>)| (a.0, a.1@));
            proof {
                assert(ev.take(k + 1) =~= ev.take(k as int).push(ev[k as int]));
                lemma_key_matches_push(ev.take(k as int), ev[k as int], p as int);
            }
            if chars_eq(&entries[k].0, &key) {
                let v = chars_range(&entries[k].1, 0, entries[k].1.len());
                assert(v@ =~= entries@[k as int].1@);
                out.push((p, v));
                assert(out@.map_values(|a: (usize, Vec<char>)| (a.0, a.1@)) =~= o.push(
                    (p, v@),
                ));
            }
            k = k + 1;
        }
        assert(ev.take(entries.len() as int) =~= ev);
        p = p + 1;
    }
    out
}

/// A value text that a preset line holds unchanged: it has neither `;` nor
/// `=`, and does not end in white space.
pub open spec fn preset_value_ok(v: Seq<char>) -> bool {
    &&& forall|j: int| 0 <= j < v.len() ==> v[j] != ';' && v[j] != '='
    &&& v.len() > 0 ==> !is_whitespace(v.last())
}

/// The lines of the parameters from `p` on.
spec fn preset_rest(values: Seq<Seq<char>>, p: int) -> Seq<char>
    decreases PARAM_COUNT - p,
{
    if p < 0 || p >= PARAM_COUNT {
        Seq::empty()
    } else {
        param_key(p) + seq!['='] + values[p] + seq![';', '\n'] + preset_rest(values, p + 1)
    }
}

/// The fields that splitting the lines from `p` on at `;` gives.
spec fn preset_fields_from(values: Seq<Seq<char>>, p: int) -> Seq<Seq<char>>
    decreases PARAM_COUNT - p,
{
    if p < 0 || p >= PARAM_COUNT {
        seq![seq!['\n']]
    } else {
        seq![seq!['\n'] + param_key(p) + seq!['='] + values[p]] + preset_fields_from(values, p + 1)
    }
}

/// The entries of the fields from parameter `p` on.
spec fn preset_entries_from(values: Seq<Seq<char>>, p: int) -> Seq<(Seq<char>, Seq<char>)>
    decreases PARAM_COUNT - p,
{
    if p < 0 || p >= PARAM_COUNT {
        seq![(Seq::<char>::empty(), seq!['0'])]
    } else {
        seq![(param_key(p), values[p])] + preset_entries_from(values, p + 1)
    }
}

proof fn lemma_body_rest(values: Seq<Seq<char>>, n: int)
    requires
        0 <= n <= PARAM_COUNT,
    ensures
        preset_body(values, n as nat) + preset_rest(values, n) == params_marker() + seq![';', '\n']
            + preset_rest(values, 0),
    decreases n,
{
    if n > 0 {
        lemma_body_rest(values, n - 1);
        assert(preset_body(values, n as nat) + preset_rest(values, n) =~= preset_body(
            values,
            (n - 1) as nat,
        ) + preset_rest(values, n - 1));
    } else {
        assert(preset_body(values, 0) + preset_rest(values, 0) =~= params_marker() + seq![
            ';',
            '\n',
        ] + preset_rest(values, 0));
    }
}

proof fn lemma_split_rest(values: Seq<Seq<char>>, p: int)
    requires
        values.len() == PARAM_COUNT,
        forall|q: int| 0 <= q < PARAM_COUNT ==> preset_value_ok(#[trigger] values[q]),
        0 <= p <= PARAM_COUNT,
    ensures
        split(seq!['\n'] + preset_rest(values, p), ';') == preset_fields_from(values, p),
    decreases PARAM_COUNT - p,
{
    if p < PARAM_COUNT {
        let a = seq!['\n'] + param_key(p) + seq!['='] + values[p];
        let b = seq!['\n'] + preset_rest(values, p + 1);
        lemma_param_key_chars(p);
        assert(seq!['\n'] + preset_rest(values, p) =~= a + seq![';'] + b);
        assert forall|j: int| 0 <= j < a.len() implies a[j] != ';' by {
            if 1 <= j < 1 + param_key(p).len() {
                assert(a[j] == param_key(p)[j - 1]);
            } else if j > 1 + param_key(p).len() {
                assert(a[j] == values[p][j - 2 - param_key(p).len()]);
            }
        }
        lemma_split_first(a, ';', b);
        lemma_split_rest(values, p + 1);
    } else {
        assert(seq!['\n'] + preset_rest(values, p) =~= seq!['\n']);
        lemma_split_none(seq!['\n'], ';');
    }
}

proof fn lemma_entry_of_line(k: Seq<char>, v: Seq<char>)
    requires
        k.len() > 0,
        k[0] == 'p',
        forall|j: int| 0 <= j < k.len() ==> k[j] != '=',
        preset_value_ok(v),
    ensures
        preset_entry(seq!['\n'] + k + seq!['='] + v) == (k, v),
{
    let x = k + seq!['='] + v;
    let f = seq!['\n'] + x;
    assert(is_whitespace('\n'));
    assert(f.drop_first() =~= x);
    assert(x[0] == 'p');
    assert(!is_whitespace('p'));
    assert(trim_start(x) == x);
    assert(trim_start(f) == x);
    if v.len() > 0 {
        assert(x.last() == v.last());
    } else {
        assert(x.last() == '=');
        assert(!is_whitespace('='));
    }
    assert(trim_end(x) == x);
    lemma_split_first(k, '=', v);
    lemma_split_none(v, '=');
    assert(split(x, '=') =~= seq![k, v]);
    assert(trim(f) == x);
    let par = split(trim(f), '=');
    assert(par[0] == k && par.len() == 2 && par[1] == v);
    assert(seq!['\n'] + k + seq!['='] + v =~= f);
}

proof fn lemma_entry_of_newline()
    ensures
        preset_entry(seq!['\n']) == (Seq::<char>::empty(), seq!['0']),
{
    let f = seq!['\n'];
    assert(is_whitespace('\n'));
    assert(f.drop_first() =~= Seq::<char>::empty());
    assert(trim_start(Seq::<char>::empty()) == Seq::<char>::empty());
    assert(trim_end(Seq::<char>::empty()) == Seq::<char>::empty());
    assert(trim(f) == Seq::<char>::empty());
    lemma_split_none(Seq::<char>::empty(), '=');
}

proof fn lemma_entries_from(values: Seq<Seq<char>>, p: int)
    requires
        values.len() == PARAM_COUNT,
        forall|q: int| 0 <= q < PARAM_COUNT ==> preset_value_ok(#[trigger] values[q]),
        0 <= p <= PARAM_COUNT,
    ensures
        preset_entries(preset_fields_from(values, p), true) == preset_entries_from(values, p),
    decreases PARAM_COUNT - p,
{
    let fields = preset_fields_from(values, p);
    if p < PARAM_COUNT {
        lemma_param_key_chars(p);
        lemma_entry_of_line(param_key(p), values[p]);
        assert(fields.drop_first() =~= preset_fields_from(values, p + 1));
        lemma_entries_from(values, p + 1);
    } else {
        lemma_entry_of_newline();
        assert(fields.drop_first() =~= Seq::<Seq<char>>::empty());
        assert(preset_entries(Seq::<Seq<char>>::empty(), true) == Seq::<
            (Seq<char>, Seq<char>),
        >::empty());
        assert(preset_entries(fields, true) =~= preset_entries_from(values, p));
    }
}

proof fn lemma_matches_from(values: Seq<Seq<char>>, q: int, p: int)
    requires
        values.len() == PARAM_COUNT,
        0 <= p < PARAM_COUNT,
        0 <= q <= PARAM_COUNT,
    ensures
        key_matches(preset_entries_from(values, q), p) == (if q <= p {
            seq![(p as usize, values[p])]
        } else {
            Seq::empty()
        }),
    decreases PARAM_COUNT - q,
{
    let es = preset_entries_from(values, q);
    lemma_param_key_chars(p);
    if q < PARAM_COUNT {
        assert(es.drop_first() =~= preset_entries_from(values, q + 1));
        lemma_matches_from(values, q + 1, p);
        if q != p {
            lemma_param_keys_distinct(q, p);
        }
        assert(key_matches(es, p) =~= (if q <= p {
            seq![(p as usize, values[p])]
        } else {
            Seq::empty()
        }));
    } else {
        assert(es.drop_first() =~= Seq::<(Seq<char>, Seq<char>)>::empty());
        assert(es[0].0 != param_key(p));
        assert(key_matches(Seq::<(Seq<char>, Seq<char>)>::empty(), p) == Seq::<
            (usize, Seq<char>),
        >::empty());
        assert(key_matches(es, p) =~= Seq::<(usize, Seq<char>)>::empty());
    }
}

proof fn lemma_assignments_from(values: Seq<Seq<char>>, n: nat)
    requires
        values.len() == PARAM_COUNT,
        n <= PARAM_COUNT,
    ensures
        preset_assignments(preset_entries_from(values, 0), n) == Seq::new(
            n,
            |i: int| (i as usize, values[i]),
        ),
    decreases n,
{
    if n > 0 {
        lemma_assignments_from(values, (n - 1) as nat);
        lemma_matches_from(values, 0, n - 1);
        assert(preset_assignments(preset_entries_from(values, 0), n) =~= Seq::new(
            n,
            |i: int| (i as usize, values[i]),
        ));
    } else {
        assert(preset_assignments(preset_entries_from(values, 0), n) =~= Seq::new(
            n,
            |i: int| (i as usize, values[i]),
        ));
    }
}

/// Reading back a written preset gives, in parameter order, each parameter
/// paired with the value text that was written for it, provided that no
/// value text holds `;` or `=` or ends in white space: the bytes that
/// `serialize_preset` writes are valid UTF-8, and `deserialize_preset`
/// decodes them to the assignments below.
pub proof fn lemma_preset_round_trip(values: Seq<Seq<char>>)
    requires
        values.len() == PARAM_COUNT,
        forall|q: int| 0 <= q < PARAM_COUNT ==> preset_value_ok(#[trigger] values[q]),
    ensures
        valid_utf8(encode_utf8(preset_text(values))),
        preset_values_of_text(decode_utf8(encode_utf8(preset_text(values)))) == Seq::new(
            PARAM_COUNT as nat,
            |i: int| (i as usize, values[i]),
        ),
{
    let text = preset_text(values);
    encode_utf8_valid_utf8(text);
    encode_utf8_decode_utf8(text);
    lemma_body_rest(values, PARAM_COUNT as int);
    assert(preset_rest(values, PARAM_COUNT as int) =~= Seq::<char>::empty());
    reveal_strlit("!PARAMS");
    let m = params_marker();
    assert(text =~= m + seq![';'] + (seq!['\n'] + preset_rest(values, 0)));
    lemma_split_first(m, ';', seq!['\n'] + preset_rest(values, 0));
    lemma_split_rest(values, 0);
    let fields = split(text, ';');
    assert(fields == seq![m] + preset_fields_from(values, 0));
    assert(fields[0] == m);
    assert(fields.drop_first() =~= preset_fields_from(values, 0));
    lemma_entries_from(values, 0);
    assert(preset_entries(fields, false) == preset_entries_from(values, 0));
    lemma_assignments_from(values, PARAM_COUNT as nat);
}

} // verus!
