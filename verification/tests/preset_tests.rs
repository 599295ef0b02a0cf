use kickmess::param_model::pid;
use kickmess::param_model::{
    deserialize_preset, param_key_str, parse_preset_text, serialize_preset, PARAM_COUNT, PUB_PARAM_COUNT,
};

fn value_texts() -> Vec<String> {
    (0..PARAM_COUNT).map(|i| format!("{}", i as f32 * 0.25)).collect()
}

#[test]
fn counts_and_ids() {
    assert_eq!(PUB_PARAM_COUNT, 18);
    assert_eq!(PARAM_COUNT, 21);
    assert_eq!(pid::freq_start, 0);
    assert_eq!(pid::main_gain, 17);
    assert_eq!(pid::f1_type, 18);
    assert_eq!(pid::midi_chan, 20);
}

#[test]
fn keys() {
    assert_eq!(param_key_str(0), "pub:freq_start");
    assert_eq!(param_key_str(17), "pub:main_gain");
    assert_eq!(param_key_str(18), "priv:f1_type");
    assert_eq!(param_key_str(20), "priv:midi_chan");
}

#[test]
fn serialized_text() {
    let bytes = serialize_preset(&value_texts());
    let text = String::from_utf8(bytes).unwrap();
    assert!(text.starts_with("!PARAMS;\npub:freq_start=0;\npub:freq_end=0.25;\n"));
    assert!(text.ends_with("priv:midi_chan=5;\n"));
    assert_eq!(text.matches(";\n").count(), PARAM_COUNT + 1);
}

#[test]
fn preset_round_trip() {
    let values = value_texts();
    let read = deserialize_preset(&serialize_preset(&values));
    assert_eq!(read.len(), PARAM_COUNT);
    for (i, (idx, v)) in read.iter().enumerate() {
        assert_eq!(*idx, i);
        assert_eq!(v.iter().collect::<String>(), values[i]);
    }
}

#[test]
fn preset_without_marker_assigns_nothing() {
    assert!(deserialize_preset(b"pub:gain=1;").is_empty());
    assert!(deserialize_preset(b"").is_empty());
    // The marker must be a field of its own, untrimmed.
    assert!(deserialize_preset(b" !PARAMS;pub:gain=1;").is_empty());
}

#[test]
fn preset_fields_are_trimmed_and_matched_by_key() {
    let read = deserialize_preset(b"junk;!PARAMS;  pub:gain=0.5 \n; priv:f1_on = 1;pub:noise;pub:gain=0.7=9;x=1");
    let pairs: Vec<(usize, String)> =
        read.iter().map(|(i, v)| (*i, v.iter().collect())).collect();
    // Parameters come in index order; `pub:noise` without `=` reads as `0`;
    // `priv:f1_on ` (with a blank) names no parameter.
    assert_eq!(
        pairs,
        vec![
            (pid::gain, String::from("0.5")),
            (pid::gain, String::from("0.7")),
            (pid::noise, String::from("0")),
        ]
    );
}

#[test]
fn preset_invalid_utf8_is_replaced() {
    let read = deserialize_preset(b"!PARAMS;pub:gain=\xff1;");
    assert_eq!(read.len(), 1);
    assert_eq!(read[0].1.iter().collect::<String>(), "\u{fffd}1");
}

#[test]
fn parse_text_of_a_preset() {
    let text: Vec<char> = "!PARAMS;\npub:f1_res=0.25;\npriv:midi_chan=3;\npub:f1_res=1;".chars().collect();
    let pairs: Vec<(usize, String)> =
        parse_preset_text(&text).iter().map(|(i, v)| (*i, v.iter().collect())).collect();
    assert_eq!(
        pairs,
        vec![
            (pid::f1_res, String::from("0.25")),
            (pid::f1_res, String::from("1")),
            (pid::midi_chan, String::from("3")),
        ]
    );
    assert!(parse_preset_text(&Vec::new()).is_empty());
}

#[test]
fn preset_round_trip_of_float_values() {
    let floats: Vec<f32> = (0..PARAM_COUNT).map(|i| (i as f32 + 0.163) * 1.7e-3 * (i as f32 - 7.0)).collect();
    let texts: Vec<String> = floats.iter().map(|f| f.to_string()).collect();
    let read = deserialize_preset(&serialize_preset(&texts));
    assert_eq!(read.len(), PARAM_COUNT);
    for (idx, v) in read.iter() {
        let back: f32 = v.iter().collect::<String>().parse().unwrap();
        assert_eq!(back.to_bits(), floats[*idx].to_bits());
    }
}
