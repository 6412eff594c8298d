use rxtd::intermediate::{pad_id_is_readable, param_id_is_readable, param_is_readable};
use rxtd::intermediate::{
    classify_param_id, pad_id_to_index, process_gui_container, process_param_tag,
    process_samples_container, rx1200_data_path, sample_location, LocationKind, PadParam,
    ParamTarget, Preset, ResolvedPath, PAD_COUNT,
};
use rxtd::rx::{Gui, Param, ParamValue, Reference, References, Sample, Samples, Tag};
use rxtd::FloatBits;

fn bits(x: f64) -> FloatBits {
    FloatBits { bits: x.to_bits() }
}

fn value(x: f64) -> ParamValue {
    ParamValue {
        bits: bits(x),
        fifteenths: (15.0 * x).round() as u8,
        sevenths: (7.0 * x).round() as u8,
    }
}

fn param(id: &str, x: Option<f64>) -> Param {
    Param { id: id.to_string(), value: x.map(value) }
}

fn sample(id: &str, reference: Option<Option<(&str, &str)>>) -> Sample {
    Sample {
        id: id.to_string(),
        reversed: true,
        gain: bits(0.25),
        start: 10,
        end: 20,
        references: reference.map(|r| References {
            reference: r.map(|(t, v)| Reference { ref_type: t.to_string(), value: v.to_string() }),
        }),
    }
}

#[test]
fn pad_id_to_index_test() {
    let pad_ids = [
        "a1", "a2", "a3", "a4", "a5", "a6", "a7", "a8", "b1", "b2", "b3", "b4", "b5", "b6",
        "b7", "b8", "c1", "c2", "c3", "c4", "c5", "c6", "c7", "c8", "d1", "d2", "d3", "d4",
        "d5", "d6", "d7", "d8",
    ];
    for (index, &pad_id) in pad_ids.iter().enumerate() {
        assert_eq!(pad_id_to_index(pad_id), Some(index));
    }
}

#[test]
fn pad_id_lookup_rejects_other_ids() {
    assert_eq!(pad_id_to_index("volume"), None);
    assert_eq!(pad_id_to_index("range_end_a1"), None);
    // Any two-byte id is read as a bank and a pad.
    assert_eq!(pad_id_to_index("e1"), Some(32));
    // A first byte naming a bank suffices.
    assert_eq!(pad_id_to_index("b2x"), Some(9));
}

#[test]
fn master_parameters_are_classified() {
    assert_eq!(classify_param_id("volume"), ParamTarget::Volume);
    assert_eq!(classify_param_id("velocity"), ParamTarget::Velocity);
    assert_eq!(classify_param_id("layout"), ParamTarget::Layout);
    assert_eq!(classify_param_id("tempo"), ParamTarget::Ignored);
}

#[test]
fn polyphony_parameters_are_classified() {
    assert_eq!(classify_param_id("voices_1"), ParamTarget::Polyphony(0));
    assert_eq!(classify_param_id("voices_8"), ParamTarget::Polyphony(7));
    assert_eq!(classify_param_id("voices_9"), ParamTarget::Ignored);
}

#[test]
fn pad_parameters_are_classified() {
    assert_eq!(classify_param_id("a1_pitch"), ParamTarget::Pad(0, PadParam::Pitch));
    assert_eq!(classify_param_id("pitch_b3"), ParamTarget::Pad(10, PadParam::Pitch));
    assert_eq!(classify_param_id("d8_loop_range_end"), ParamTarget::Pad(31, PadParam::LoopRangeEnd));
    assert_eq!(classify_param_id("c2_fade_out"), ParamTarget::Pad(17, PadParam::FadeOut));
    assert_eq!(classify_param_id("a1_unknown"), ParamTarget::Ignored);
    // The id is split at its first '_': "loop" is no setting.
    assert_eq!(classify_param_id("loop_range_end_a1"), ParamTarget::Ignored);
}

#[test]
fn new_preset_holds_the_factory_defaults() {
    let preset = Preset::new();
    assert_eq!(preset.polyphony, [0; 8]);
    assert_eq!(preset.volume, bits(0.699999988079071));
    assert_eq!(preset.velocity, bits(0.0));
    assert!(!preset.layout);
    for (i, pad) in preset.pads.iter().enumerate() {
        assert!(!pad.inactive);
        assert_eq!(pad.pitch, 8);
        assert_eq!(pad.level, 15);
        assert_eq!(pad.pan, bits(0.5));
        assert_eq!(pad.gain, bits(0.1000000014901161));
        assert_eq!(pad.output as usize, i % 8);
        assert_eq!(pad.midikey as usize, 36 + i);
        assert_eq!(pad.sample_path, "");
        assert_eq!(pad.fade_out, bits(1.0));
        assert_eq!(pad.truncate_end, bits(1.0));
    }
}

#[test]
fn midi_keys_follow_the_layout() {
    let mut preset = Preset::new();
    preset.layout = true;
    preset.assign_midi_keys();
    assert_eq!(preset.pads[0].midikey, 36);
    assert_eq!(preset.pads[7].midikey, 43);
    assert_eq!(preset.pads[8].midikey, 48);
    assert_eq!(preset.pads[31].midikey, 79);
    preset.layout = false;
    preset.assign_midi_keys();
    for (i, pad) in preset.pads.iter().enumerate() {
        assert_eq!(pad.midikey as usize, 36 + i);
    }
}

#[test]
fn assigned_midi_keys_are_distinct() {
    for layout in [false, true] {
        let mut preset = Preset::new();
        preset.layout = layout;
        preset.assign_midi_keys();
        let mut keys: Vec<u8> = preset.pads.iter().map(|p| p.midikey).collect();
        keys.sort();
        keys.dedup();
        assert_eq!(keys.len(), PAD_COUNT);
        let first: Vec<u8> = preset.pads.iter().map(|p| p.midikey).collect();
        preset.assign_midi_keys();
        let second: Vec<u8> = preset.pads.iter().map(|p| p.midikey).collect();
        assert_eq!(first, second);
    }
}

#[test]
fn parameters_set_their_settings() {
    let mut preset = Preset::new();
    process_param_tag(&param("volume", Some(0.25)), &mut preset);
    process_param_tag(&param("layout", Some(1.0)), &mut preset);
    process_param_tag(&param("voices_3", Some(4.7)), &mut preset);
    process_param_tag(&param("b1_pitch", Some(0.5)), &mut preset);
    process_param_tag(&param("b1_pan", Some(0.75)), &mut preset);
    process_param_tag(&param("b1_loop_mode", Some(2.0)), &mut preset);
    assert_eq!(preset.volume, bits(0.25));
    assert!(preset.layout);
    assert_eq!(preset.polyphony[2], 4);
    assert_eq!(preset.pads[8].pitch, 8);
    assert_eq!(preset.pads[8].pan, bits(0.75));
    assert_eq!(preset.pads[8].loop_mode, 2);
    process_param_tag(&param("a1_level", Some(1.0)), &mut preset);
    assert_eq!(preset.pads[0].level, 15);
    process_param_tag(&param("a1_level", Some(0.2)), &mut preset);
    assert_eq!(preset.pads[0].level, 3);
}

#[test]
fn parameters_without_value_change_nothing() {
    let mut preset = Preset::new();
    process_param_tag(&param("volume", None), &mut preset);
    process_param_tag(&param("zz_pitch", None), &mut preset);
    assert_eq!(preset.volume, bits(0.699999988079071));
}

#[test]
fn samples_fill_their_pads() {
    let mut preset = Preset::new();
    let samples = Samples {
        items: vec![
            sample("a2", None),
            sample("a3", Some(None)),
            sample("a4", Some(Some(("file", "/x/kick.wav")))),
            sample("a5", Some(Some(("file", "/x/missing.wav")))),
            sample("volume", Some(Some(("file", "/x/none.wav")))),
        ],
    };
    let resolved = vec![
        None,
        None,
        Some(ResolvedPath { path: "/y/kick.wav".to_string(), canonical: true }),
        Some(ResolvedPath { path: "/x/missing.wav".to_string(), canonical: false }),
        None,
    ];
    process_samples_container(&samples, resolved, &mut preset);
    assert!(preset.pads[1].inactive);
    assert!(preset.pads[2].inactive);
    assert!(!preset.pads[3].inactive);
    assert_eq!(preset.pads[3].sample_path, "/y/kick.wav");
    assert!(preset.pads[3].sample_reversed);
    assert_eq!(preset.pads[3].sample_gain, bits(0.25));
    assert_eq!((preset.pads[3].sample_start, preset.pads[3].sample_end), (10, 20));
    assert!(preset.pads[4].inactive);
    assert_eq!(preset.pads[4].sample_path, "/x/missing.wav");
    assert!(!preset.pads[0].inactive);
}

#[test]
fn sample_locations_follow_the_reference_type() {
    let common = sample_location(&sample("a1", Some(Some(("productCommonData", "\\a.wav"))))).unwrap();
    assert_eq!(common.kind, LocationKind::CommonData);
    assert_eq!(common.relative, "\\a.wav");
    let user = sample_location(&sample("a1", Some(Some(("productUserData", "\\b.wav"))))).unwrap();
    assert_eq!(user.kind, LocationKind::UserData);
    let direct = sample_location(&sample("a1", Some(Some(("file", "C:\\c.wav"))))).unwrap();
    assert_eq!(direct.kind, LocationKind::Direct);
    assert_eq!(direct.relative, "C:\\c.wav");
    assert!(sample_location(&sample("a1", Some(None))).is_none());
    assert!(sample_location(&sample("volume", Some(Some(("file", "x"))))).is_none());
    assert_eq!(rx1200_data_path("C:\\ProgramData", "\\Kits\\a.wav"), "C:\\ProgramData\\Inphonik\\RX1200\\Kits\\a.wav");
}

#[test]
fn interface_parameters_set_colors() {
    let mut preset = Preset::new();
    let gui = Gui {
        params: vec![
            param("color_c4", Some(3.0 / 7.0)),
            param("color_c5", None),
            param("color", Some(1.0)),
            param("color_volume", Some(1.0)),
        ],
    };
    process_gui_container(&gui, &mut preset);
    assert_eq!(preset.pads[19].color, 3);
    assert_eq!(preset.pads[20].color, 0);
}

#[test]
fn tags_are_read_in_order() {
    let mut preset = Preset::new();
    let tags = vec![
        Tag::Param(param("a1_gain", Some(0.5))),
        Tag::Samples(Samples { items: vec![sample("a1", Some(Some(("file", "k.wav"))))] }),
        Tag::Gui(Gui { params: vec![param("color_a1", Some(1.0))] }),
        Tag::Param(param("a1_gain", Some(0.75))),
    ];
    let resolved = vec![
        vec![],
        vec![Some(ResolvedPath { path: "/k.wav".to_string(), canonical: true })],
        vec![],
        vec![],
    ];
    preset.read_tags(&tags, resolved);
    assert_eq!(preset.pads[0].gain, bits(0.75));
    assert_eq!(preset.pads[0].sample_path, "/k.wav");
    assert_eq!(preset.pads[0].color, 7);
}

#[test]
fn reading_a_parameter_twice_is_reading_it_once() {
    for id in ["b1_pitch", "voices_2", "layout", "c3_fade_in", "color"] {
        let mut once = Preset::new();
        process_param_tag(&param(id, Some(0.6)), &mut once);
        let mut twice = Preset::new();
        process_param_tag(&param(id, Some(0.6)), &mut twice);
        process_param_tag(&param(id, Some(0.6)), &mut twice);
        assert_eq!(once.polyphony, twice.polyphony);
        assert_eq!(once.layout, twice.layout);
        for i in 0..PAD_COUNT {
            assert_eq!(once.pads[i].pitch, twice.pads[i].pitch);
            assert_eq!(once.pads[i].fade_in, twice.pads[i].fade_in);
        }
    }
}

#[test]
fn readability_tests() {
    assert!(pad_id_is_readable("a1"));
    assert!(!pad_id_is_readable("A1"));
    assert!(!pad_id_is_readable("b"));
    assert!(!pad_id_is_readable(""));
    assert!(param_id_is_readable("b1_pitch"));
    assert!(param_id_is_readable("volume"));
    assert!(!param_id_is_readable("voices_0"));
    assert!(!param_id_is_readable("zz_pitch"));
    assert!(param_is_readable(&param("zz_pitch", None)));
    assert!(!param_is_readable(&param("zz_pitch", Some(1.0))));
}

#[test]
fn layout_follows_nonzero() {
    let mut preset = Preset::new();
    process_param_tag(&param("layout", Some(-0.0)), &mut preset);
    assert!(!preset.layout);
    process_param_tag(&param("layout", Some(0.5)), &mut preset);
    assert!(preset.layout);
    process_param_tag(&param("output_a1", Some(300.0)), &mut preset);
    assert_eq!(preset.pads[0].output, 255);
    process_param_tag(&param("voices_1", Some(-2.0)), &mut preset);
    assert_eq!(preset.polyphony[0], 0);
}
