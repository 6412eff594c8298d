use rxtd::intermediate::{Preset as Settings, PAD_COUNT};
use rxtd::td::{
    rx_level_to_db, rx_pitch_to_ratio, rx_speed_to_ratio, rx_to_td_color, rx_to_td_filter,
    rx_to_td_stereo, MasterLevels, PadLevels, Preset, VERSION,
};
use rxtd::FloatBits;

fn bits(x: f64) -> FloatBits {
    FloatBits { bits: x.to_bits() }
}

fn levels() -> Vec<PadLevels> {
    (0..PAD_COUNT)
        .map(|i| PadLevels {
            volume: bits(i as f64),
            tune: bits(0.5),
            finetune: bits(0.5),
            fadein: bits(0.0),
            fadeout: bits(1.0),
        })
        .collect()
}

fn master() -> MasterLevels {
    MasterLevels { volume: bits(0.8), pad_volume: bits(0.5), velocity_intensity: bits(0.3) }
}

#[test]
fn colors_convert() {
    assert_eq!(rx_to_td_color(0), -13262337);
    assert_eq!(rx_to_td_color(7), -1710619);
    assert_eq!(rx_to_td_color(8), -5631463);
    assert_eq!(rx_to_td_color(255), -5631463);
    let mut colors: Vec<i32> = (0..9).map(rx_to_td_color).collect();
    colors.sort();
    colors.dedup();
    assert_eq!(colors.len(), 9);
}

#[test]
fn stereo_settings_convert() {
    assert_eq!(rx_to_td_stereo(0), (1, 0));
    assert_eq!(rx_to_td_stereo(1), (0, 0));
    assert_eq!(rx_to_td_stereo(2), (1, 1));
    assert_eq!(rx_to_td_stereo(3), (1, 2));
    assert_eq!(rx_to_td_stereo(9), (1, 0));
}

#[test]
fn filters_convert() {
    assert_eq!(
        rx_to_td_filter(0),
        (0, bits(1.0), bits(0.0), bits(0.5), 0, 0, bits(0.5))
    );
    assert_eq!(
        rx_to_td_filter(1),
        (1, bits(0.889539361000061), bits(0.16), bits(0.0), 0, 0, bits(0.5))
    );
    assert_eq!(
        rx_to_td_filter(2),
        (1, bits(0.8546499609947205), bits(0.16), bits(0.0), 0, 0, bits(0.5))
    );
    assert_eq!(
        rx_to_td_filter(3),
        (1, bits(0.4597677886486053), bits(0.2), bits(0.0), 7, 4, bits(0.75))
    );
}

#[test]
fn tables_convert() {
    assert_eq!(rx_level_to_db(0), bits(-48.125540454678699));
    assert_eq!(rx_level_to_db(15), bits(0.0052625759604806987));
    assert_eq!(rx_level_to_db(16), bits(0.0));
    assert_eq!(rx_pitch_to_ratio(0), (81, 128));
    assert_eq!(rx_pitch_to_ratio(8), (128, 128));
    assert_eq!(rx_pitch_to_ratio(15), (192, 128));
    assert_eq!(rx_pitch_to_ratio(16), (128, 128));
    assert_eq!(rx_speed_to_ratio(0), (1, 2));
    assert_eq!(rx_speed_to_ratio(2), (45, 33));
    assert_eq!(rx_speed_to_ratio(5), (78, 33));
    assert_eq!(rx_speed_to_ratio(6), (1, 1));
}

#[test]
fn pitch_ratios_rise() {
    for p in 0..15u8 {
        assert!(rx_pitch_to_ratio(p).0 < rx_pitch_to_ratio(p + 1).0);
    }
}

#[test]
fn active_pads_become_td_pads() {
    let mut settings = Settings::new();
    settings.polyphony = [1, 2, 3, 4, 5, 6, 7, 8];
    for i in 0..PAD_COUNT {
        settings.pads[i].inactive = i % 2 == 1;
    }
    settings.pads[2].sample_path = "/s/snare.wav".to_string();
    settings.pads[2].color = 4;
    settings.pads[2].mono = 3;
    settings.pads[2].loop_mode = 2;
    settings.pads[2].filter = 3;
    settings.pads[2].sample_reversed = true;
    let preset = Preset::from_intermediate(settings, &levels(), master());
    assert_eq!(preset.version, VERSION);
    assert_eq!(preset.volume, bits(0.8));
    assert_eq!(preset.pads.items.len(), 16);
    assert_eq!(preset.numberofpadsmode, 0);
    assert_eq!(preset.voicesvoicegroupparam00, 1);
    assert_eq!(preset.voicesvoicegroupparam07, 8);
    let pad = &preset.pads.items[1];
    assert_eq!(pad.midikey, 38);
    assert_eq!(pad.volume, bits(2.0));
    assert_eq!(pad.color, -19328);
    let mapping = &pad.mappings.mapping;
    assert_eq!(mapping.path, "/s/snare.wav");
    assert_eq!((mapping.mono, mapping.outputmode), (1, 2));
    assert_eq!((mapping.loopenabled, mapping.loopmode), (1, 1));
    assert_eq!(mapping.reversenabled, 1);
    assert_eq!((mapping.filtertype, mapping.matrix0source, mapping.matrix0destination), (1, 7, 4));
    assert_eq!(mapping.volume, bits(0.5));
    assert_eq!(mapping.velocityintensity, bits(0.3));
    assert_eq!(mapping.ampsustain, bits(1.0));
    assert_eq!(mapping.env1decay, bits(0.3));
}

#[test]
fn more_than_sixteen_pads_switch_the_pad_mode() {
    let settings = Settings::new();
    let preset = Preset::from_intermediate(settings, &levels(), master());
    assert_eq!(preset.pads.items.len(), 32);
    assert_eq!(preset.numberofpadsmode, 1);
    let mut settings = Settings::new();
    for i in 17..PAD_COUNT {
        settings.pads[i].inactive = true;
    }
    let preset = Preset::from_intermediate(settings, &levels(), master());
    assert_eq!(preset.pads.items.len(), 17);
    assert_eq!(preset.numberofpadsmode, 1);
}

#[test]
fn td_pads_have_distinct_keys() {
    for layout in [false, true] {
        let mut settings = Settings::new();
        settings.layout = layout;
        settings.assign_midi_keys();
        settings.pads[5].inactive = true;
        let preset = Preset::from_intermediate(settings, &levels(), master());
        let mut keys: Vec<u8> = preset.pads.items.iter().map(|p| p.midikey).collect();
        let n = keys.len();
        keys.sort();
        keys.dedup();
        assert_eq!(keys.len(), n);
        assert_eq!(n, 31);
    }
}
