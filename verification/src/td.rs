//! A TAL-Drum preset, and its construction from a drum machine's settings.

use vstd::prelude::*;
use crate::FloatBits;
use crate::intermediate;
use crate::intermediate::PAD_COUNT;

verus! {

/// The root element of a `.taldrum` file.
pub struct Preset {
    pub version: u8,
    pub volume: FloatBits,
    pub numberofpadsmode: u8,
    pub voicesvoicegroupparam00: u8,
    pub voicesvoicegroupparam01: u8,
    pub voicesvoicegroupparam02: u8,
    pub voicesvoicegroupparam03: u8,
    pub voicesvoicegroupparam04: u8,
    pub voicesvoicegroupparam05: u8,
    pub voicesvoicegroupparam06: u8,
    pub voicesvoicegroupparam07: u8,
    pub pads: Pads,
}

/// The pads of a TAL-Drum preset.
pub struct Pads {
    pub items: Vec<Pad>,
}

/// One TAL-Drum pad.
pub struct Pad {
    pub version: u8,
    pub color: i32,
    pub volume: FloatBits,
    pub pan: FloatBits,
    pub midikey: u8,
    pub voicegroup: u8,
    pub mappings: Mappings,
}

/// The sample mappings of a pad: one.
pub struct Mappings {
    pub mapping: Mapping,
}

/// How a pad plays its sample.
pub struct Mapping {
    pub path: String,
    pub start: FloatBits,
    pub end: FloatBits,
    pub loopstart: FloatBits,
    pub loopend: FloatBits,
    pub fadein: FloatBits,
    pub fadeout: FloatBits,
    pub truncatestart: FloatBits,
    pub truncateend: FloatBits,
    pub volume: FloatBits,
    pub tune: FloatBits,
    pub finetune: FloatBits,
    pub mono: u8,
    pub outputmode: u8,
    pub velocityintensity: FloatBits,
    pub reversenabled: u8,
    pub normalizesample: u8,
    pub loopenabled: u8,
    pub loopmode: u8,
    pub filtertype: u8,
    pub filtercutoff: FloatBits,
    pub filterresonance: FloatBits,
    pub filterdrive: FloatBits,
    pub ampattack: FloatBits,
    pub amphold: FloatBits,
    pub ampdecay: FloatBits,
    pub ampsustain: FloatBits,
    pub amprelease: FloatBits,
    pub env1attack: FloatBits,
    pub env1hold: FloatBits,
    pub env1decay: FloatBits,
    pub env1sustain: FloatBits,
    pub env1release: FloatBits,
    pub matrix0source: u8,
    pub matrix0destination: u8,
    pub matrix0intensity: FloatBits,
}

/// The file format version that the presets are written in.
pub const VERSION: u8 = 13;

// ---------------------------------------------------------------------------------------
// Settings converted one by one

/// The TAL-Drum color (an ARGB value) of an RX1200 pad color: the eight RX1200 colors
/// map to light blue, purple, pink, red, orange, yellow, green and light grey; any other
/// value to TAL-Drum's default dark red.
pub open spec fn td_color(color: u8) -> int {
    if color == 0 {
        -13262337  // #35A1FF
    } else if color == 1 {
        -8099340  // #8469F4
    } else if color == 2 {
        -48223  // #FF43A1
    } else if color == 3 {
        -38559  // #FF6961
    } else if color == 4 {
        -19328  // #FFB480
    } else if color == 5 {
        -461939  // #F8F38D
    } else if color == 6 {
        -12396892  // #42D6A4
    } else if color == 7 {
        -1710619  // #E5E5E5
    } else {
        -5631463  // #AA1219
    }
}

/// The TAL-Drum color of an RX1200 pad color.
pub fn rx_to_td_color(color: u8) -> (r: i32)
    ensures
        r == td_color(color),
{
    match color {
        0 => -13262337,
        1 => -8099340,
        2 => -48223,
        3 => -38559,
        4 => -19328,
        5 => -461939,
        6 => -12396892,
        7 => -1710619,
        _ => -5631463,
    }
}

/// The TAL-Drum mono switch and output mode of an RX1200 stereo setting: setting 1 is
/// stereo; any other is mono, sent to the output that settings 2 and 3 select (1 and 2),
/// or to output 0.
pub open spec fn td_stereo(rx_mono: u8) -> (u8, u8) {
    if rx_mono == 1 {
        (0, 0)
    } else if rx_mono == 2 {
        (1, 1)
    } else if rx_mono == 3 {
        (1, 2)
    } else {
        (1, 0)
    }
}

/// The TAL-Drum mono switch and output mode of an RX1200 stereo setting.
pub fn rx_to_td_stereo(rx_mono: u8) -> (r: (u8, u8))
    ensures
        r == td_stereo(rx_mono),
{
    if rx_mono == 1 {
        return (0, 0)
    }
    (
        1,
        match rx_mono {
            2 => 1,
            3 => 2,
            _ => 0,
        },
    )
}

/// The TAL-Drum filter of an RX1200 filter setting: type, cutoff, resonance, drive,
/// modulation source, modulation destination and modulation intensity. Settings 1 and 2
/// are low-pass filters at 13 kHz and 10 kHz, setting 3 one at 500 Hz whose cutoff the
/// envelope opens; any other setting leaves the filter off, as TAL-Drum's defaults have it.
pub open spec fn td_filter(rx_filter: u8) -> (u8, FloatBits, FloatBits, FloatBits, u8, u8, FloatBits) {
    if rx_filter == 1 {
        (
            1,
            FloatBits { bits: 0x3fec_771b_4000_0000 },  // 0.889539361000061
            FloatBits { bits: 0x3fc4_7ae1_47ae_147b },  // 0.16
            FloatBits { bits: 0 },
            0,
            0,
            FloatBits { bits: 0x3fe0_0000_0000_0000 },  // 0.5
        )
    } else if rx_filter == 2 {
        (
            1,
            FloatBits { bits: 0x3feb_594a_e000_0000 },  // 0.8546499609947205
            FloatBits { bits: 0x3fc4_7ae1_47ae_147b },  // 0.16
            FloatBits { bits: 0 },
            0,
            0,
            FloatBits { bits: 0x3fe0_0000_0000_0000 },  // 0.5
        )
    } else if rx_filter == 3 {
        (
            1,
            FloatBits { bits: 0x3fdd_6cd5_dfff_ffff },  // 0.4597677886486053
            FloatBits { bits: 0x3fc9_9999_9999_999a },  // 0.2
            FloatBits { bits: 0 },
            7,
            4,
            FloatBits { bits: 0x3fe8_0000_0000_0000 },  // 0.75
        )
    } else {
        (
            0,
            FloatBits { bits: 0x3ff0_0000_0000_0000 },  // 1.0
            FloatBits { bits: 0 },
            FloatBits { bits: 0x3fe0_0000_0000_0000 },  // 0.5
            0,
            0,
            FloatBits { bits: 0x3fe0_0000_0000_0000 },  // 0.5
        )
    }
}

/// The TAL-Drum filter of an RX1200 filter setting.
pub fn rx_to_td_filter(rx_filter: u8) -> (r: (u8, FloatBits, FloatBits, FloatBits, u8, u8, FloatBits))
    ensures
        r == td_filter(rx_filter),
{
    let mut filtertype: u8 = 1;
    let mut cutoff = FloatBits { bits: 0x3ff0_0000_0000_0000 };
    let mut resonance = FloatBits { bits: 0 };
    let mut drive = FloatBits { bits: 0 };
    let mut matrix_source: u8 = 0;
    let mut matrix_destination: u8 = 0;
    let mut matrix_intensity = FloatBits { bits: 0x3fe0_0000_0000_0000 };
    match rx_filter {
        1 => {
            cutoff = FloatBits { bits: 0x3fec_771b_4000_0000 };
            resonance = FloatBits { bits: 0x3fc4_7ae1_47ae_147b };
        },
        2 => {
            cutoff = FloatBits { bits: 0x3feb_594a_e000_0000 };
            resonance = FloatBits { bits: 0x3fc4_7ae1_47ae_147b };
        },
        3 => {
            cutoff = FloatBits { bits: 0x3fdd_6cd5_dfff_ffff };
            resonance = FloatBits { bits: 0x3fc9_9999_9999_999a };
            matrix_source = 7;
            matrix_destination = 4;
            matrix_intensity = FloatBits { bits: 0x3fe8_0000_0000_0000 };
        },
        _ => {
            filtertype = 0;
            drive = FloatBits { bits: 0x3fe0_0000_0000_0000 };
        },
    }
    (filtertype, cutoff, resonance, drive, matrix_source, matrix_destination, matrix_intensity)
}

/// The gain in decibels of an RX1200 level setting (0 to 15); any other setting is 0 dB.
pub open spec fn level_db(level: u8) -> FloatBits {
    FloatBits {
        bits: if level == 0 {
            0xc048_1011_b5a9_95c2  // -48.125540454678699
        } else if level == 1 {
            0xc043_4aa3_8ed2_abff  // -38.583116391055221
        } else if level == 2 {
            0xc041_12b4_bbfd_3765  // -34.146140574112714
        } else if level == 3 {
            0xc03f_393c_8b91_02d8  // -31.223580096152403
        } else if level == 4 {
            0xc03d_0a6a_812f_865d  // -29.040687631705044
        } else if level == 5 {
            0xc039_d8bf_9d4e_d263  // -25.846673804992303
        } else if level == 6 {
            0xc037_843d_5972_86e9  // -23.516561117611591
        } else if level == 7 {
            0xc034_e417_93db_5335  // -20.890984765096807
        } else if level == 8 {
            0xc032_4c5d_da42_d20a  // -18.298307076753225
        } else if level == 9 {
            0xc02f_bd5e_b3b9_867e  // -15.869863144299639
        } else if level == 10 {
            0xc02a_52d4_dff7_0120  // -13.161780356313614
        } else if level == 11 {
            0xc024_ca9c_962c_732a  // -10.395725911069878
        } else if level == 12 {
            0xc01e_ce98_f424_4b55  // -7.7017553469803106
        } else if level == 13 {
            0xc015_0f9c_6afb_306b  // -5.2652451244176559
        } else if level == 14 {
            0xc004_c53b_89b0_47d5  // -2.5963049656793182
        } else if level == 15 {
            0x3f75_8e35_fa49_a5ce  // 0.0052625759604806987
        } else {
            0
        },
    }
}

/// The gain in decibels of an RX1200 level setting.
pub fn rx_level_to_db(level: u8) -> (r: FloatBits)
    ensures
        r == level_db(level),
{
    let bits: u64 = match level {
        0 => 0xc048_1011_b5a9_95c2,
        1 => 0xc043_4aa3_8ed2_abff,
        2 => 0xc041_12b4_bbfd_3765,
        3 => 0xc03f_393c_8b91_02d8,
        4 => 0xc03d_0a6a_812f_865d,
        5 => 0xc039_d8bf_9d4e_d263,
        6 => 0xc037_843d_5972_86e9,
        7 => 0xc034_e417_93db_5335,
        8 => 0xc032_4c5d_da42_d20a,
        9 => 0xc02f_bd5e_b3b9_867e,
        10 => 0xc02a_52d4_dff7_0120,
        11 => 0xc024_ca9c_962c_732a,
        12 => 0xc01e_ce98_f424_4b55,
        13 => 0xc015_0f9c_6afb_306b,
        14 => 0xc004_c53b_89b0_47d5,
        15 => 0x3f75_8e35_fa49_a5ce,
        _ => 0,
    };
    FloatBits { bits }
}

/// The playback-rate ratio of an RX1200 pitch setting, as a numerator over 128: settings
/// 0 to 15 run from eight semitones down (81/128) to seven up (192/128), setting 8 is
/// unison; any other setting is unison.
pub open spec fn pitch_ratio(rx_pitch: u8) -> (u32, u32) {
    (
        if rx_pitch == 0 {
            81
        } else if rx_pitch == 1 {
            85
        } else if rx_pitch == 2 {
            91
        } else if rx_pitch == 3 {
            96
        } else if rx_pitch == 4 {
            102
        } else if rx_pitch == 5 {
            108
        } else if rx_pitch == 6 {
            114
        } else if rx_pitch == 7 {
            121
        } else if rx_pitch == 9 {
            136
        } else if rx_pitch == 10 {
            144
        } else if rx_pitch == 11 {
            152
        } else if rx_pitch == 12 {
            161
        } else if rx_pitch == 13 {
            171
        } else if rx_pitch == 14 {
            181
        } else if rx_pitch == 15 {
            192
        } else {
            128
        },
        128,
    )
}

/// The playback-rate ratio of an RX1200 pitch setting, as (numerator, denominator).
pub fn rx_pitch_to_ratio(rx_pitch: u8) -> (r: (u32, u32))
    ensures
        r == pitch_ratio(rx_pitch),
{
    let numerator: u32 = match rx_pitch {
        0 => 81,
        1 => 85,
        2 => 91,
        3 => 96,
        4 => 102,
        5 => 108,
        6 => 114,
        7 => 121,
        8 => 128,
        9 => 136,
        10 => 144,
        11 => 152,
        12 => 161,
        13 => 171,
        14 => 181,
        15 => 192,
        _ => 128,
    };
    (numerator, 128)
}

/// The playback-rate ratio of an RX1200 sample-rate setting: settings 0 to 5 are
/// 1/2, 1, 45/33, 3/2, 2 and 78/33; any other setting is 1.
pub open spec fn speed_ratio(rx_speed: u8) -> (u32, u32) {
    if rx_speed == 0 {
        (1, 2)
    } else if rx_speed == 2 {
        (45, 33)
    } else if rx_speed == 3 {
        (3, 2)
    } else if rx_speed == 4 {
        (2, 1)
    } else if rx_speed == 5 {
        (78, 33)
    } else {
        (1, 1)
    }
}

/// The playback-rate ratio of an RX1200 sample-rate setting, as (numerator, denominator).
pub fn rx_speed_to_ratio(rx_speed: u8) -> (r: (u32, u32))
    ensures
        r == speed_ratio(rx_speed),
{
    match rx_speed {
        0 => (1, 2),
        1 => (1, 1),
        2 => (45, 33),
        3 => (3, 2),
        4 => (2, 1),
        5 => (78, 33),
        _ => (1, 1),
    }
}

/// A higher RX1200 pitch setting never plays slower: the ratios of settings 0 to 15 rise
/// strictly.
pub proof fn pitch_ratios_rise(p: u8, q: u8)
    requires
        p < q <= 15,
    ensures
        pitch_ratio(p).0 < pitch_ratio(q).0,
        pitch_ratio(p).1 == pitch_ratio(q).1,
{
}

} // verus!

verus! {

// ---------------------------------------------------------------------------------------
// Whole presets

/// The real-valued settings of one TAL-Drum pad that are computed from its RX1200 pad.
#[derive(Clone, Copy, Debug, PartialEq, Eq, Structural)]
pub struct PadLevels {
    /// The pad's volume, from its level and gain.
    pub volume: FloatBits,
    /// The coarse tune, from the pitch, sample-rate and fine-tune settings.
    pub tune: FloatBits,
    /// The fine tune that goes with it.
    pub finetune: FloatBits,
    /// The fade-in length, from the RX1200 fade-in.
    pub fadein: FloatBits,
    /// The fade-out length, from the RX1200 fade-out.
    pub fadeout: FloatBits,
}

/// The real-valued settings of a TAL-Drum preset that are computed from the RX1200
/// master settings.
#[derive(Clone, Copy, Debug, PartialEq, Eq, Structural)]
pub struct MasterLevels {
    /// The master volume.
    pub volume: FloatBits,
    /// The volume that every pad's mapping takes to make up for the master volume.
    pub pad_volume: FloatBits,
    /// The velocity intensity, from the RX1200 velocity setting.
    pub velocity_intensity: FloatBits,
}

/// The TAL-Drum pad made from the RX1200 pad `pad`, whose computed settings are `lv`.
pub open spec fn td_pad_of(pad: intermediate::Pad, lv: PadLevels, master: MasterLevels) -> Pad {
    let filter = td_filter(pad.filter);
    Pad {
        version: VERSION,
        color: td_color(pad.color) as i32,
        volume: lv.volume,
        pan: pad.pan,
        midikey: pad.midikey,
        voicegroup: pad.output,
        mappings: Mappings {
            mapping: Mapping {
                path: pad.sample_path,
                start: pad.play_range_start,
                end: pad.play_range_end,
                loopstart: pad.loop_range_start,
                loopend: pad.loop_range_end,
                fadein: lv.fadein,
                fadeout: lv.fadeout,
                truncatestart: pad.truncate_start,
                truncateend: pad.truncate_end,
                volume: master.pad_volume,
                tune: lv.tune,
                finetune: lv.finetune,
                mono: td_stereo(pad.mono).0,
                outputmode: td_stereo(pad.mono).1,
                velocityintensity: master.velocity_intensity,
                reversenabled: if pad.sample_reversed { 1 } else { 0 },
                normalizesample: 0,
                loopenabled: if pad.loop_mode > 0 { 1 } else { 0 },
                loopmode: if pad.loop_mode > 1 { 1 } else { 0 },
                filtertype: filter.0,
                filtercutoff: filter.1,
                filterresonance: filter.2,
                filterdrive: filter.3,
                ampattack: FloatBits { bits: 0 },
                amphold: FloatBits { bits: 0 },
                ampdecay: FloatBits { bits: 0 },
                ampsustain: FloatBits { bits: 0x3ff0_0000_0000_0000 },  // 1.0
                amprelease: FloatBits { bits: 0 },
                env1attack: FloatBits { bits: 0 },
                env1hold: FloatBits { bits: 0 },
                env1decay: FloatBits { bits: 0x3fd3_3333_3333_3333 },  // 0.3
                env1sustain: FloatBits { bits: 0 },
                env1release: FloatBits { bits: 0 },
                matrix0source: filter.4,
                matrix0destination: filter.5,
                matrix0intensity: filter.6,
            },
        },
    }
}

/// The TAL-Drum pads made from the first `n` RX1200 pads: one for each active pad, in
/// pad order.
pub open spec fn td_pads(
    pads: Seq<intermediate::Pad>,
    levels: Seq<PadLevels>,
    master: MasterLevels,
    n: int,
) -> Seq<Pad>
    decreases n,
{
    if n <= 0 {
        seq![]
    } else if pads[n - 1].inactive {
        td_pads(pads, levels, master, n - 1)
    } else {
        td_pads(pads, levels, master, n - 1).push(td_pad_of(pads[n - 1], levels[n - 1], master))
    }
}

/// The number of active pads among the first `n`.
pub open spec fn active_pad_count(pads: Seq<intermediate::Pad>, n: int) -> nat
    decreases n,
{
    if n <= 0 {
        0
    } else if pads[n - 1].inactive {
        active_pad_count(pads, n - 1)
    } else {
        active_pad_count(pads, n - 1) + 1
    }
}

fn convert_pad(pad: &intermediate::Pad, path: String, lv: PadLevels, master: MasterLevels) -> (r: Pad)
    ensures
        r == td_pad_of((intermediate::Pad { sample_path: path, ..*pad }), lv, master),
{
    let (mono, outputmode) = rx_to_td_stereo(pad.mono);
    let (
        filtertype,
        filtercutoff,
        filterresonance,
        filterdrive,
        matrix0source,
        matrix0destination,
        matrix0intensity,
    ) = rx_to_td_filter(pad.filter);
    Pad {
        version: VERSION,
        color: rx_to_td_color(pad.color),
        volume: lv.volume,
        pan: pad.pan,
        midikey: pad.midikey,
        voicegroup: pad.output,
        mappings: Mappings {
            mapping: Mapping {
                path,
                start: pad.play_range_start,
                end: pad.play_range_end,
                loopstart: pad.loop_range_start,
                loopend: pad.loop_range_end,
                fadein: lv.fadein,
                fadeout: lv.fadeout,
                truncatestart: pad.truncate_start,
                truncateend: pad.truncate_end,
                volume: master.pad_volume,
                tune: lv.tune,
                finetune: lv.finetune,
                mono,
                outputmode,
                velocityintensity: master.velocity_intensity,
                reversenabled: if pad.sample_reversed { 1 } else { 0 },
                normalizesample: 0,
                loopenabled: if pad.loop_mode > 0 { 1 } else { 0 },
                loopmode: if pad.loop_mode > 1 { 1 } else { 0 },
                filtertype,
                filtercutoff,
                filterresonance,
                filterdrive,
                ampattack: FloatBits { bits: 0 },
                amphold: FloatBits { bits: 0 },
                ampdecay: FloatBits { bits: 0 },
                ampsustain: FloatBits { bits: 0x3ff0_0000_0000_0000 },
                amprelease: FloatBits { bits: 0 },
                env1attack: FloatBits { bits: 0 },
                env1hold: FloatBits { bits: 0 },
                env1decay: FloatBits { bits: 0x3fd3_3333_3333_3333 },
                env1sustain: FloatBits { bits: 0 },
                env1release: FloatBits { bits: 0 },
                matrix0source,
                matrix0destination,
                matrix0intensity,
            },
        },
    }
}

impl Preset {
    /// The TAL-Drum preset made from a drum machine's settings: one pad for each active
    /// pad, in pad order, the `i`-th pad's computed settings taken from `levels[i]`; the
    /// voice-group polyphonies as they are; and the 32-pad mode switched on when more than
    /// sixteen pads are kept.
    pub fn from_intermediate(
        intermediate: intermediate::Preset,
        levels: &Vec<PadLevels>,
        master: MasterLevels,
    ) -> (r: Preset)
        requires
            levels.len() == PAD_COUNT,
        ensures
            r.pads.items@ == td_pads(intermediate.pads@, levels@, master, PAD_COUNT as int),
            r.version == VERSION,
            r.volume == master.volume,
            r.numberofpadsmode == if r.pads.items.len() > 16 { 1u8 } else { 0u8 },
            r.voicesvoicegroupparam00 == intermediate.polyphony[0],
            r.voicesvoicegroupparam01 == intermediate.polyphony[1],
            r.voicesvoicegroupparam02 == intermediate.polyphony[2],
            r.voicesvoicegroupparam03 == intermediate.polyphony[3],
            r.voicesvoicegroupparam04 == intermediate.polyphony[4],
            r.voicesvoicegroupparam05 == intermediate.polyphony[5],
            r.voicesvoicegroupparam06 == intermediate.polyphony[6],
            r.voicesvoicegroupparam07 == intermediate.polyphony[7],
    {
        let ghost orig = intermediate.pads@;
        let mut source = intermediate;
        let mut items: Vec<Pad> = Vec::new();
        let mut pad_count: u8 = 0;
        let mut i: usize = 0;
        while i < PAD_COUNT
            invariant
                i <= PAD_COUNT,
                levels.len() == PAD_COUNT,
                orig.len() == PAD_COUNT,
                source.pads@.len() == PAD_COUNT,
                forall|j: int| i <= j < PAD_COUNT ==> #[trigger] source.pads@[j] == orig[j],
                items@ == td_pads(orig, levels@, master, i as int),
                pad_count == items.len(),
                source.polyphony == intermediate.polyphony,
                items.len() <= i,
            decreases PAD_COUNT - i,
        {
            if !source.pads[i].inactive {
                let mut path = String::new();
                std::mem::swap(&mut path, &mut source.pads[i].sample_path);
                assert(path == orig[i as int].sample_path);
                let pad = convert_pad(&source.pads[i], path, levels[i], master);
                assert((intermediate::Pad { sample_path: path, ..source.pads@[i as int] })
                    == orig[i as int]);
                items.push(pad);
                pad_count += 1;
            }
            i += 1;
        }
        Preset {
            version: VERSION,
            volume: master.volume,
            numberofpadsmode: if pad_count > 16 { 1 } else { 0 },
            voicesvoicegroupparam00: source.polyphony[0],
            voicesvoicegroupparam01: source.polyphony[1],
            voicesvoicegroupparam02: source.polyphony[2],
            voicesvoicegroupparam03: source.polyphony[3],
            voicesvoicegroupparam04: source.polyphony[4],
            voicesvoicegroupparam05: source.polyphony[5],
            voicesvoicegroupparam06: source.polyphony[6],
            voicesvoicegroupparam07: source.polyphony[7],
            pads: Pads { items },
        }
    }
}

/// The TAL-Drum preset holds exactly one pad per active RX1200 pad, so never more pads
/// than the RX1200 preset has.
pub proof fn one_td_pad_per_active_pad(
    pads: Seq<intermediate::Pad>,
    levels: Seq<PadLevels>,
    master: MasterLevels,
    n: int,
)
    requires
        0 <= n <= pads.len(),
    ensures
        td_pads(pads, levels, master, n).len() == active_pad_count(pads, n),
        active_pad_count(pads, n) <= n,
    decreases n,
{
    if n > 0 {
        one_td_pad_per_active_pad(pads, levels, master, n - 1);
    }
}

} // verus!

verus! {

/// The eight RX1200 colors map to eight different TAL-Drum colors, none of them the
/// default that other values get.
pub proof fn colors_are_distinct(a: u8, b: u8)
    requires
        a < 8,
        b < 8,
        a != b,
    ensures
        td_color(a) != td_color(b),
        td_color(a) != td_color(8),
{
}

} // verus!

verus! {

proof fn td_pad_keys_come_from_distinct_pads(
    pads: Seq<intermediate::Pad>,
    levels: Seq<PadLevels>,
    master: MasterLevels,
    layout: bool,
    n: int,
)
    requires
        0 <= n <= PAD_COUNT,
        pads.len() == PAD_COUNT,
        forall|i: int| 0 <= i < PAD_COUNT ==> #[trigger] pads[i].midikey == intermediate::midikey_for(layout, i) as u8,
    ensures
        forall|k: int| 0 <= k < td_pads(pads, levels, master, n).len() ==> exists|j: int|
            0 <= j < n && #[trigger] td_pads(pads, levels, master, n)[k].midikey
                == intermediate::midikey_for(layout, j) as u8,
        forall|k1: int, k2: int|
            0 <= k1 < k2 < td_pads(pads, levels, master, n).len() ==> #[trigger] td_pads(pads, levels, master, n)[k1].midikey
                != #[trigger] td_pads(pads, levels, master, n)[k2].midikey,
    decreases n,
{
    if n > 0 {
        td_pad_keys_come_from_distinct_pads(pads, levels, master, layout, n - 1);
        let prev = td_pads(pads, levels, master, n - 1);
        let cur = td_pads(pads, levels, master, n);
        if !pads[n - 1].inactive {
            let key = intermediate::midikey_for(layout, n - 1);
            assert(cur[prev.len() as int].midikey == key as u8);
            assert forall|k: int| 0 <= k < prev.len() implies #[trigger] cur[k].midikey != key as u8 by {
                assert(cur[k] == prev[k]);
                let j = choose|j: int| 0 <= j < n - 1 && prev[k].midikey == intermediate::midikey_for(layout, j) as u8;
                intermediate::assigned_midikeys_are_distinct(layout, j, n - 1);
            }
            assert forall|k: int| 0 <= k < cur.len() implies exists|j: int|
                0 <= j < n && #[trigger] cur[k].midikey == intermediate::midikey_for(layout, j) as u8 by {
                if k == prev.len() {
                    assert(cur[k].midikey == intermediate::midikey_for(layout, n - 1) as u8);
                } else {
                    assert(cur[k] == prev[k]);
                }
            }
        }
    }
}

/// Once the MIDI keys are assigned (in either layout), no two pads of the TAL-Drum preset
/// made from the settings share a key.
pub proof fn td_pads_have_distinct_keys(
    settings: intermediate::PresetModel,
    levels: Seq<PadLevels>,
    master: MasterLevels,
)
    requires
        settings.pads.len() == PAD_COUNT,
    ensures
        forall|k1: int, k2: int|
            0 <= k1 < k2 < td_pads(settings.with_midikeys().pads, levels, master, PAD_COUNT as int).len()
                ==> #[trigger] td_pads(settings.with_midikeys().pads, levels, master, PAD_COUNT as int)[k1].midikey
                != #[trigger] td_pads(settings.with_midikeys().pads, levels, master, PAD_COUNT as int)[k2].midikey,
{
    let pads = settings.with_midikeys().pads;
    assert forall|i: int| 0 <= i < PAD_COUNT implies #[trigger] pads[i].midikey
        == intermediate::midikey_for(settings.layout, i) as u8 by {}
    td_pad_keys_come_from_distinct_pads(pads, levels, master, settings.layout, PAD_COUNT as int);
}

} // verus!

verus! {

/// Whether the TAL-Drum pad `out` keeps what the RX1200 pad `pad` (with computed settings
/// `lv`, under `master`) holds: its sample's path, play range, loop range and truncation;
/// its pan, key and voice group; its reverse switch; looping when its loop mode is above 0
/// and ping-pong looping when it is above 1; and the computed volume, tune, fades and
/// master settings.
pub open spec fn keeps_pad_settings(
    out: Pad,
    pad: intermediate::Pad,
    lv: PadLevels,
    master: MasterLevels,
) -> bool {
    let m = out.mappings.mapping;
    &&& out.version == VERSION
    &&& m.path == pad.sample_path
    &&& m.start == pad.play_range_start
    &&& m.end == pad.play_range_end
    &&& m.loopstart == pad.loop_range_start
    &&& m.loopend == pad.loop_range_end
    &&& m.truncatestart == pad.truncate_start
    &&& m.truncateend == pad.truncate_end
    &&& out.pan == pad.pan
    &&& out.midikey == pad.midikey
    &&& out.voicegroup == pad.output
    &&& out.volume == lv.volume
    &&& m.tune == lv.tune
    &&& m.finetune == lv.finetune
    &&& m.fadein == lv.fadein
    &&& m.fadeout == lv.fadeout
    &&& m.volume == master.pad_volume
    &&& m.velocityintensity == master.velocity_intensity
    &&& m.reversenabled <= 1
    &&& (m.reversenabled == 1 <==> pad.sample_reversed)
    &&& m.loopenabled <= 1
    &&& (m.loopenabled == 1 <==> pad.loop_mode > 0)
    &&& m.loopmode <= 1
    &&& (m.loopmode == 1 <==> pad.loop_mode > 1)
    &&& m.normalizesample == 0
    &&& out.color == td_color(pad.color)
    &&& (m.mono, m.outputmode) == td_stereo(pad.mono)
    &&& (m.filtertype, m.filtercutoff, m.filterresonance, m.filterdrive, m.matrix0source,
        m.matrix0destination, m.matrix0intensity) == td_filter(pad.filter)
}

/// The pad made from the `j`-th RX1200 pad, where it is active, stands in the TAL-Drum
/// preset at the place given by the number of active pads before it, and keeps that pad's
/// settings: the pads keep their order, and each keeps its sample mapping.
pub proof fn td_pads_keep_order_and_settings(
    pads: Seq<intermediate::Pad>,
    levels: Seq<PadLevels>,
    master: MasterLevels,
    n: int,
    j: int,
)
    requires
        0 <= j < n <= pads.len(),
        n <= levels.len(),
        !pads[j].inactive,
    ensures
        active_pad_count(pads, j) < td_pads(pads, levels, master, n).len(),
        keeps_pad_settings(
            td_pads(pads, levels, master, n)[active_pad_count(pads, j) as int],
            pads[j],
            levels[j],
            master,
        ),
    decreases n,
{
    one_td_pad_per_active_pad(pads, levels, master, n - 1);
    if j == n - 1 {
        let out = td_pads(pads, levels, master, n)[active_pad_count(pads, j) as int];
        assert(out == td_pad_of(pads[j], levels[j], master));
    } else {
        td_pads_keep_order_and_settings(pads, levels, master, n - 1, j);
    }
}

/// Only RX1200 stereo setting 1 is stereo on TAL-Drum; the mono settings send to one of
/// outputs 0 to 2, settings 2 and 3 to outputs of their own, the others to output 0.
pub proof fn stereo_settings_are_consistent(a: u8, b: u8)
    ensures
        td_stereo(a).0 == 0 <==> a == 1,
        td_stereo(a).0 <= 1,
        td_stereo(a).1 <= 2,
        td_stereo(a).0 == 0 ==> td_stereo(a).1 == 0,
        (a == 2 || a == 3) && (b == 2 || b == 3) && a != b ==> td_stereo(a).1 != td_stereo(b).1
            && td_stereo(a).1 != 0,
        a != 2 && a != 3 ==> td_stereo(a).1 == 0,
{
}

/// RX1200 filter settings 1 to 3 switch on a low-pass filter whose cutoff falls from
/// setting to setting (the bit patterns of positive values order as the values do); only
/// setting 3 opens the filter with the envelope; any other setting leaves the filter off.
pub proof fn filter_settings_are_consistent(a: u8)
    ensures
        td_filter(a).0 == 1 <==> 1 <= a <= 3,
        td_filter(a).0 <= 1,
        td_filter(1).1.bits > td_filter(2).1.bits > td_filter(3).1.bits,
        td_filter(3).1.bits >> 63 == 0,
        (td_filter(a).4 != 0 || td_filter(a).5 != 0) <==> a == 3,
{
    assert(0x3fdd_6cd5_dfff_ffffu64 >> 63u64 == 0) by (bit_vector);
}

/// The sample-rate ratios of settings 0 to 5 rise strictly; setting 1 plays at the
/// sample's own rate, setting 0 an octave below it and setting 4 an octave above; any
/// other setting plays at the sample's own rate.
pub proof fn speed_ratios_rise(p: u8, q: u8)
    ensures
        p < q <= 5 ==> speed_ratio(p).0 * speed_ratio(q).1 < speed_ratio(q).0 * speed_ratio(p).1,
        speed_ratio(p).1 > 0,
        speed_ratio(1).0 == speed_ratio(1).1,
        2 * speed_ratio(0).0 == speed_ratio(0).1,
        speed_ratio(4).0 == 2 * speed_ratio(4).1,
        p > 5 ==> speed_ratio(p).0 == speed_ratio(p).1,
{
    if p < q && q <= 5 {
        let (a, b) = speed_ratio(p);
        let (c, d) = speed_ratio(q);
        if p == 0 {
            if q == 1 {
                assert(a * d < c * b) by (nonlinear_arith)
                    requires a == 1, b == 2, c == 1, d == 1;
            } else if q == 2 {
                assert(a * d < c * b) by (nonlinear_arith)
                    requires a == 1, b == 2, c == 45, d == 33;
            } else if q == 3 {
                assert(a * d < c * b) by (nonlinear_arith)
                    requires a == 1, b == 2, c == 3, d == 2;
            } else if q == 4 {
                assert(a * d < c * b) by (nonlinear_arith)
                    requires a == 1, b == 2, c == 2, d == 1;
            } else if q == 5 {
                assert(a * d < c * b) by (nonlinear_arith)
                    requires a == 1, b == 2, c == 78, d == 33;
            }
        } else if p == 1 {
            if q == 2 {
                assert(a * d < c * b) by (nonlinear_arith)
                    requires a == 1, b == 1, c == 45, d == 33;
            } else if q == 3 {
                assert(a * d < c * b) by (nonlinear_arith)
                    requires a == 1, b == 1, c == 3, d == 2;
            } else if q == 4 {
                assert(a * d < c * b) by (nonlinear_arith)
                    requires a == 1, b == 1, c == 2, d == 1;
            } else if q == 5 {
                assert(a * d < c * b) by (nonlinear_arith)
                    requires a == 1, b == 1, c == 78, d == 33;
            }
        } else if p == 2 {
            if q == 3 {
                assert(a * d < c * b) by (nonlinear_arith)
                    requires a == 45, b == 33, c == 3, d == 2;
            } else if q == 4 {
                assert(a * d < c * b) by (nonlinear_arith)
                    requires a == 45, b == 33, c == 2, d == 1;
            } else if q == 5 {
                assert(a * d < c * b) by (nonlinear_arith)
                    requires a == 45, b == 33, c == 78, d == 33;
            }
        } else if p == 3 {
            if q == 4 {
                assert(a * d < c * b) by (nonlinear_arith)
                    requires a == 3, b == 2, c == 2, d == 1;
            } else if q == 5 {
                assert(a * d < c * b) by (nonlinear_arith)
                    requires a == 3, b == 2, c == 78, d == 33;
            }
        } else if p == 4 {
            if q == 5 {
                assert(a * d < c * b) by (nonlinear_arith)
                    requires a == 2, b == 1, c == 78, d == 33;
            }
        }
    }
}

/// The pitch settings 0 to 15 span eight semitones down to seven up around setting 8,
/// which plays at the sample's own rate, as do the settings above 15; all ratios share
/// the denominator 128. Each step from one setting to the next is a semitone (a factor
/// of about 1.06, between 1.04 and 1.08 after rounding).
pub proof fn pitch_settings_center_on_unison(p: u8)
    ensures
        p < 15 ==> 104 * pitch_ratio(p).0 <= 100 * pitch_ratio((p + 1) as u8).0
            <= 108 * pitch_ratio(p).0,
        pitch_ratio(p).1 == 128,
        pitch_ratio(8).0 == 128,
        p > 15 ==> pitch_ratio(p).0 == 128,
        p < 8 ==> pitch_ratio(p).0 < 128,
        8 < p <= 15 ==> pitch_ratio(p).0 > 128,
        // seven semitones up is a fifth: 192/128 = 3/2
        2 * pitch_ratio(15).0 == 3 * pitch_ratio(15).1,
{
}

} // verus!

verus! {

/// The gain of the level settings rises strictly from setting 0 to setting 15: settings 0
/// to 14 are attenuations (negative, so their bit patterns fall as the gain rises) and
/// setting 15 is about 0 dB; any setting above 15 is 0 dB exactly.
pub proof fn level_gains_rise(p: u8, q: u8)
    ensures
        p <= 14 ==> level_db(p).bits >> 63 == 1,
        p < q <= 14 ==> level_db(p).bits > level_db(q).bits,
        level_db(15).bits >> 63 == 0,
        level_db(15).bits < 0x3ff0_0000_0000_0000,
        p > 15 ==> level_db(p).bits == 0,
{
    assert(forall|b: u64| 0x8000_0000_0000_0000u64 <= b ==> #[trigger] (b >> 63u64) == 1u64)
        by (bit_vector);
    assert(0x3f75_8e35_fa49_a5ceu64 >> 63u64 == 0) by (bit_vector);
}

/// The eight RX1200 pad colors map to eight different opaque TAL-Drum colors, none of
/// them the default color that any other value maps to.
pub proof fn pad_colors_stay_apart(a: u8, b: u8)
    ensures
        a < 8 && b < 8 && a != b ==> td_color(a) != td_color(b),
        a < 8 ==> td_color(a) != td_color(8),
        b >= 8 ==> td_color(b) == td_color(8),
        -0x100_0000 <= td_color(a) < 0,
{
}

} // verus!
