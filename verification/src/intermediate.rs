//! The drum machine's settings as a preset describes them: eight voice-group polyphonies,
//! the master settings, and thirty-two pads in four banks of eight.

use vstd::prelude::*;
use crate::{float_is_nonzero, float_to_u8, is_nonzero, truncated_u8, FloatBits};
use crate::rx;
use crate::text::{bytes_equal_str, find_byte, first_index_of, str_bytes, utf8_of};
use vstd::utf8::is_ascii_chars;

verus! {

/// The number of pads.
pub const PAD_COUNT: usize = 32;

// ---------------------------------------------------------------------------------------
// Pad ids

/// Whether looking a pad up by `id` (its UTF-8 bytes) completes without a panic: the
/// lookup reads the first byte unless the id is two bytes long, reads the second byte
/// unless the first names a bank, and subtracts `'a'` and `'1'` from the two bytes
/// whenever it accepts the id.
pub open spec fn pad_id_is_safe(id: Seq<u8>) -> bool {
    if id.len() == 2 {
        id[0] >= 0x61 && id[1] >= 0x31
    } else if id.len() == 0 {
        false
    } else if 0x61 <= id[0] <= 0x64 {
        id.len() >= 2 && id[1] >= 0x31
    } else if id.len() < 2 {
        false
    } else if 0x31 <= id[1] <= 0x38 {
        id[0] >= 0x61
    } else {
        true
    }
}

/// The pad index that an id (its UTF-8 bytes) designates: `8 * bank + pad`, where the
/// bank is the first byte counted from `'a'` and the pad the second counted from `'1'`.
/// An id is accepted when it is two bytes long, or its first byte is one of `'a'..='d'`,
/// or its second byte is one of `'1'..='8'`.
pub open spec fn pad_index_of(id: Seq<u8>) -> Option<int> {
    if id.len() == 2 || (0x61 <= id[0] <= 0x64) || (0x31 <= id[1] <= 0x38) {
        Some(8 * (id[0] - 0x61) + (id[1] - 0x31))
    } else {
        None
    }
}

/// Whether a lookup by `id` neither panics nor yields an index past the last pad.
pub open spec fn pad_id_lookup_is_safe(id: Seq<u8>) -> bool {
    &&& pad_id_is_safe(id)
    &&& pad_index_of(id) matches Some(i) ==> i < PAD_COUNT
}

/// The id of pad `i`: its bank letter `'a'..='d'` and its number `'1'..='8'`.
pub open spec fn pad_id_of(i: int) -> Seq<u8> {
    seq![(0x61 + i / 8) as u8, (0x31 + i % 8) as u8]
}

fn pad_index_from_bytes(bytes: &[u8]) -> (r: Option<usize>)
    requires
        pad_id_is_safe(bytes@),
    ensures
        match pad_index_of(bytes@) {
            Some(i) => r == Some(i as usize),
            None => r is None,
        },
{
    if bytes.len() == 2 || (0x61 <= bytes[0] && bytes[0] <= 0x64) || (0x31 <= bytes[1]
        && bytes[1] <= 0x38) {
        let bank = (bytes[0] - 0x61) as usize;
        let pad = (bytes[1] - 0x31) as usize;
        Some(8 * bank + pad)
    } else {
        None
    }
}

/// The index of the pad that `pad_id` names.
pub fn pad_id_to_index(pad_id: &str) -> (r: Option<usize>)
    requires
        pad_id_is_safe(utf8_of(pad_id@)),
    ensures
        match pad_index_of(utf8_of(pad_id@)) {
            Some(i) => r == Some(i as usize),
            None => r is None,
        },
{
    pad_index_from_bytes(str_bytes(pad_id))
}

/// Each of the thirty-two pad ids `"a1"` to `"d8"` names its own pad, bank by bank.
pub proof fn pad_ids_name_their_pads(i: int)
    requires
        0 <= i < PAD_COUNT,
    ensures
        pad_id_is_safe(pad_id_of(i)),
        pad_index_of(pad_id_of(i)) == Some(i),
{
}

} // verus!

verus! {

// ---------------------------------------------------------------------------------------
// Pads and presets

/// The settings of one pad.
pub struct Pad {
    pub inactive: bool,
    pub pitch: u8,
    pub decay: u8,
    pub level: u8,
    pub pan: FloatBits,
    pub output: u8,
    pub filter: u8,
    pub finetune: FloatBits,
    pub gain: FloatBits,
    pub mono: u8,
    pub speed: u8,
    pub sample_path: String,
    pub sample_length: u32,
    pub sample_reversed: bool,
    pub sample_gain: FloatBits,
    pub sample_start: u32,
    pub sample_end: u32,
    pub play_range_start: FloatBits,
    pub play_range_end: FloatBits,
    pub loop_range_start: FloatBits,
    pub loop_range_end: FloatBits,
    pub loop_mode: u8,
    pub fade_in: FloatBits,
    pub fade_out: FloatBits,
    pub midikey: u8,
    pub color: u8,
    pub truncate_start: FloatBits,
    pub truncate_end: FloatBits,
}

/// The settings of a whole preset.
pub struct Preset {
    pub polyphony: [u8; 8],
    pub volume: FloatBits,
    pub velocity: FloatBits,
    pub layout: bool,
    pub pads: [Pad; 32],
}

/// A preset's settings as values: the polyphonies and pads as sequences.
pub ghost struct PresetModel {
    pub polyphony: Seq<u8>,
    pub volume: FloatBits,
    pub velocity: FloatBits,
    pub layout: bool,
    pub pads: Seq<Pad>,
}

impl View for Preset {
    type V = PresetModel;

    open spec fn view(&self) -> PresetModel {
        PresetModel {
            polyphony: self.polyphony@,
            volume: self.volume,
            velocity: self.velocity,
            layout: self.layout,
            pads: self.pads@,
        }
    }
}

impl PresetModel {
    /// The same settings with pad `i` replaced by `pad`.
    pub open spec fn with_pad(self, i: int, pad: Pad) -> PresetModel {
        PresetModel { pads: self.pads.update(i, pad), ..self }
    }
}

// Bit patterns of the real-valued defaults.
/// 0.0
pub open spec fn zero() -> FloatBits { FloatBits { bits: 0 } }
/// 0.5
pub open spec fn half() -> FloatBits { FloatBits { bits: 0x3fe0_0000_0000_0000 } }
/// 1.0
pub open spec fn one() -> FloatBits { FloatBits { bits: 0x3ff0_0000_0000_0000 } }

impl Pad {
    /// The same pad with MIDI key `k`.
    pub open spec fn with_midikey(self, k: u8) -> Pad {
        Pad { midikey: k, ..self }
    }

    /// Whether this pad holds the settings that pad `i` starts from (those of the
    /// factory preset "All clear"): its voice group is `i % 8` and its key `36 + i`.
    pub open spec fn is_initial(self, i: int) -> bool {
        &&& self == Pad {
            inactive: false,
            pitch: 8,
            decay: 0,
            level: 15,
            pan: half(),
            output: (i % 8) as u8,
            filter: 0,
            finetune: half(),
            gain: FloatBits { bits: 0x3fb9_9999_9fff_ffff },  // 0.1000000014901161
            mono: 0,
            speed: 0,
            sample_path: self.sample_path,
            sample_length: 0,
            sample_reversed: false,
            sample_gain: one(),
            sample_start: 0,
            sample_end: 0,
            play_range_start: zero(),
            play_range_end: one(),
            loop_range_start: zero(),
            loop_range_end: one(),
            loop_mode: 0,
            fade_in: zero(),
            fade_out: one(),
            midikey: (36 + i) as u8,
            color: 0,
            truncate_start: zero(),
            truncate_end: one(),
        }
        &&& self.sample_path@ == Seq::<char>::empty()
    }

    fn new(i: usize) -> (pad: Pad)
        requires
            i <= 219,
        ensures
            pad.is_initial(i as int),
    {
        let i = i as u8;
        Pad {
            inactive: false,
            pitch: 8,
            decay: 0,
            level: 15,
            pan: FloatBits { bits: 0x3fe0_0000_0000_0000 },
            output: i % 8,
            filter: 0,
            finetune: FloatBits { bits: 0x3fe0_0000_0000_0000 },
            gain: FloatBits { bits: 0x3fb9_9999_9fff_ffff },
            mono: 0,
            speed: 0,
            sample_path: String::new(),
            sample_length: 0,
            sample_reversed: false,
            sample_gain: FloatBits { bits: 0x3ff0_0000_0000_0000 },
            sample_start: 0,
            sample_end: 0,
            play_range_start: FloatBits { bits: 0 },
            play_range_end: FloatBits { bits: 0x3ff0_0000_0000_0000 },
            loop_range_start: FloatBits { bits: 0 },
            loop_range_end: FloatBits { bits: 0x3ff0_0000_0000_0000 },
            loop_mode: 0,
            fade_in: FloatBits { bits: 0 },
            fade_out: FloatBits { bits: 0x3ff0_0000_0000_0000 },
            midikey: 36 + i,
            color: 0,
            truncate_start: FloatBits { bits: 0 },
            truncate_end: FloatBits { bits: 0x3ff0_0000_0000_0000 },
        }
    }
}

/// The MIDI key of pad `i`: with the bank layout each bank of eight starts an octave
/// above the previous one (at 36, 48, 60, 72); otherwise the pads take consecutive keys
/// from 36.
pub open spec fn midikey_for(layout: bool, i: int) -> int {
    if layout {
        36 + 12 * (i / 8) + i % 8
    } else {
        36 + i
    }
}

impl PresetModel {
    /// Whether these are the settings that every preset starts from.
    pub open spec fn is_initial(self) -> bool {
        &&& self.polyphony == Seq::new(8, |k: int| 0u8)
        &&& self.volume == FloatBits { bits: 0x3fe6_6666_6000_0000 }  // 0.699999988079071
        &&& self.velocity == zero()
        &&& !self.layout
        &&& self.pads.len() == PAD_COUNT
        &&& forall|i: int| 0 <= i < PAD_COUNT ==> #[trigger] self.pads[i].is_initial(i)
    }

    /// These settings with each pad's MIDI key set from the layout.
    pub open spec fn with_midikeys(self) -> PresetModel {
        PresetModel {
            pads: Seq::new(
                self.pads.len(),
                |i: int| self.pads[i].with_midikey(midikey_for(self.layout, i) as u8),
            ),
            ..self
        }
    }
}

impl Preset {
    /// The settings that every preset starts from (those of the factory preset
    /// "All clear").
    pub fn new() -> (preset: Preset)
        ensures
            preset@.is_initial(),
    {
        let preset = Preset {
            polyphony: [0, 0, 0, 0, 0, 0, 0, 0],
            volume: FloatBits { bits: 0x3fe6_6666_6000_0000 },
            velocity: FloatBits { bits: 0 },
            layout: false,
            pads: [
                Pad::new(0), Pad::new(1), Pad::new(2), Pad::new(3),
                Pad::new(4), Pad::new(5), Pad::new(6), Pad::new(7),
                Pad::new(8), Pad::new(9), Pad::new(10), Pad::new(11),
                Pad::new(12), Pad::new(13), Pad::new(14), Pad::new(15),
                Pad::new(16), Pad::new(17), Pad::new(18), Pad::new(19),
                Pad::new(20), Pad::new(21), Pad::new(22), Pad::new(23),
                Pad::new(24), Pad::new(25), Pad::new(26), Pad::new(27),
                Pad::new(28), Pad::new(29), Pad::new(30), Pad::new(31),
            ],
        };
        assert(preset@.polyphony =~= Seq::new(8, |k: int| 0u8));
        preset
    }

    /// Gives each pad its MIDI key: with the bank layout, bank `b` (of four) starts at key
    /// `36 + 12 * b` and its eight pads take consecutive keys; otherwise the thirty-two pads
    /// take the keys 36 to 67 in order.
    pub fn assign_midi_keys(&mut self)
        ensures
            final(self)@ == old(self)@.with_midikeys(),
    {
        let ghost before = self@;
        if self.layout {
            let mut index: usize = 0;
            let mut bank: usize = 0;
            while bank < 4
                invariant
                    bank <= 4,
                    index == 8 * bank,
                    self.layout,
                    self@.polyphony == before.polyphony,
                    self@.volume == before.volume,
                    self@.velocity == before.velocity,
                    self@.layout == before.layout,
                    self@.pads.len() == PAD_COUNT,
                    before.pads.len() == PAD_COUNT,
                    forall|j: int| 0 <= j < index ==> #[trigger] self@.pads[j] == before.pads[j].with_midikey(midikey_for(true, j) as u8),
                    forall|j: int| index <= j < PAD_COUNT ==> #[trigger] self@.pads[j] == before.pads[j],
                decreases 4 - bank,
            {
                let mut midikey: u8 = 36 + 12 * (bank as u8);
                let mut k: usize = 0;
                while k < 8
                    invariant
                        bank < 4,
                        k <= 8,
                        index == 8 * bank + k,
                        midikey == 36 + 12 * bank + k,
                        self.layout,
                        self@.polyphony == before.polyphony,
                        self@.volume == before.volume,
                        self@.velocity == before.velocity,
                        self@.layout == before.layout,
                        self@.pads.len() == PAD_COUNT,
                        before.pads.len() == PAD_COUNT,
                        forall|j: int| 0 <= j < index ==> #[trigger] self@.pads[j] == before.pads[j].with_midikey(midikey_for(true, j) as u8),
                        forall|j: int| index <= j < PAD_COUNT ==> #[trigger] self@.pads[j] == before.pads[j],
                    decreases 8 - k,
                {
                    assert(midikey_for(true, index as int) == midikey) by {
                        assert((8 * bank + k) / 8 == bank) by (nonlinear_arith)
                            requires k < 8;
                        assert((8 * bank + k) % 8 == k) by (nonlinear_arith)
                            requires k < 8;
                    }
                    self.pads[index].midikey = midikey;
                    midikey += 1;
                    index += 1;
                    k += 1;
                }
                bank += 1;
            }
        } else {
            let mut midikey: u8 = 36;
            let mut i: usize = 0;
            while i < PAD_COUNT
                invariant
                    i <= PAD_COUNT,
                    midikey == 36 + i,
                    !self.layout,
                    self@.polyphony == before.polyphony,
                    self@.volume == before.volume,
                    self@.velocity == before.velocity,
                    self@.layout == before.layout,
                    self@.pads.len() == PAD_COUNT,
                    before.pads.len() == PAD_COUNT,
                    forall|j: int| 0 <= j < i ==> #[trigger] self@.pads[j] == before.pads[j].with_midikey(midikey_for(false, j) as u8),
                    forall|j: int| i <= j < PAD_COUNT ==> #[trigger] self@.pads[j] == before.pads[j],
                decreases PAD_COUNT - i,
            {
                self.pads[i].midikey = midikey;
                midikey += 1;
                i += 1;
            }
        }
        assert(self@.pads =~= before.with_midikeys().pads);
    }
}

/// After the keys are assigned, in either layout, no two pads share a MIDI key, and every
/// key lies between 36 and 103.
pub proof fn assigned_midikeys_are_distinct(layout: bool, i: int, j: int)
    requires
        0 <= i < PAD_COUNT,
        0 <= j < PAD_COUNT,
        i != j,
    ensures
        midikey_for(layout, i) != midikey_for(layout, j),
        36 <= midikey_for(layout, i) <= 103,
{
    if layout {
        assert(i == 8 * (i / 8) + i % 8);
        assert(j == 8 * (j / 8) + j % 8);
    }
}

} // verus!

verus! {

// ---------------------------------------------------------------------------------------
// Parameters

/// A per-pad setting that a parameter can name.
#[derive(Clone, Copy, Debug, PartialEq, Eq, Structural)]
pub enum PadParam {
    Pitch,
    Decay,
    Level,
    Pan,
    Output,
    Filter,
    Finetune,
    Gain,
    Mono,
    Speed,
    LoopMode,
    LoopRangeEnd,
    LoopRangeStart,
    PlayRangeEnd,
    PlayRangeStart,
    FadeIn,
    FadeOut,
}

/// The setting that a parameter id designates.
#[derive(Clone, Copy, Debug, PartialEq, Eq, Structural)]
pub enum ParamTarget {
    Volume,
    Velocity,
    Layout,
    /// The polyphony of one of the eight voice groups.
    Polyphony(usize),
    /// A setting of one pad.
    Pad(usize, PadParam),
    /// A parameter that the conversion does not use.
    Ignored,
}

/// The name by which parameter ids refer to the per-pad setting `f`.
pub open spec fn pad_param_name(f: PadParam) -> Seq<char> {
    match f {
        PadParam::Pitch => "pitch"@,
        PadParam::Decay => "decay"@,
        PadParam::Level => "level"@,
        PadParam::Pan => "pan"@,
        PadParam::Output => "output"@,
        PadParam::Filter => "filter"@,
        PadParam::Finetune => "finetune"@,
        PadParam::Gain => "gain"@,
        PadParam::Mono => "mono"@,
        PadParam::Speed => "speed"@,
        PadParam::LoopMode => "loop_mode"@,
        PadParam::LoopRangeEnd => "loop_range_end"@,
        PadParam::LoopRangeStart => "loop_range_start"@,
        PadParam::PlayRangeEnd => "play_range_end"@,
        PadParam::PlayRangeStart => "play_range_start"@,
        PadParam::FadeIn => "fade_in"@,
        PadParam::FadeOut => "fade_out"@,
    }
}

/// The per-pad setting that `name` (its UTF-8 bytes) designates.
pub open spec fn pad_param_named(name: Seq<u8>) -> Option<PadParam> {
    if name == utf8_of("pitch"@) {
        Some(PadParam::Pitch)
    } else if name == utf8_of("decay"@) {
        Some(PadParam::Decay)
    } else if name == utf8_of("level"@) {
        Some(PadParam::Level)
    } else if name == utf8_of("pan"@) {
        Some(PadParam::Pan)
    } else if name == utf8_of("output"@) {
        Some(PadParam::Output)
    } else if name == utf8_of("filter"@) {
        Some(PadParam::Filter)
    } else if name == utf8_of("finetune"@) {
        Some(PadParam::Finetune)
    } else if name == utf8_of("gain"@) {
        Some(PadParam::Gain)
    } else if name == utf8_of("mono"@) {
        Some(PadParam::Mono)
    } else if name == utf8_of("speed"@) {
        Some(PadParam::Speed)
    } else if name == utf8_of("loop_mode"@) {
        Some(PadParam::LoopMode)
    } else if name == utf8_of("loop_range_end"@) {
        Some(PadParam::LoopRangeEnd)
    } else if name == utf8_of("loop_range_start"@) {
        Some(PadParam::LoopRangeStart)
    } else if name == utf8_of("play_range_end"@) {
        Some(PadParam::PlayRangeEnd)
    } else if name == utf8_of("play_range_start"@) {
        Some(PadParam::PlayRangeStart)
    } else if name == utf8_of("fade_in"@) {
        Some(PadParam::FadeIn)
    } else if name == utf8_of("fade_out"@) {
        Some(PadParam::FadeOut)
    } else {
        None
    }
}

/// The part of `id` before the `'_'` at `k`.
pub open spec fn head_of(id: Seq<u8>, k: int) -> Seq<u8> {
    id.subrange(0, k)
}

/// The part of `id` after the `'_'` at `k`.
pub open spec fn tail_of(id: Seq<u8>, k: int) -> Seq<u8> {
    id.subrange(k + 1, id.len() as int)
}

/// The setting that a parameter id (its UTF-8 bytes) designates.
///
/// An id without `'_'` names a master setting: `volume`, `velocity` or `layout`. Otherwise
/// it is split at its first `'_'`: when the part after it is one byte long, that byte
/// (`'1'` to `'8'`) names a voice group's polyphony; else the part that is two bytes long,
/// the first if it is, names the pad and the other part the pad's setting.
pub open spec fn param_target(id: Seq<u8>) -> ParamTarget {
    match first_index_of(id, 0x5f) {
        None => master_target(id),
        Some(k) => split_target(head_of(id, k), tail_of(id, k)),
    }
}

/// The master setting that an id without `'_'` names.
pub open spec fn master_target(id: Seq<u8>) -> ParamTarget {
    if id == utf8_of("volume"@) {
        ParamTarget::Volume
    } else if id == utf8_of("velocity"@) {
        ParamTarget::Velocity
    } else if id == utf8_of("layout"@) {
        ParamTarget::Layout
    } else {
        ParamTarget::Ignored
    }
}

/// The setting that an id split at its first `'_'` into `a` and `b` names.
pub open spec fn split_target(a: Seq<u8>, b: Seq<u8>) -> ParamTarget {
    if b.len() == 1 {
        if b[0] - 0x31 < 8 {
            ParamTarget::Polyphony((b[0] - 0x31) as usize)
        } else {
            ParamTarget::Ignored
        }
    } else {
        let name = if a.len() == 2 { b } else { a };
        let pad_id = if a.len() == 2 { a } else { b };
        match pad_index_of(pad_id) {
            None => ParamTarget::Ignored,
            Some(i) => match pad_param_named(name) {
                Some(f) => ParamTarget::Pad(i as usize, f),
                None => ParamTarget::Ignored,
            },
        }
    }
}

/// Whether an id split at its first `'_'` into `a` and `b` is handled without a panic.
pub open spec fn split_is_safe(a: Seq<u8>, b: Seq<u8>) -> bool {
    if b.len() == 1 {
        b[0] >= 0x31
    } else {
        pad_id_lookup_is_safe(if a.len() == 2 { a } else { b })
    }
}

/// Whether handling a parameter with id `id` (its UTF-8 bytes) and a value completes
/// without a panic: a polyphony digit is not below `'1'`, and a pad id is looked up safely
/// and names one of the thirty-two pads.
pub open spec fn param_id_is_safe(id: Seq<u8>) -> bool {
    match first_index_of(id, 0x5f) {
        None => true,
        Some(k) => split_is_safe(head_of(id, k), tail_of(id, k)),
    }
}

fn pad_param_from_bytes(name: &[u8]) -> (r: Option<PadParam>)
    ensures
        r == pad_param_named(name@),
{
    if bytes_equal_str(name, "pitch") {
        Some(PadParam::Pitch)
    } else if bytes_equal_str(name, "decay") {
        Some(PadParam::Decay)
    } else if bytes_equal_str(name, "level") {
        Some(PadParam::Level)
    } else if bytes_equal_str(name, "pan") {
        Some(PadParam::Pan)
    } else if bytes_equal_str(name, "output") {
        Some(PadParam::Output)
    } else if bytes_equal_str(name, "filter") {
        Some(PadParam::Filter)
    } else if bytes_equal_str(name, "finetune") {
        Some(PadParam::Finetune)
    } else if bytes_equal_str(name, "gain") {
        Some(PadParam::Gain)
    } else if bytes_equal_str(name, "mono") {
        Some(PadParam::Mono)
    } else if bytes_equal_str(name, "speed") {
        Some(PadParam::Speed)
    } else if bytes_equal_str(name, "loop_mode") {
        Some(PadParam::LoopMode)
    } else if bytes_equal_str(name, "loop_range_end") {
        Some(PadParam::LoopRangeEnd)
    } else if bytes_equal_str(name, "loop_range_start") {
        Some(PadParam::LoopRangeStart)
    } else if bytes_equal_str(name, "play_range_end") {
        Some(PadParam::PlayRangeEnd)
    } else if bytes_equal_str(name, "play_range_start") {
        Some(PadParam::PlayRangeStart)
    } else if bytes_equal_str(name, "fade_in") {
        Some(PadParam::FadeIn)
    } else if bytes_equal_str(name, "fade_out") {
        Some(PadParam::FadeOut)
    } else {
        None
    }
}

fn master_target_from_bytes(id: &[u8]) -> (r: ParamTarget)
    ensures
        r == master_target(id@),
{
    if bytes_equal_str(id, "volume") {
        ParamTarget::Volume
    } else if bytes_equal_str(id, "velocity") {
        ParamTarget::Velocity
    } else if bytes_equal_str(id, "layout") {
        ParamTarget::Layout
    } else {
        ParamTarget::Ignored
    }
}

fn split_target_from_bytes(a: &[u8], b: &[u8]) -> (r: ParamTarget)
    requires
        split_is_safe(a@, b@),
    ensures
        r == split_target(a@, b@),
{
    if b.len() == 1 {
        let index = (b[0] - 0x31) as usize;
        if index < 8 {
            ParamTarget::Polyphony(index)
        } else {
            ParamTarget::Ignored
        }
    } else {
        let (name, pad_id) = if a.len() == 2 { (b, a) } else { (a, b) };
        match pad_index_from_bytes(pad_id) {
            None => ParamTarget::Ignored,
            Some(i) => match pad_param_from_bytes(name) {
                Some(f) => ParamTarget::Pad(i, f),
                None => ParamTarget::Ignored,
            },
        }
    }
}

/// The setting that the parameter id `id` designates.
pub fn classify_param_id(id: &str) -> (r: ParamTarget)
    requires
        param_id_is_safe(utf8_of(id@)),
    ensures
        r == param_target(utf8_of(id@)),
{
    let bytes = str_bytes(id);
    match find_byte(bytes, 0x5f) {
        None => master_target_from_bytes(bytes),
        Some(k) => {
            let a = &bytes[0..k];
            let b = &bytes[k + 1..bytes.len()];
            assert(a@ == head_of(bytes@, k as int));
            assert(b@ == tail_of(bytes@, k as int));
            split_target_from_bytes(a, b)
        },
    }
}

impl Pad {
    /// The same pad with the setting `f` taken from `v`: the real value itself, or for the
    /// pitch, decay and level fifteen times the value rounded, or for the other whole-number
    /// settings the value truncated.
    pub open spec fn with_param(self, f: PadParam, v: rx::ParamValue) -> Pad {
        match f {
            PadParam::Pitch => Pad { pitch: v.fifteenths, ..self },
            PadParam::Decay => Pad { decay: v.fifteenths, ..self },
            PadParam::Level => Pad { level: v.fifteenths, ..self },
            PadParam::Pan => Pad { pan: v.bits, ..self },
            PadParam::Output => Pad { output: truncated_u8(v.bits), ..self },
            PadParam::Filter => Pad { filter: truncated_u8(v.bits), ..self },
            PadParam::Finetune => Pad { finetune: v.bits, ..self },
            PadParam::Gain => Pad { gain: v.bits, ..self },
            PadParam::Mono => Pad { mono: truncated_u8(v.bits), ..self },
            PadParam::Speed => Pad { speed: truncated_u8(v.bits), ..self },
            PadParam::LoopMode => Pad { loop_mode: truncated_u8(v.bits), ..self },
            PadParam::LoopRangeEnd => Pad { loop_range_end: v.bits, ..self },
            PadParam::LoopRangeStart => Pad { loop_range_start: v.bits, ..self },
            PadParam::PlayRangeEnd => Pad { play_range_end: v.bits, ..self },
            PadParam::PlayRangeStart => Pad { play_range_start: v.bits, ..self },
            PadParam::FadeIn => Pad { fade_in: v.bits, ..self },
            PadParam::FadeOut => Pad { fade_out: v.bits, ..self },
        }
    }
}

impl PresetModel {
    /// These settings with the one that `target` designates taken from `v`.
    pub open spec fn with_target(self, target: ParamTarget, v: rx::ParamValue) -> PresetModel {
        match target {
            ParamTarget::Volume => PresetModel { volume: v.bits, ..self },
            ParamTarget::Velocity => PresetModel { velocity: v.bits, ..self },
            ParamTarget::Layout => PresetModel { layout: is_nonzero(v.bits), ..self },
            ParamTarget::Polyphony(k) => PresetModel {
                polyphony: self.polyphony.update(k as int, truncated_u8(v.bits)),
                ..self
            },
            ParamTarget::Pad(i, f) => self.with_pad(i as int, self.pads[i as int].with_param(f, v)),
            ParamTarget::Ignored => self,
        }
    }

    /// These settings after the parameter with id `id` (its UTF-8 bytes) and value `value`
    /// is read: a parameter without a value changes nothing.
    pub open spec fn with_param(self, id: Seq<u8>, value: Option<rx::ParamValue>) -> PresetModel {
        match value {
            None => self,
            Some(v) => self.with_target(param_target(id), v),
        }
    }
}

impl Preset {
    fn set_target(&mut self, target: ParamTarget, v: rx::ParamValue)
        requires
            target matches ParamTarget::Polyphony(k) ==> k < 8,
            target matches ParamTarget::Pad(i, _) ==> i < PAD_COUNT,
        ensures
            final(self)@ == old(self)@.with_target(target, v),
    {
        match target {
            ParamTarget::Volume => self.volume = v.bits,
            ParamTarget::Velocity => self.velocity = v.bits,
            ParamTarget::Layout => self.layout = float_is_nonzero(v.bits),
            ParamTarget::Polyphony(k) => self.polyphony[k] = float_to_u8(v.bits),
            ParamTarget::Pad(i, f) => match f {
                PadParam::Pitch => self.pads[i].pitch = v.fifteenths,
                PadParam::Decay => self.pads[i].decay = v.fifteenths,
                PadParam::Level => self.pads[i].level = v.fifteenths,
                PadParam::Pan => self.pads[i].pan = v.bits,
                PadParam::Output => self.pads[i].output = float_to_u8(v.bits),
                PadParam::Filter => self.pads[i].filter = float_to_u8(v.bits),
                PadParam::Finetune => self.pads[i].finetune = v.bits,
                PadParam::Gain => self.pads[i].gain = v.bits,
                PadParam::Mono => self.pads[i].mono = float_to_u8(v.bits),
                PadParam::Speed => self.pads[i].speed = float_to_u8(v.bits),
                PadParam::LoopMode => self.pads[i].loop_mode = float_to_u8(v.bits),
                PadParam::LoopRangeEnd => self.pads[i].loop_range_end = v.bits,
                PadParam::LoopRangeStart => self.pads[i].loop_range_start = v.bits,
                PadParam::PlayRangeEnd => self.pads[i].play_range_end = v.bits,
                PadParam::PlayRangeStart => self.pads[i].play_range_start = v.bits,
                PadParam::FadeIn => self.pads[i].fade_in = v.bits,
                PadParam::FadeOut => self.pads[i].fade_out = v.bits,
            },
            ParamTarget::Ignored => {},
        }
        assert(self@.polyphony =~= old(self)@.with_target(target, v).polyphony);
        assert(self@.pads =~= old(self)@.with_target(target, v).pads);
    }
}

/// Reads one parameter into the preset: a master setting, a voice group's polyphony, or
/// a pad's setting, as its id designates; a parameter without a value, or one that the
/// conversion does not use, changes nothing.
pub fn process_param_tag(param: &rx::Param, intermediate_preset: &mut Preset)
    requires
        param.value is Some ==> param_id_is_safe(utf8_of(param.id@)),
    ensures
        final(intermediate_preset)@ == old(intermediate_preset)@.with_param(
            utf8_of(param.id@),
            param.value,
        ),
{
    let value = match param.value {
        Some(v) => v,
        None => return,
    };
    let target = classify_param_id(param.id.as_str());
    proof {
        param_targets_exist(utf8_of(param.id@));
    }
    intermediate_preset.set_target(target, value);
}

} // verus!

verus! {

// ---------------------------------------------------------------------------------------
// Samples

/// Where a sample's audio file is, once it is looked up on disk.
pub struct ResolvedPath {
    /// The file's canonical path, or the path as the preset gives it where the lookup
    /// failed.
    pub path: String,
    /// Whether the lookup succeeded.
    pub canonical: bool,
}

/// The folder that a sample reference is relative to.
#[derive(Clone, Copy, Debug, PartialEq, Eq, Structural)]
pub enum LocationKind {
    /// The RX1200 folder under the machine-wide program data folder.
    CommonData,
    /// The RX1200 folder under the user's application data folder.
    UserData,
    /// None: the reference is a path of its own.
    Direct,
}

/// The file that a sample reference points to, before it is looked up.
pub struct SampleLocation {
    pub kind: LocationKind,
    pub relative: String,
}

/// The folder that a reference of type `ref_type` (its UTF-8 bytes) is relative to.
pub open spec fn location_kind(ref_type: Seq<u8>) -> LocationKind {
    if ref_type == utf8_of("productCommonData"@) {
        LocationKind::CommonData
    } else if ref_type == utf8_of("productUserData"@) {
        LocationKind::UserData
    } else {
        LocationKind::Direct
    }
}

/// Whether reading `s` touches its pad without a panic.
pub open spec fn sample_is_safe(s: rx::Sample) -> bool {
    pad_id_lookup_is_safe(utf8_of(s.id@))
}

/// Whether reading `s` looks its audio file up: it names a pad and carries a reference.
pub open spec fn sample_needs_path(s: rx::Sample) -> bool {
    &&& pad_index_of(utf8_of(s.id@)) is Some
    &&& s.references matches Some(refs)
    &&& refs.reference is Some
}

impl Pad {
    /// This pad after it reads the sample `s`, whose file was looked up as `r`: a sample
    /// without a reference leaves the pad inactive; otherwise the pad takes the file's path
    /// (and becomes inactive where the lookup failed) and the sample's direction, gain and
    /// bounds.
    pub open spec fn with_sample(self, s: rx::Sample, r: Option<ResolvedPath>) -> Pad {
        match s.references {
            None => Pad { inactive: true, ..self },
            Some(refs) => match refs.reference {
                None => Pad { inactive: true, ..self },
                Some(_) => match r {
                    Some(res) => Pad {
                        inactive: self.inactive || !res.canonical,
                        sample_path: res.path,
                        sample_reversed: s.reversed,
                        sample_gain: s.gain,
                        sample_start: s.start,
                        sample_end: s.end,
                        ..self
                    },
                    None => self,
                },
            },
        }
    }
}

impl PresetModel {
    /// These settings after the sample `s` is read, its file looked up as `r`: a sample
    /// whose id names no pad changes nothing.
    pub open spec fn with_sample(self, s: rx::Sample, r: Option<ResolvedPath>) -> PresetModel {
        match pad_index_of(utf8_of(s.id@)) {
            None => self,
            Some(i) => self.with_pad(i, self.pads[i].with_sample(s, r)),
        }
    }

    /// These settings after the first `n` samples of `items` are read in order, the `k`-th
    /// one's file looked up as `resolved[k]`.
    pub open spec fn with_samples(
        self,
        items: Seq<rx::Sample>,
        resolved: Seq<Option<ResolvedPath>>,
        n: int,
    ) -> PresetModel
        decreases n,
    {
        if n <= 0 {
            self
        } else {
            self.with_samples(items, resolved, n - 1).with_sample(items[n - 1], resolved[n - 1])
        }
    }
}

/// Where the file that `sample` refers to is to be looked up: `None` where its id names
/// no pad or it carries no reference.
pub fn sample_location(sample: &rx::Sample) -> (r: Option<SampleLocation>)
    requires
        sample_is_safe(*sample),
    ensures
        r is Some <==> sample_needs_path(*sample),
        r matches Some(loc) ==> {
            let reference = sample.references.unwrap().reference.unwrap();
            &&& loc.kind == location_kind(utf8_of(reference.ref_type@))
            &&& loc.relative@ == reference.value@
        },
{
    if pad_index_from_bytes(str_bytes(sample.id.as_str())).is_none() {
        return None;
    }
    match &sample.references {
        None => None,
        Some(references) => match &references.reference {
            None => None,
            Some(reference) => {
                let ref_type = str_bytes(reference.ref_type.as_str());
                let kind = if bytes_equal_str(ref_type, "productCommonData") {
                    LocationKind::CommonData
                } else if bytes_equal_str(ref_type, "productUserData") {
                    LocationKind::UserData
                } else {
                    LocationKind::Direct
                };
                Some(SampleLocation { kind, relative: reference.value.clone() })
            },
        },
    }
}

/// The path of `relative` within the RX1200 folder of the data folder `folder`.
pub fn rx1200_data_path(folder: &str, relative: &str) -> (r: String)
    ensures
        r@ == folder@ + "\\Inphonik\\RX1200"@ + relative@,
{
    let mut path = folder.to_owned();
    path.append("\\Inphonik\\RX1200");
    path.append(relative);
    path
}

/// Reads a list of samples into the pads that their ids name, in order; the `k`-th
/// sample's file was looked up as `resolved[k]`.
pub fn process_samples_container(
    samples: &rx::Samples,
    resolved: Vec<Option<ResolvedPath>>,
    intermediate_preset: &mut Preset,
)
    requires
        resolved.len() == samples.items.len(),
        forall|k: int| 0 <= k < samples.items.len() ==> sample_is_safe(#[trigger] samples.items@[k]),
        forall|k: int|
            0 <= k < samples.items.len() && sample_needs_path(#[trigger] samples.items@[k])
                ==> resolved@[k] is Some,
    ensures
        final(intermediate_preset)@ == old(intermediate_preset)@.with_samples(
            samples.items@,
            resolved@,
            samples.items.len() as int,
        ),
{
    let ghost before = intermediate_preset@;
    let ghost orig = resolved@;
    let mut resolved = resolved;
    let n = samples.items.len();
    let mut k: usize = 0;
    while k < n
        invariant
            k <= n,
            n == samples.items.len(),
            resolved.len() == n,
            orig.len() == n,
            forall|j: int| k <= j < n ==> #[trigger] resolved@[j] == orig[j],
            forall|j: int| 0 <= j < n ==> sample_is_safe(#[trigger] samples.items@[j]),
            forall|j: int| 0 <= j < n && sample_needs_path(#[trigger] samples.items@[j]) ==> orig[j] is Some,
            intermediate_preset@ == before.with_samples(samples.items@, orig, k as int),
            intermediate_preset@.pads.len() == PAD_COUNT,
        decreases n - k,
    {
        let sample = &samples.items[k];
        let r = resolved[k].take();
        assert(r == orig[k as int]);
        let ghost prev = intermediate_preset@;
        match pad_index_from_bytes(str_bytes(sample.id.as_str())) {
            None => {},
            Some(i) => {
                match &sample.references {
                    None => intermediate_preset.pads[i].inactive = true,
                    Some(references) => match &references.reference {
                        None => intermediate_preset.pads[i].inactive = true,
                        Some(_) => match r {
                            Some(res) => {
                                if !res.canonical {
                                    intermediate_preset.pads[i].inactive = true;
                                }
                                intermediate_preset.pads[i].sample_path = res.path;
                                intermediate_preset.pads[i].sample_reversed = sample.reversed;
                                intermediate_preset.pads[i].sample_gain = sample.gain;
                                intermediate_preset.pads[i].sample_start = sample.start;
                                intermediate_preset.pads[i].sample_end = sample.end;
                            },
                            None => {},
                        },
                    },
                }
                assert(intermediate_preset@.pads =~= prev.with_sample(*sample, orig[k as int]).pads);
            },
        }
        k += 1;
    }
}

// ---------------------------------------------------------------------------------------
// Interface parameters

/// Whether reading the interface parameter `p` completes without a panic: where its id
/// holds a `'_'` and it has a value, the part after the `'_'` is looked up safely and
/// names one of the thirty-two pads.
pub open spec fn gui_param_is_safe(p: rx::Param) -> bool {
    match first_index_of(utf8_of(p.id@), 0x5f) {
        None => true,
        Some(k) => p.value is Some ==> pad_id_lookup_is_safe(tail_of(utf8_of(p.id@), k)),
    }
}

impl PresetModel {
    /// These settings after the interface parameter `p` is read: where its id is split
    /// at its first `'_'`, the part after it names a pad, and the parameter has a value,
    /// that pad's color becomes seven times the value, rounded.
    pub open spec fn with_gui_param(self, p: rx::Param) -> PresetModel {
        match first_index_of(utf8_of(p.id@), 0x5f) {
            None => self,
            Some(k) => match p.value {
                None => self,
                Some(v) => match pad_index_of(tail_of(utf8_of(p.id@), k)) {
                    None => self,
                    Some(i) => self.with_pad(i, Pad { color: v.sevenths, ..self.pads[i] }),
                },
            },
        }
    }

    /// These settings after the first `n` interface parameters of `params` are read.
    pub open spec fn with_gui_params(self, params: Seq<rx::Param>, n: int) -> PresetModel
        decreases n,
    {
        if n <= 0 {
            self
        } else {
            self.with_gui_params(params, n - 1).with_gui_param(params[n - 1])
        }
    }
}

/// Reads the interface parameters, in order: each one that names a pad and has a value
/// sets that pad's color.
pub fn process_gui_container(rx_gui: &rx::Gui, preset: &mut Preset)
    requires
        forall|k: int| 0 <= k < rx_gui.params.len() ==> gui_param_is_safe(#[trigger] rx_gui.params@[k]),
    ensures
        final(preset)@ == old(preset)@.with_gui_params(rx_gui.params@, rx_gui.params.len() as int),
{
    let ghost before = preset@;
    let n = rx_gui.params.len();
    let mut k: usize = 0;
    while k < n
        invariant
            k <= n,
            n == rx_gui.params.len(),
            forall|j: int| 0 <= j < n ==> gui_param_is_safe(#[trigger] rx_gui.params@[j]),
            preset@ == before.with_gui_params(rx_gui.params@, k as int),
            preset@.pads.len() == PAD_COUNT,
        decreases n - k,
    {
        let g = &rx_gui.params[k];
        let ghost prev = preset@;
        let id = str_bytes(g.id.as_str());
        if let Some(u) = find_byte(id, 0x5f) {
            if let Some(value) = g.value {
                let pad_id = &id[u + 1..id.len()];
                assert(pad_id@ == tail_of(id@, u as int));
                if let Some(pad_index) = pad_index_from_bytes(pad_id) {
                    preset.pads[pad_index].color = value.sevenths;
                    assert(preset@.pads =~= prev.with_gui_param(*g).pads);
                }
            }
        }
        k += 1;
    }
}

// ---------------------------------------------------------------------------------------
// Whole presets

/// Whether reading `tag` completes without a panic, the files of its samples (if any)
/// looked up as `resolved`.
pub open spec fn tag_is_safe(tag: rx::Tag, resolved: Seq<Option<ResolvedPath>>) -> bool {
    match tag {
        rx::Tag::Param(p) => p.value is Some ==> param_id_is_safe(utf8_of(p.id@)),
        rx::Tag::Samples(s) => {
            &&& resolved.len() == s.items.len()
            &&& forall|k: int| 0 <= k < s.items.len() ==> sample_is_safe(#[trigger] s.items@[k])
            &&& forall|k: int|
                0 <= k < s.items.len() && sample_needs_path(#[trigger] s.items@[k])
                    ==> resolved[k] is Some
        },
        rx::Tag::Gui(g) => forall|k: int|
            0 <= k < g.params.len() ==> gui_param_is_safe(#[trigger] g.params@[k]),
    }
}

impl PresetModel {
    /// These settings after `tag` is read, the files of its samples looked up as
    /// `resolved`.
    pub open spec fn with_tag(self, tag: rx::Tag, resolved: Seq<Option<ResolvedPath>>) -> PresetModel {
        match tag {
            rx::Tag::Param(p) => self.with_param(utf8_of(p.id@), p.value),
            rx::Tag::Samples(s) => self.with_samples(s.items@, resolved, s.items.len() as int),
            rx::Tag::Gui(g) => self.with_gui_params(g.params@, g.params.len() as int),
        }
    }

    /// These settings after the first `n` tags are read in order, the files of the `k`-th
    /// tag's samples looked up as `resolved[k]`.
    pub open spec fn with_tags(
        self,
        tags: Seq<rx::Tag>,
        resolved: Seq<Vec<Option<ResolvedPath>>>,
        n: int,
    ) -> PresetModel
        decreases n,
    {
        if n <= 0 {
            self
        } else {
            self.with_tags(tags, resolved, n - 1).with_tag(tags[n - 1], resolved[n - 1]@)
        }
    }
}

impl Preset {
    /// Reads a preset's tags into these settings, in file order. `resolved[k]` holds, for
    /// each sample of the `k`-th tag, where its file was found (empty for other tags).
    pub fn read_tags(&mut self, tags: &Vec<rx::Tag>, resolved: Vec<Vec<Option<ResolvedPath>>>)
        requires
            resolved.len() == tags.len(),
            forall|k: int| 0 <= k < tags.len() ==> tag_is_safe(#[trigger] tags@[k], resolved@[k]@),
        ensures
            final(self)@ == old(self)@.with_tags(tags@, resolved@, tags.len() as int),
    {
        let ghost before = self@;
        let ghost orig = resolved@;
        let mut resolved = resolved;
        let n = tags.len();
        let mut k: usize = 0;
        while k < n
            invariant
                k <= n,
                n == tags.len(),
                resolved.len() == n,
                orig.len() == n,
                forall|j: int| k <= j < n ==> #[trigger] resolved@[j] == orig[j],
                forall|j: int| 0 <= j < n ==> tag_is_safe(#[trigger] tags@[j], orig[j]@),
                self@ == before.with_tags(tags@, orig, k as int),
                self@.pads.len() == PAD_COUNT,
            decreases n - k,
        {
            let mut r: Vec<Option<ResolvedPath>> = Vec::new();
            std::mem::swap(&mut r, &mut resolved[k]);
            assert(r == orig[k as int]);
            assert(tag_is_safe(tags@[k as int], orig[k as int]@));
            match &tags[k] {
                rx::Tag::Param(param) => process_param_tag(param, self),
                rx::Tag::Samples(samples) => process_samples_container(samples, r, self),
                rx::Tag::Gui(gui) => process_gui_container(gui, self),
            }
            k += 1;
        }
    }
}

} // verus!

verus! {

/// Assigning the MIDI keys a second time changes nothing.
pub proof fn midikeys_assignment_is_idempotent(m: PresetModel)
    ensures
        m.with_midikeys().with_midikeys() == m.with_midikeys(),
{
    assert(m.with_midikeys().with_midikeys().pads =~= m.with_midikeys().pads);
}

/// The pads of a new preset already hold the keys of the consecutive layout, which a new
/// preset has: assigning the keys to a new preset changes nothing.
pub proof fn initial_pads_hold_their_keys(m: PresetModel)
    requires
        m.is_initial(),
    ensures
        m.with_midikeys() == m,
{
    assert forall|i: int| 0 <= i < PAD_COUNT implies #[trigger] m.with_midikeys().pads[i] == m.pads[i] by {
        assert(m.pads[i].is_initial(i));
    }
    assert(m.with_midikeys().pads =~= m.pads);
}

} // verus!

verus! {

// ---------------------------------------------------------------------------------------
// Tests that callers make before reading a preset

fn pad_id_bytes_are_safe(id: &[u8]) -> (r: bool)
    ensures
        r == pad_id_is_safe(id@),
{
    if id.len() == 2 {
        id[0] >= 0x61 && id[1] >= 0x31
    } else if id.len() == 0 {
        false
    } else if 0x61 <= id[0] && id[0] <= 0x64 {
        id.len() >= 2 && id[1] >= 0x31
    } else if id.len() < 2 {
        false
    } else if 0x31 <= id[1] && id[1] <= 0x38 {
        id[0] >= 0x61
    } else {
        true
    }
}

fn pad_lookup_is_safe(id: &[u8]) -> (r: bool)
    ensures
        r == pad_id_lookup_is_safe(id@),
{
    if !pad_id_bytes_are_safe(id) {
        return false;
    }
    match pad_index_from_bytes(id) {
        Some(i) => i < PAD_COUNT,
        None => true,
    }
}

/// Whether `pad_id_to_index` can look `pad_id` up without a panic.
pub fn pad_id_is_readable(pad_id: &str) -> (r: bool)
    ensures
        r == pad_id_is_safe(utf8_of(pad_id@)),
{
    pad_id_bytes_are_safe(str_bytes(pad_id))
}

/// Whether `classify_param_id` can classify `id` without a panic.
pub fn param_id_is_readable(id: &str) -> (r: bool)
    ensures
        r == param_id_is_safe(utf8_of(id@)),
{
    let bytes = str_bytes(id);
    match find_byte(bytes, 0x5f) {
        None => true,
        Some(k) => {
            let a = &bytes[0..k];
            let b = &bytes[k + 1..bytes.len()];
            assert(a@ == head_of(bytes@, k as int));
            assert(b@ == tail_of(bytes@, k as int));
            if b.len() == 1 {
                b[0] >= 0x31
            } else {
                pad_lookup_is_safe(if a.len() == 2 { a } else { b })
            }
        },
    }
}

/// Whether reading `sample` touches its pad without a panic.
pub fn sample_is_readable(sample: &rx::Sample) -> (r: bool)
    ensures
        r == sample_is_safe(*sample),
{
    pad_lookup_is_safe(str_bytes(sample.id.as_str()))
}

/// Whether `process_param_tag` can read `param` without a panic.
pub fn param_is_readable(param: &rx::Param) -> (r: bool)
    ensures
        r == (param.value is Some ==> param_id_is_safe(utf8_of(param.id@))),
{
    param.value.is_none() || param_id_is_readable(param.id.as_str())
}

/// Whether reading the interface parameter `param` completes without a panic.
pub fn gui_param_is_readable(param: &rx::Param) -> (r: bool)
    ensures
        r == gui_param_is_safe(*param),
{
    let id = str_bytes(param.id.as_str());
    match find_byte(id, 0x5f) {
        None => true,
        Some(k) => {
            if param.value.is_none() {
                return true;
            }
            let b = &id[k + 1..id.len()];
            assert(b@ == tail_of(id@, k as int));
            pad_lookup_is_safe(b)
        },
    }
}

/// Whether `read_tags` can read `tag`, the files of its samples looked up as `resolved`,
/// without a panic.
pub fn tag_is_readable(tag: &rx::Tag, resolved: &Vec<Option<ResolvedPath>>) -> (r: bool)
    ensures
        r == tag_is_safe(*tag, resolved@),
{
    match tag {
        rx::Tag::Param(param) => param_is_readable(param),
        rx::Tag::Samples(samples) => samples_are_readable(samples, resolved),
        rx::Tag::Gui(gui) => gui_params_are_readable(gui),
    }
}

/// Whether `process_samples_container` can read `samples`, their files looked up as
/// `resolved`, without a panic.
pub fn samples_are_readable(samples: &rx::Samples, resolved: &Vec<Option<ResolvedPath>>) -> (r: bool)
    ensures
        r == (resolved.len() == samples.items.len() && (forall|k: int|
            0 <= k < samples.items.len() ==> sample_is_safe(#[trigger] samples.items@[k]))
            && (forall|k: int|
            0 <= k < samples.items.len() && sample_needs_path(#[trigger] samples.items@[k])
                ==> resolved@[k] is Some)),
{
    if resolved.len() != samples.items.len() {
        return false;
    }
    let n = samples.items.len();
    let mut k: usize = 0;
    while k < n
        invariant
            k <= n,
            n == samples.items.len(),
            resolved.len() == n,
            forall|j: int| 0 <= j < k ==> sample_is_safe(#[trigger] samples.items@[j]),
            forall|j: int|
                0 <= j < k && sample_needs_path(#[trigger] samples.items@[j])
                    ==> resolved@[j] is Some,
        decreases n - k,
    {
        if !sample_is_readable(&samples.items[k]) {
            assert(!sample_is_safe(samples.items@[k as int]));
            return false;
        }
        let needs = sample_location(&samples.items[k]).is_some();
        if needs && resolved[k].is_none() {
            assert(sample_needs_path(samples.items@[k as int]));
            return false;
        }
        k += 1;
    }
    true
}

/// Whether `process_gui_container` can read `gui` without a panic.
pub fn gui_params_are_readable(gui: &rx::Gui) -> (r: bool)
    ensures
        r == forall|k: int| 0 <= k < gui.params.len() ==> gui_param_is_safe(#[trigger] gui.params@[k]),
{
    let n = gui.params.len();
    let mut k: usize = 0;
    while k < n
        invariant
            k <= n,
            n == gui.params.len(),
            forall|j: int| 0 <= j < k ==> gui_param_is_safe(#[trigger] gui.params@[j]),
        decreases n - k,
    {
        if !gui_param_is_readable(&gui.params[k]) {
            assert(!gui_param_is_safe(gui.params@[k as int]));
            return false;
        }
        k += 1;
    }
    true
}

/// Whether `read_tags` can read `tags`, the files of the `k`-th tag's samples looked up
/// as `resolved[k]`, without a panic.
pub fn tags_are_readable(tags: &Vec<rx::Tag>, resolved: &Vec<Vec<Option<ResolvedPath>>>) -> (r: bool)
    ensures
        r == (resolved.len() == tags.len() && forall|k: int|
            0 <= k < tags.len() ==> tag_is_safe(#[trigger] tags@[k], resolved@[k]@)),
{
    if resolved.len() != tags.len() {
        return false;
    }
    let n = tags.len();
    let mut k: usize = 0;
    while k < n
        invariant
            k <= n,
            n == tags.len(),
            resolved.len() == n,
            forall|j: int| 0 <= j < k ==> tag_is_safe(#[trigger] tags@[j], resolved@[j]@),
        decreases n - k,
    {
        if !tag_is_readable(&tags[k], &resolved[k]) {
            assert(!tag_is_safe(tags@[k as int], resolved@[k as int]@));
            return false;
        }
        k += 1;
    }
    true
}

} // verus!

verus! {

/// The setting that a parameter id designates exists: a voice group below eight, a pad
/// below thirty-two.
pub proof fn param_targets_exist(id: Seq<u8>)
    requires
        param_id_is_safe(id),
    ensures
        param_target(id) matches ParamTarget::Polyphony(k) ==> k < 8,
        param_target(id) matches ParamTarget::Pad(i, _) ==> i < PAD_COUNT,
{
    if let Some(k) = first_index_of(id, 0x5f) {
        let a = head_of(id, k);
        let b = tail_of(id, k);
        if b.len() != 1 {
            assert(pad_id_lookup_is_safe(if a.len() == 2 { a } else { b }));
        }
    }
}

proof fn setting_a_target_twice_is_setting_it_once(m: PresetModel, t: ParamTarget, v: rx::ParamValue)
    requires
        m.pads.len() == PAD_COUNT,
        m.polyphony.len() == 8,
        t matches ParamTarget::Polyphony(k) ==> k < 8,
        t matches ParamTarget::Pad(i, _) ==> i < PAD_COUNT,
    ensures
        m.with_target(t, v).with_target(t, v) == m.with_target(t, v),
{
    let once = m.with_target(t, v);
    let twice = once.with_target(t, v);
    match t {
        ParamTarget::Pad(i, f) => {
            assert(twice.pads =~= once.pads);
        },
        ParamTarget::Polyphony(k) => {
            assert(twice.polyphony =~= once.polyphony);
        },
        _ => {},
    }
}

/// Reading the same parameter twice leaves the settings as reading it once does.
pub proof fn reading_a_parameter_twice_is_reading_it_once(
    m: PresetModel,
    id: Seq<u8>,
    value: Option<rx::ParamValue>,
)
    requires
        m.pads.len() == PAD_COUNT,
        m.polyphony.len() == 8,
        value is Some ==> param_id_is_safe(id),
    ensures
        m.with_param(id, value).with_param(id, value) == m.with_param(id, value),
{
    if let Some(v) = value {
        param_targets_exist(id);
        setting_a_target_twice_is_setting_it_once(m, param_target(id), v);
    }
}

} // verus!

verus! {

/// The UTF-8 bytes of an ASCII string are its characters' codes.
proof fn ascii_name_bytes(s: Seq<char>)
    requires
        is_ascii_chars(s),
    ensures
        utf8_of(s).len() == s.len(),
        forall|k: int| 0 <= k < s.len() ==> #[trigger] utf8_of(s)[k] == s[k] as u8,
{
    crate::text::utf8_of_ascii(s);
}

/// Each per-pad setting is designated by its own name and by no other: `"play_range_start"`
/// designates the start of the play range, `"play_range_end"` its end, and so on for
/// every setting.
pub proof fn each_setting_name_designates_that_setting(f: PadParam)
    ensures
        pad_param_named(utf8_of(pad_param_name(f))) == Some(f),
        utf8_of(pad_param_name(f)).len() >= 3,
{
    reveal_strlit("pitch");
    reveal_strlit("decay");
    reveal_strlit("level");
    reveal_strlit("pan");
    reveal_strlit("output");
    reveal_strlit("filter");
    reveal_strlit("finetune");
    reveal_strlit("gain");
    reveal_strlit("mono");
    reveal_strlit("speed");
    reveal_strlit("loop_mode");
    reveal_strlit("loop_range_end");
    reveal_strlit("loop_range_start");
    reveal_strlit("play_range_end");
    reveal_strlit("play_range_start");
    reveal_strlit("fade_in");
    reveal_strlit("fade_out");
    ascii_name_bytes("pitch"@);
    ascii_name_bytes("decay"@);
    ascii_name_bytes("level"@);
    ascii_name_bytes("pan"@);
    ascii_name_bytes("output"@);
    ascii_name_bytes("filter"@);
    ascii_name_bytes("finetune"@);
    ascii_name_bytes("gain"@);
    ascii_name_bytes("mono"@);
    ascii_name_bytes("speed"@);
    ascii_name_bytes("loop_mode"@);
    ascii_name_bytes("loop_range_end"@);
    ascii_name_bytes("loop_range_start"@);
    ascii_name_bytes("play_range_end"@);
    ascii_name_bytes("play_range_start"@);
    ascii_name_bytes("fade_in"@);
    ascii_name_bytes("fade_out"@);
    assert(utf8_of("pitch"@)[0] == 'p' as u8 && utf8_of("pitch"@)[1] == 'i' as u8);
    assert(utf8_of("decay"@)[0] == 'd' as u8 && utf8_of("decay"@)[1] == 'e' as u8);
    assert(utf8_of("level"@)[0] == 'l' as u8 && utf8_of("level"@)[1] == 'e' as u8);
    assert(utf8_of("pan"@)[0] == 'p' as u8 && utf8_of("pan"@)[1] == 'a' as u8);
    assert(utf8_of("output"@)[0] == 'o' as u8 && utf8_of("output"@)[1] == 'u' as u8);
    assert(utf8_of("filter"@)[0] == 'f' as u8 && utf8_of("filter"@)[1] == 'i' as u8);
    assert(utf8_of("finetune"@)[0] == 'f' as u8 && utf8_of("finetune"@)[1] == 'i' as u8);
    assert(utf8_of("gain"@)[0] == 'g' as u8 && utf8_of("gain"@)[1] == 'a' as u8);
    assert(utf8_of("mono"@)[0] == 'm' as u8 && utf8_of("mono"@)[1] == 'o' as u8);
    assert(utf8_of("speed"@)[0] == 's' as u8 && utf8_of("speed"@)[1] == 'p' as u8);
    assert(utf8_of("loop_mode"@)[0] == 'l' as u8 && utf8_of("loop_mode"@)[1] == 'o' as u8);
    assert(utf8_of("loop_range_end"@)[0] == 'l' as u8 && utf8_of("loop_range_end"@)[1] == 'o' as u8);
    assert(utf8_of("loop_range_start"@)[0] == 'l' as u8 && utf8_of("loop_range_start"@)[1] == 'o' as u8);
    assert(utf8_of("play_range_end"@)[0] == 'p' as u8 && utf8_of("play_range_end"@)[1] == 'l' as u8);
    assert(utf8_of("play_range_start"@)[0] == 'p' as u8 && utf8_of("play_range_start"@)[1] == 'l' as u8);
    assert(utf8_of("fade_in"@)[0] == 'f' as u8 && utf8_of("fade_in"@)[1] == 'a' as u8);
    assert(utf8_of("fade_out"@)[0] == 'f' as u8 && utf8_of("fade_out"@)[1] == 'a' as u8);
}

} // verus!

verus! {

/// The id made of pad `i`'s id, `'_'` and the name of setting `f` designates that setting
/// of that pad, and is read without a panic.
#[verifier::spinoff_prover]
proof fn a_pad_parameter_id_designates_its_setting(i: int, f: PadParam)
    requires
        0 <= i < PAD_COUNT,
    ensures
        param_id_is_safe(pad_id_of(i) + seq![0x5fu8] + utf8_of(pad_param_name(f))),
        param_target(pad_id_of(i) + seq![0x5fu8] + utf8_of(pad_param_name(f)))
            == ParamTarget::Pad(i as usize, f),
{
    let name = utf8_of(pad_param_name(f));
    each_setting_name_designates_that_setting(f);
    pad_ids_name_their_pads(i);
    assert(forall|j: int| 0 <= j < 2 ==> #[trigger] pad_id_of(i)[j] != 0x5fu8);
    splits_at_the_first_underscore(pad_id_of(i), name);
    assert(split_target(pad_id_of(i), name) == ParamTarget::Pad(i as usize, f));
    assert(split_is_safe(pad_id_of(i), name));
}

/// Reading the parameter whose id is a pad's id, `'_'` and a setting's name (such as
/// `a1_play_range_start`) sets that setting of that pad from the value and nothing else:
/// the play and loop range bounds are taken as they are, each into its own field.
#[verifier::spinoff_prover]
pub proof fn a_pad_parameter_sets_the_setting_it_names(
    m: PresetModel,
    i: int,
    f: PadParam,
    v: rx::ParamValue,
)
    requires
        m.pads.len() == PAD_COUNT,
        0 <= i < PAD_COUNT,
    ensures
        ({
            let id = pad_id_of(i) + seq![0x5fu8] + utf8_of(pad_param_name(f));
            let after = m.with_param(id, Some(v));
            &&& param_id_is_safe(id)
            &&& param_target(id) == ParamTarget::Pad(i as usize, f)
            &&& after == m.with_pad(i, m.pads[i].with_param(f, v))
            &&& f == PadParam::PlayRangeStart ==> after.pads[i].play_range_start == v.bits
                && after.pads[i].play_range_end == m.pads[i].play_range_end
            &&& f == PadParam::PlayRangeEnd ==> after.pads[i].play_range_end == v.bits
                && after.pads[i].play_range_start == m.pads[i].play_range_start
            &&& f == PadParam::LoopRangeStart ==> after.pads[i].loop_range_start == v.bits
                && after.pads[i].loop_range_end == m.pads[i].loop_range_end
            &&& f == PadParam::LoopRangeEnd ==> after.pads[i].loop_range_end == v.bits
                && after.pads[i].loop_range_start == m.pads[i].loop_range_start
        }),
{
    a_pad_parameter_id_designates_its_setting(i, f);
}

/// Reading a sample that carries a file reference, its file found as `res`, gives the pad
/// that the sample's id names the sample's direction, gain, start and end and the file's
/// path; that pad becomes inactive where it was or where the path is not the file's
/// canonical one, and keeps its other settings. A sample without a reference leaves its pad
/// inactive and otherwise as it was. The other pads and the master settings stay as they
/// were.
pub proof fn a_sample_sets_the_pad_it_names(
    m: PresetModel,
    s: rx::Sample,
    r: Option<ResolvedPath>,
    i: int,
)
    requires
        m.pads.len() == PAD_COUNT,
        0 <= i < PAD_COUNT,
        utf8_of(s.id@) == pad_id_of(i),
    ensures
        ({
            let after = m.with_sample(s, r);
            let p = after.pads[i];
            let q = m.pads[i];
            &&& after.pads.len() == PAD_COUNT
            &&& after.polyphony == m.polyphony
            &&& after.volume == m.volume
            &&& after.velocity == m.velocity
            &&& after.layout == m.layout
            &&& forall|j: int| 0 <= j < PAD_COUNT && j != i ==> #[trigger] after.pads[j] == m.pads[j]
            &&& (s.references matches Some(refs) && refs.reference is Some) && r is Some ==> {
                &&& p.sample_reversed == s.reversed
                &&& p.sample_gain == s.gain
                &&& p.sample_start == s.start
                &&& p.sample_end == s.end
                &&& p.sample_path == r.unwrap().path
                &&& p.inactive == (q.inactive || !r.unwrap().canonical)
                &&& (Pad {
                    inactive: q.inactive,
                    sample_path: q.sample_path,
                    sample_reversed: q.sample_reversed,
                    sample_gain: q.sample_gain,
                    sample_start: q.sample_start,
                    sample_end: q.sample_end,
                    ..p
                }) == q
            }
            &&& !(s.references matches Some(refs) && refs.reference is Some) ==> {
                &&& p.inactive
                &&& (Pad { inactive: q.inactive, ..p }) == q
            }
        }),
{
    pad_ids_name_their_pads(i);
}

/// With the bank layout the pads take keys from 36 up, each bank of eight starting twelve
/// keys (an octave) above the one before it, at 36, 48, 60 and 72, and the pads of a bank
/// on consecutive keys; without it the thirty-two pads take consecutive keys from 36.
/// Either way the keys are MIDI notes, and the rest of the settings stay as they were.
pub proof fn midi_keys_follow_the_layout(m: PresetModel, i: int)
    requires
        m.pads.len() == PAD_COUNT,
        0 <= i < PAD_COUNT,
    ensures
        ({
            let keys = m.with_midikeys().pads;
            &&& keys.len() == PAD_COUNT
            &&& keys[0].midikey == 36
            &&& keys[i].midikey < 128
            &&& m.layout && i + 8 < PAD_COUNT ==> keys[i + 8].midikey == keys[i].midikey + 12
            &&& m.layout && i % 8 != 7 ==> keys[i + 1].midikey == keys[i].midikey + 1
            &&& m.layout ==> keys[8 * (i / 8)].midikey == 36 + 12 * (i / 8)
            &&& !m.layout && i + 1 < PAD_COUNT ==> keys[i + 1].midikey == keys[i].midikey + 1
            &&& (Pad { midikey: m.pads[i].midikey, ..keys[i] }) == m.pads[i]
            &&& m.with_midikeys().layout == m.layout
            &&& m.with_midikeys().polyphony == m.polyphony
        }),
{
    assert((i + 8) / 8 == i / 8 + 1 && (i + 8) % 8 == i % 8);
    if i % 8 != 7 {
        assert((i + 1) / 8 == i / 8 && (i + 1) % 8 == i % 8 + 1);
    }
    assert((8 * (i / 8)) / 8 == i / 8 && (8 * (i / 8)) % 8 == 0);
}

} // verus!

verus! {

/// The value of setting `f` of pad `p`: the number of a whole-number setting, the bit
/// pattern of a real-valued one.
pub open spec fn pad_setting(p: Pad, f: PadParam) -> int {
    match f {
        PadParam::Pitch => p.pitch as int,
        PadParam::Decay => p.decay as int,
        PadParam::Level => p.level as int,
        PadParam::Pan => p.pan.bits as int,
        PadParam::Output => p.output as int,
        PadParam::Filter => p.filter as int,
        PadParam::Finetune => p.finetune.bits as int,
        PadParam::Gain => p.gain.bits as int,
        PadParam::Mono => p.mono as int,
        PadParam::Speed => p.speed as int,
        PadParam::LoopMode => p.loop_mode as int,
        PadParam::LoopRangeEnd => p.loop_range_end.bits as int,
        PadParam::LoopRangeStart => p.loop_range_start.bits as int,
        PadParam::PlayRangeEnd => p.play_range_end.bits as int,
        PadParam::PlayRangeStart => p.play_range_start.bits as int,
        PadParam::FadeIn => p.fade_in.bits as int,
        PadParam::FadeOut => p.fade_out.bits as int,
    }
}

/// Taking setting `f` of a pad from a value changes that setting and no other: the pitch,
/// decay and level become fifteen times the value rounded; the voice group, filter, stereo
/// setting, sample rate and loop mode the value truncated; the real-valued settings the
/// value itself. The pad's other fields stay as they were.
pub proof fn a_parameter_changes_only_its_setting(
    p: Pad,
    f: PadParam,
    g: PadParam,
    v: rx::ParamValue,
)
    ensures
        g != f ==> pad_setting(p.with_param(f, v), g) == pad_setting(p, g),
        (f == PadParam::Pitch || f == PadParam::Decay || f == PadParam::Level) ==> pad_setting(
            p.with_param(f, v),
            f,
        ) == v.fifteenths,
        (f == PadParam::Output || f == PadParam::Filter || f == PadParam::Mono || f
            == PadParam::Speed || f == PadParam::LoopMode) ==> pad_setting(p.with_param(f, v), f)
            == truncated_u8(v.bits),
        (f == PadParam::Pan || f == PadParam::Finetune || f == PadParam::Gain || f
            == PadParam::LoopRangeEnd || f == PadParam::LoopRangeStart || f
            == PadParam::PlayRangeEnd || f == PadParam::PlayRangeStart || f == PadParam::FadeIn
            || f == PadParam::FadeOut) ==> pad_setting(p.with_param(f, v), f) == v.bits.bits,
        (Pad {
            pitch: p.pitch,
            decay: p.decay,
            level: p.level,
            pan: p.pan,
            output: p.output,
            filter: p.filter,
            finetune: p.finetune,
            gain: p.gain,
            mono: p.mono,
            speed: p.speed,
            loop_mode: p.loop_mode,
            loop_range_end: p.loop_range_end,
            loop_range_start: p.loop_range_start,
            play_range_end: p.play_range_end,
            play_range_start: p.play_range_start,
            fade_in: p.fade_in,
            fade_out: p.fade_out,
            ..p.with_param(f, v)
        }) == p,
{
}

} // verus!

verus! {

/// An id made of a part without `'_'`, a `'_'` and any rest splits at that `'_'`.
proof fn splits_at_the_first_underscore(a: Seq<u8>, b: Seq<u8>)
    requires
        forall|j: int| 0 <= j < a.len() ==> #[trigger] a[j] != 0x5fu8,
    ensures
        first_index_of(a + seq![0x5fu8] + b, 0x5f) == Some(a.len() as int),
        head_of(a + seq![0x5fu8] + b, a.len() as int) == a,
        tail_of(a + seq![0x5fu8] + b, a.len() as int) == b,
{
    let id = a + seq![0x5fu8] + b;
    let n = a.len() as int;
    assert(id[n] == 0x5f);
    assert(forall|j: int| 0 <= j < n ==> id[j] == a[j]);
    let k = choose|k: int|
        0 <= k < id.len() && id[k] == 0x5f && forall|j: int| 0 <= j < k ==> id[j] != 0x5f;
    assert(k == n) by {
        if k > n {
            assert(id[n] != 0x5f);
        } else if k < n {
            assert(id[k] == a[k]);
        }
    }
    assert(head_of(id, n) =~= a);
    assert(tail_of(id, n) =~= b);
}

/// The ids `volume`, `velocity` and `layout` designate the master volume, the velocity
/// sensitivity and the pad layout: reading one sets that setting from the value (the
/// layout to whether the value is nonzero) and nothing else.
pub proof fn master_names_designate_their_settings(m: PresetModel, v: rx::ParamValue)
    ensures
        m.with_param(utf8_of("volume"@), Some(v)) == (PresetModel { volume: v.bits, ..m }),
        m.with_param(utf8_of("velocity"@), Some(v)) == (PresetModel { velocity: v.bits, ..m }),
        m.with_param(utf8_of("layout"@), Some(v)) == (PresetModel {
            layout: is_nonzero(v.bits),
            ..m
        }),
{
    reveal_strlit("volume");
    reveal_strlit("velocity");
    reveal_strlit("layout");
    ascii_name_bytes("volume"@);
    ascii_name_bytes("velocity"@);
    ascii_name_bytes("layout"@);
    assert(utf8_of("volume"@)[1] == 'o' as u8 && utf8_of("velocity"@)[1] == 'e' as u8);
    assert(utf8_of("volume"@)[0] == 'v' as u8 && utf8_of("layout"@)[0] == 'l' as u8);
    assert(utf8_of("velocity"@)[0] == 'v' as u8);
    assert(first_index_of(utf8_of("volume"@), 0x5f) is None);
    assert(first_index_of(utf8_of("velocity"@), 0x5f) is None);
    assert(first_index_of(utf8_of("layout"@), 0x5f) is None);
}

/// An id whose part after its only `'_'` is a single digit `'1'` to `'8'` designates the
/// polyphony of voice group 1 to 8: reading it sets that group's polyphony to the value
/// truncated, and nothing else.
pub proof fn a_group_digit_sets_that_groups_polyphony(
    m: PresetModel,
    a: Seq<u8>,
    k: int,
    v: rx::ParamValue,
)
    requires
        m.polyphony.len() == 8,
        0 <= k < 8,
        forall|j: int| 0 <= j < a.len() ==> #[trigger] a[j] != 0x5fu8,
    ensures
        ({
            let id = a + seq![0x5fu8] + seq![(0x31 + k) as u8];
            &&& param_id_is_safe(id)
            &&& m.with_param(id, Some(v)) == (PresetModel {
                polyphony: m.polyphony.update(k, truncated_u8(v.bits)),
                ..m
            })
        }),
{
    splits_at_the_first_underscore(a, seq![(0x31 + k) as u8]);
}

/// An interface parameter whose id is a part without `'_'`, a `'_'` and a pad's id sets
/// that pad's color to seven times the value, rounded, and changes nothing else.
pub proof fn an_interface_parameter_colors_the_pad_it_names(
    m: PresetModel,
    a: Seq<u8>,
    i: int,
    v: rx::ParamValue,
)
    requires
        m.pads.len() == PAD_COUNT,
        0 <= i < PAD_COUNT,
        forall|j: int| 0 <= j < a.len() ==> #[trigger] a[j] != 0x5fu8,
    ensures
        ({
            let id = a + seq![0x5fu8] + pad_id_of(i);
            let after = m.with_pad(i, Pad { color: v.sevenths, ..m.pads[i] });
            forall|p: rx::Param| #[trigger] utf8_of(p.id@) == id && p.value == Some(v)
                ==> gui_param_is_safe(p) && m.with_gui_param(p) == after
        }),
{
    splits_at_the_first_underscore(a, pad_id_of(i));
    pad_ids_name_their_pads(i);
}

/// The name by which a sample reference gives the folder it is relative to; a direct
/// reference has no such name.
pub open spec fn location_kind_name(k: LocationKind) -> Seq<char> {
    match k {
        LocationKind::CommonData => "productCommonData"@,
        LocationKind::UserData => "productUserData"@,
        LocationKind::Direct => ""@,
    }
}

/// A reference of type `productCommonData` is relative to the machine-wide data folder and
/// one of type `productUserData` to the user's; a reference of any other type is a path of
/// its own.
pub proof fn reference_types_name_their_folders(k: LocationKind, t: Seq<char>)
    ensures
        k != LocationKind::Direct ==> location_kind(utf8_of(location_kind_name(k))) == k,
        t != location_kind_name(LocationKind::CommonData) && t != location_kind_name(
            LocationKind::UserData,
        ) ==> location_kind(utf8_of(t)) == LocationKind::Direct,
{
    reveal_strlit("productCommonData");
    reveal_strlit("productUserData");
    ascii_name_bytes("productCommonData"@);
    ascii_name_bytes("productUserData"@);
    crate::text::utf8_of_is_the_encoding(t);
    crate::text::utf8_of_is_the_encoding("productCommonData"@);
    crate::text::utf8_of_is_the_encoding("productUserData"@);
    if utf8_of(t) == utf8_of("productCommonData"@) {
        vstd::utf8::encode_utf8_decode_utf8(t);
        vstd::utf8::encode_utf8_decode_utf8("productCommonData"@);
    }
    if utf8_of(t) == utf8_of("productUserData"@) {
        vstd::utf8::encode_utf8_decode_utf8(t);
        vstd::utf8::encode_utf8_decode_utf8("productUserData"@);
    }
}

} // verus!

verus! {

/// A new preset's pads already have the keys that the consecutive layout gives, so
/// assigning keys to it changes nothing; its pads are active and play and loop their
/// whole sample (from 0 to 1); the pads in the same place of the four banks share one of
/// the eight voice groups.
pub proof fn a_new_preset_is_laid_out_consecutively(m: PresetModel, i: int)
    requires
        m.is_initial(),
        0 <= i < PAD_COUNT,
    ensures
        m.with_midikeys() == m,
        !m.pads[i].inactive,
        m.pads[i].play_range_start == zero() && m.pads[i].play_range_end == one(),
        m.pads[i].loop_range_start == zero() && m.pads[i].loop_range_end == one(),
        m.pads[i].output < 8,
        i + 8 < PAD_COUNT ==> m.pads[i + 8].output == m.pads[i].output,
{
    assert(m.pads[i].is_initial(i));
    if i + 8 < PAD_COUNT {
        assert(m.pads[i + 8].is_initial(i + 8));
        assert((i + 8) % 8 == i % 8);
    }
    assert forall|j: int| 0 <= j < PAD_COUNT implies #[trigger] m.with_midikeys().pads[j]
        == m.pads[j] by {
        assert(m.pads[j].is_initial(j));
    }
    assert(m.with_midikeys().pads =~= m.pads);
}

} // verus!
