//! The length of a sample, read from its audio file's bytes.

use vstd::prelude::*;

verus! {

/// What the container of an audio file says of one of its tracks.
#[derive(Clone, Copy, Debug, PartialEq, Eq, Structural)]
pub struct TrackInfo {
    /// Whether the track's codec is the null codec (no decodable audio).
    pub null_codec: bool,
    /// The number of frames that the track holds, where the container says.
    pub frames: Option<u64>,
}

/// What symphonia's container probe (with all its formats) makes of an audio file's
/// bytes: `Some(Ok(tracks))`, the tracks of the file in container order; `Some(Err(text))`,
/// the text of the error that it reports; or `None`, where it panics (as its readers do on
/// some malformed files, such as a Matroska file whose timestamp scale is 0).
pub uninterp spec fn probed_tracks(bytes: Seq<u8>) -> Option<Result<Seq<TrackInfo>, Seq<char>>>;

/// Whether symphonia's container probe returns on these bytes without a panic.
pub open spec fn probe_returns(bytes: Seq<u8>) -> bool {
    probed_tracks(bytes) is Some
}

/// Runs `symphonia::default::get_probe().format` on the bytes (read from memory) and
/// lists the tracks of the format reader that it returns, each with whether its codec is
/// `CODEC_TYPE_NULL` and its `n_frames`; a probe error is returned as its text. The result
/// is claimed to be `probed_tracks` of the bytes: the probe reads the bytes alone (it
/// ignores the hint, and the format and metadata options are the defaults). The bytes on
/// which the probe panics are left out by `requires`; which bytes those are is not stated
/// beyond the name.
#[verifier::external_body]
fn probe_tracks(bytes: Vec<u8>) -> (r: Result<Vec<TrackInfo>, String>)
    requires
        probe_returns(bytes@),
    ensures
        match r {
            Ok(tracks) => probed_tracks(bytes@) == Some(Ok::<Seq<TrackInfo>, Seq<char>>(tracks@)),
            Err(e) => probed_tracks(bytes@) == Some(Err::<Seq<TrackInfo>, Seq<char>>(e@)),
        },
{
    let source = std::io::Cursor::new(bytes);
    let mss = symphonia::core::io::MediaSourceStream::new(Box::new(source), Default::default());
    let hint = symphonia::core::probe::Hint::new();
    match symphonia::default::get_probe().format(&hint, mss, &Default::default(), &Default::default()) {
        Ok(probed) => Ok(probed.format.tracks().iter().map(|t| TrackInfo {
            null_codec: t.codec_params.codec == symphonia::core::codecs::CODEC_TYPE_NULL,
            frames: t.codec_params.n_frames,
        }).collect()),
        Err(e) => Err(e.to_string()),
    }
}

/// The length of a sample with these tracks: the frame count of the first track whose
/// codec is not the null codec (0 where the container gives none), or `None` where every
/// track has the null codec.
pub open spec fn sample_length_of(tracks: Seq<TrackInfo>) -> Option<u64>
    decreases tracks.len(),
{
    if tracks.len() == 0 {
        None
    } else if !tracks[0].null_codec {
        Some(
            match tracks[0].frames {
                Some(n) => n,
                None => 0,
            },
        )
    } else {
        sample_length_of(tracks.drop_first())
    }
}

/// Why a sample's length could not be read.
#[derive(Debug, PartialEq, Eq)]
pub enum SampleLengthError {
    /// The container probe failed, with this message.
    Probe(String),
    /// No track holds decodable audio.
    NoTrack,
}

/// The length of a sample with these tracks.
pub fn sample_length_of_tracks(tracks: &Vec<TrackInfo>) -> (r: Option<u64>)
    ensures
        r == sample_length_of(tracks@),
{
    let n = tracks.len();
    let mut i: usize = 0;
    assert(tracks@.subrange(0, n as int) =~= tracks@);
    while i < n
        invariant
            i <= n,
            n == tracks.len(),
            sample_length_of(tracks@) == sample_length_of(tracks@.subrange(i as int, n as int)),
        decreases n - i,
    {
        assert(tracks@.subrange(i as int, n as int).drop_first() =~= tracks@.subrange(
            i + 1,
            n as int,
        ));
        if !tracks[i].null_codec {
            return Some(
                match tracks[i].frames {
                    Some(frames) => frames,
                    None => 0,
                },
            );
        }
        i += 1;
    }
    None
}

/// The number of frames of the first track with decodable audio of the audio file whose
/// bytes are `bytes`, as symphonia's container probe reads it. The bytes on which the
/// probe panics are left out.
pub fn get_sample_length(bytes: Vec<u8>) -> (r: Result<u64, SampleLengthError>)
    requires
        probe_returns(bytes@),
    ensures
        match probed_tracks(bytes@) {
            None => false,
            Some(Err(e)) => r matches Err(SampleLengthError::Probe(m)) && m@ == e,
            Some(Ok(tracks)) => match sample_length_of(tracks) {
                Some(n) => r == Ok::<u64, SampleLengthError>(n),
                None => r == Err::<u64, SampleLengthError>(SampleLengthError::NoTrack),
            },
        },
{
    match probe_tracks(bytes) {
        Err(e) => Err(SampleLengthError::Probe(e)),
        Ok(tracks) => match sample_length_of_tracks(&tracks) {
            Some(n) => Ok(n),
            None => Err(SampleLengthError::NoTrack),
        },
    }
}

} // verus!

verus! {

/// A sample's length comes from the first track whose codec is not the null codec: that
/// track's frame count (0 where the container gives none), whatever the tracks after it
/// hold. There is no length exactly when every track has the null codec.
pub proof fn the_first_decodable_track_gives_the_length(tracks: Seq<TrackInfo>, i: int)
    ensures
        0 <= i < tracks.len() && !tracks[i].null_codec && (forall|j: int|
            0 <= j < i ==> #[trigger] tracks[j].null_codec) ==> sample_length_of(tracks) == Some(
            match tracks[i].frames {
                Some(n) => n,
                None => 0u64,
            },
        ),
        sample_length_of(tracks) is None <==> forall|j: int|
            0 <= j < tracks.len() ==> #[trigger] tracks[j].null_codec,
    decreases tracks.len(),
{
    if tracks.len() > 0 {
        let rest = tracks.drop_first();
        the_first_decodable_track_gives_the_length(rest, i - 1);
        assert forall|j: int| 0 <= j < rest.len() implies #[trigger] rest[j] == tracks[j + 1] by {}
        if tracks[0].null_codec {
            if (forall|j: int| 0 <= j < rest.len() ==> #[trigger] rest[j].null_codec) {
                assert forall|j: int| 0 <= j < tracks.len() implies #[trigger] tracks[j].null_codec by {
                    if j > 0 {
                        assert(rest[j - 1].null_codec);
                    }
                }
            }
            if (forall|j: int| 0 <= j < tracks.len() ==> #[trigger] tracks[j].null_codec) {
                assert forall|j: int| 0 <= j < rest.len() implies #[trigger] rest[j].null_codec by {
                    assert(tracks[j + 1].null_codec);
                }
            }
            if 0 <= i < tracks.len() && !tracks[i].null_codec && (forall|j: int|
                0 <= j < i ==> #[trigger] tracks[j].null_codec) {
                assert(i > 0);
                assert(rest[i - 1] == tracks[i]);
                assert forall|j: int| 0 <= j < i - 1 implies #[trigger] rest[j].null_codec by {
                    assert(tracks[j + 1].null_codec);
                }
            }
        } else {
            if 0 <= i < tracks.len() && (forall|j: int| 0 <= j < i ==> #[trigger] tracks[j].null_codec) {
                assert(i == 0);
            }
        }
    }
}

} // verus!
