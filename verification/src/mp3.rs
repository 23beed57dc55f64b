//! The MPEG frame codec: locating frame-sync boundaries, decoding the 32-bit
//! frame header, and reading the Xing/Info/VBRI variable-bitrate headers.

use vstd::prelude::*;

use crate::bytes::spec_u32_be;
use crate::bytes::read_u32_be;
use crate::error::LoftyError;

verus! {

/// MPEG Audio version
#[derive(PartialEq, Eq, Copy, Clone, Debug, Structural)]
#[allow(missing_docs)]
pub enum MpegVersion {
    V1,
    V2,
    V2_5,
}

impl Default for MpegVersion {
    /// The version assumed before a frame header has been decoded.
    fn default() -> (r: Self)
        ensures
            r == MpegVersion::V1,
    {
        Self::V1
    }
}

/// MPEG layer
#[derive(Copy, Clone, Debug, PartialEq, Eq, Structural)]
#[allow(missing_docs)]
pub enum Layer {
    Layer1,
    Layer2,
    Layer3,
}

impl Default for Layer {
    /// The layer assumed before a frame header has been decoded.
    fn default() -> (r: Self)
        ensures
            r == Layer::Layer3,
    {
        Self::Layer3
    }
}

/// Channel mode
#[derive(Copy, Clone, PartialEq, Eq, Debug, Structural)]
#[allow(missing_docs)]
pub enum ChannelMode {
    Stereo,
    JointStereo,
    /// Two independent mono channels
    DualChannel,
    SingleChannel,
}

impl Default for ChannelMode {
    /// The channel mode assumed before a frame header has been decoded.
    fn default() -> (r: Self)
        ensures
            r == ChannelMode::Stereo,
    {
        Self::Stereo
    }
}

/// A rarely-used decoder hint that the file must be de-emphasized
#[derive(Copy, Clone, PartialEq, Eq, Debug, Structural)]
#[allow(missing_docs)]
pub enum Emphasis {
    /// No de-emphasis
    NoEmphasis,
    /// 50/15 ms
    MS5015,
    Reserved,
    /// CCIT J.17
    CCIT_J17,
}

impl Default for Emphasis {
    /// The emphasis assumed before a frame header has been decoded.
    fn default() -> (r: Self)
        ensures
            r == Emphasis::NoEmphasis,
    {
        Self::NoEmphasis
    }
}

/// Whether two bytes form an MPEG frame sync: the 11-bit all-ones marker
/// spans the first byte entirely and the top three bits of the second.
pub open spec fn spec_verify_frame_sync(b0: u8, b1: u8) -> bool {
    b0 == 0xFF && b1 >> 5 == 0b111
}

/// Whether a frame sync starts at offset `i` of `data`.
pub open spec fn spec_frame_sync_at(data: Seq<u8>, i: int) -> bool {
    spec_verify_frame_sync(data[i], data[i + 1])
}

/// Checks two bytes for the 11-bit frame-sync marker.
pub fn verify_frame_sync(frame_sync: [u8; 2]) -> (r: bool)
    ensures
        r == spec_verify_frame_sync(frame_sync@[0], frame_sync@[1]),
{
    frame_sync[0] == 0xFF && frame_sync[1] >> 5 == 0b111
}

/// Searches for a frame sync in `input` and returns the 0-based offset of
/// the first match.
///
/// The search is byte-aligned, never bit-aligned: a sliding two-byte window
/// moves in whole-byte steps. Returns `None` where the input is exhausted
/// without a match.
pub fn search_for_frame_sync(input: &[u8]) -> (r: Option<u64>)
    ensures
        match r {
            Some(i) => i + 1 < input@.len() && spec_frame_sync_at(input@, i as int) && forall|
                j: int,
            | 0 <= j < i ==> !spec_frame_sync_at(input@, j),
            None => forall|j: int| 0 <= j && j + 1 < input@.len() ==> !spec_frame_sync_at(input@, j),
        },
{
    let n = input.len();
    if n < 2 {
        return None;
    }
    let mut i: usize = 0;
    while i + 1 < n
        invariant
            n == input@.len(),
            i + 1 <= n,
            forall|j: int| 0 <= j < i ==> !spec_frame_sync_at(input@, j),
        decreases n - i,
    {
        if verify_frame_sync([input[i], input[i + 1]]) {
            return Some(i as u64);
        }
        i = i + 1;
    }
    None
}

/// The kilobit-per-second bitrates of MPEG version 1, layer 1, by the
/// four-bit index of the frame header. Index 0 is "free" and 15 reserved;
/// both map to zero.
pub open spec fn spec_bitrate_v1_l1(idx: u32) -> u32 {
    if idx == 1 {
        32
    } else if idx == 2 {
        64
    } else if idx == 3 {
        96
    } else if idx == 4 {
        128
    } else if idx == 5 {
        160
    } else if idx == 6 {
        192
    } else if idx == 7 {
        224
    } else if idx == 8 {
        256
    } else if idx == 9 {
        288
    } else if idx == 10 {
        320
    } else if idx == 11 {
        352
    } else if idx == 12 {
        384
    } else if idx == 13 {
        416
    } else if idx == 14 {
        448
    } else {
        0
    }
}

/// The bitrates of MPEG version 1, layer 2.
pub open spec fn spec_bitrate_v1_l2(idx: u32) -> u32 {
    if idx == 1 {
        32
    } else if idx == 2 {
        48
    } else if idx == 3 {
        56
    } else if idx == 4 {
        64
    } else if idx == 5 {
        80
    } else if idx == 6 {
        96
    } else if idx == 7 {
        112
    } else if idx == 8 {
        128
    } else if idx == 9 {
        160
    } else if idx == 10 {
        192
    } else if idx == 11 {
        224
    } else if idx == 12 {
        256
    } else if idx == 13 {
        320
    } else if idx == 14 {
        384
    } else {
        0
    }
}

/// The bitrates of MPEG version 1, layer 3.
pub open spec fn spec_bitrate_v1_l3(idx: u32) -> u32 {
    if idx == 1 {
        32
    } else if idx == 2 {
        40
    } else if idx == 3 {
        48
    } else if idx == 4 {
        56
    } else if idx == 5 {
        64
    } else if idx == 6 {
        80
    } else if idx == 7 {
        96
    } else if idx == 8 {
        112
    } else if idx == 9 {
        128
    } else if idx == 10 {
        160
    } else if idx == 11 {
        192
    } else if idx == 12 {
        224
    } else if idx == 13 {
        256
    } else if idx == 14 {
        320
    } else {
        0
    }
}

/// The bitrates of MPEG versions 2 and 2.5, layer 1.
pub open spec fn spec_bitrate_v2_l1(idx: u32) -> u32 {
    if idx == 1 {
        32
    } else if idx == 2 {
        48
    } else if idx == 3 {
        56
    } else if idx == 4 {
        64
    } else if idx == 5 {
        80
    } else if idx == 6 {
        96
    } else if idx == 7 {
        112
    } else if idx == 8 {
        128
    } else if idx == 9 {
        144
    } else if idx == 10 {
        160
    } else if idx == 11 {
        176
    } else if idx == 12 {
        192
    } else if idx == 13 {
        224
    } else if idx == 14 {
        256
    } else {
        0
    }
}

/// The bitrates of MPEG versions 2 and 2.5, layers 2 and 3, which share one
/// row.
pub open spec fn spec_bitrate_v2_l23(idx: u32) -> u32 {
    if idx == 1 {
        8
    } else if idx == 2 {
        16
    } else if idx == 3 {
        24
    } else if idx == 4 {
        32
    } else if idx == 5 {
        40
    } else if idx == 6 {
        48
    } else if idx == 7 {
        56
    } else if idx == 8 {
        64
    } else if idx == 9 {
        80
    } else if idx == 10 {
        96
    } else if idx == 11 {
        112
    } else if idx == 12 {
        128
    } else if idx == 13 {
        144
    } else if idx == 14 {
        160
    } else {
        0
    }
}

/// The bitrate table, keyed by version class (version 1 against the rest),
/// layer, and the four-bit index.
pub open spec fn spec_bitrate(version: MpegVersion, layer: Layer, idx: u32) -> u32 {
    if version == MpegVersion::V1 {
        match layer {
            Layer::Layer1 => spec_bitrate_v1_l1(idx),
            Layer::Layer2 => spec_bitrate_v1_l2(idx),
            Layer::Layer3 => spec_bitrate_v1_l3(idx),
        }
    } else {
        match layer {
            Layer::Layer1 => spec_bitrate_v2_l1(idx),
            Layer::Layer2 => spec_bitrate_v2_l23(idx),
            Layer::Layer3 => spec_bitrate_v2_l23(idx),
        }
    }
}

/// The sample rates in hertz, keyed by version and the two-bit index.
/// Index 3 is reserved and never looked up here.
pub open spec fn spec_sample_rate(version: MpegVersion, idx: u32) -> u32 {
    match version {
        MpegVersion::V1 => if idx == 0 {
            44100
        } else if idx == 1 {
            48000
        } else {
            32000
        },
        MpegVersion::V2 => if idx == 0 {
            22050
        } else if idx == 1 {
            24000
        } else {
            16000
        },
        MpegVersion::V2_5 => if idx == 0 {
            11025
        } else if idx == 1 {
            12000
        } else {
            8000
        },
    }
}

/// The bytes a set padding bit adds to a frame: four for layer 1, one
/// otherwise.
pub open spec fn spec_padding_size(layer: Layer) -> u32 {
    match layer {
        Layer::Layer1 => 4,
        Layer::Layer2 => 1,
        Layer::Layer3 => 1,
    }
}

/// The samples per frame, keyed by layer and version class.
pub open spec fn spec_samples(layer: Layer, version: MpegVersion) -> u16 {
    match layer {
        Layer::Layer1 => 384,
        Layer::Layer2 => 1152,
        Layer::Layer3 => if version == MpegVersion::V1 {
            1152
        } else {
            576
        },
    }
}

/// The byte length of the side information, keyed by version class and
/// channel mode.
pub open spec fn spec_side_information_size(version: MpegVersion, mode: ChannelMode) -> u32 {
    if version == MpegVersion::V1 {
        if mode == ChannelMode::SingleChannel {
            17
        } else {
            32
        }
    } else {
        if mode == ChannelMode::SingleChannel {
            9
        } else {
            17
        }
    }
}

fn bitrate_for(version: MpegVersion, layer: Layer, idx: u32) -> (r: u32)
    ensures
        r == spec_bitrate(version, layer, idx),
        r <= 448,
{
    if matches!(version, MpegVersion::V1) {
        match layer {
            Layer::Layer1 => {
                if idx == 1 {
                    32
                } else if idx == 2 {
                    64
                } else if idx == 3 {
                    96
                } else if idx == 4 {
                    128
                } else if idx == 5 {
                    160
                } else if idx == 6 {
                    192
                } else if idx == 7 {
                    224
                } else if idx == 8 {
                    256
                } else if idx == 9 {
                    288
                } else if idx == 10 {
                    320
                } else if idx == 11 {
                    352
                } else if idx == 12 {
                    384
                } else if idx == 13 {
                    416
                } else if idx == 14 {
                    448
                } else {
                    0
                }
            },
            Layer::Layer2 => {
                if idx == 1 {
                    32
                } else if idx == 2 {
                    48
                } else if idx == 3 {
                    56
                } else if idx == 4 {
                    64
                } else if idx == 5 {
                    80
                } else if idx == 6 {
                    96
                } else if idx == 7 {
                    112
                } else if idx == 8 {
                    128
                } else if idx == 9 {
                    160
                } else if idx == 10 {
                    192
                } else if idx == 11 {
                    224
                } else if idx == 12 {
                    256
                } else if idx == 13 {
                    320
                } else if idx == 14 {
                    384
                } else {
                    0
                }
            },
            Layer::Layer3 => {
                if idx == 1 {
                    32
                } else if idx == 2 {
                    40
                } else if idx == 3 {
                    48
                } else if idx == 4 {
                    56
                } else if idx == 5 {
                    64
                } else if idx == 6 {
                    80
                } else if idx == 7 {
                    96
                } else if idx == 8 {
                    112
                } else if idx == 9 {
                    128
                } else if idx == 10 {
                    160
                } else if idx == 11 {
                    192
                } else if idx == 12 {
                    224
                } else if idx == 13 {
                    256
                } else if idx == 14 {
                    320
                } else {
                    0
                }
            },
        }
    } else {
        match layer {
            Layer::Layer1 => {
                if idx == 1 {
                    32
                } else if idx == 2 {
                    48
                } else if idx == 3 {
                    56
                } else if idx == 4 {
                    64
                } else if idx == 5 {
                    80
                } else if idx == 6 {
                    96
                } else if idx == 7 {
                    112
                } else if idx == 8 {
                    128
                } else if idx == 9 {
                    144
                } else if idx == 10 {
                    160
                } else if idx == 11 {
                    176
                } else if idx == 12 {
                    192
                } else if idx == 13 {
                    224
                } else if idx == 14 {
                    256
                } else {
                    0
                }
            },
            _ => {
                if idx == 1 {
                    8
                } else if idx == 2 {
                    16
                } else if idx == 3 {
                    24
                } else if idx == 4 {
                    32
                } else if idx == 5 {
                    40
                } else if idx == 6 {
                    48
                } else if idx == 7 {
                    56
                } else if idx == 8 {
                    64
                } else if idx == 9 {
                    80
                } else if idx == 10 {
                    96
                } else if idx == 11 {
                    112
                } else if idx == 12 {
                    128
                } else if idx == 13 {
                    144
                } else if idx == 14 {
                    160
                } else {
                    0
                }
            },
        }
    }
}

fn sample_rate_for(version: MpegVersion, idx: u32) -> (r: u32)
    ensures
        r == spec_sample_rate(version, idx),
        8000 <= r <= 48000,
{
    match version {
        MpegVersion::V1 => if idx == 0 {
            44100
        } else if idx == 1 {
            48000
        } else {
            32000
        },
        MpegVersion::V2 => if idx == 0 {
            22050
        } else if idx == 1 {
            24000
        } else {
            16000
        },
        MpegVersion::V2_5 => if idx == 0 {
            11025
        } else if idx == 1 {
            12000
        } else {
            8000
        },
    }
}

/// A decoded MPEG audio frame header.
///
/// `sample_rate == 0` is a sentinel: the header carried the reserved
/// sample-rate index, and the error is deferred until properties are
/// computed. `len` is zero in that case too. `mode_extension` is set only
/// under joint stereo.
#[derive(Copy, Clone, Debug, PartialEq)]
pub struct Header {
    /// Samples per second, or the zero sentinel for the reserved index
    pub sample_rate: u32,
    /// One channel under single-channel mode, two otherwise
    pub channels: u8,
    /// The byte length of the whole frame, zero under the sentinel
    pub len: u32,
    /// The offset of the audio data: header plus side information
    pub data_start: u32,
    /// Samples per frame
    pub samples: u16,
    /// Bitrate in kilobits per second
    pub bitrate: u32,
    /// MPEG audio version
    pub version: MpegVersion,
    /// MPEG layer
    pub layer: Layer,
    /// Channel mode
    pub channel_mode: ChannelMode,
    /// The joint-stereo mode extension bits, where applicable
    pub mode_extension: Option<u8>,
    /// The copyright bit
    pub copyright: bool,
    /// The original-media bit
    pub original: bool,
    /// The de-emphasis hint
    pub emphasis: Emphasis,
}

/// The full decode of a 32-bit frame header word, bit layout MSB first.
///
/// Bits 20-19 give the version and 18-17 the layer, each with a reserved
/// pattern that fails the decode; every later field decodes from its bits
/// and the four lookup tables. The frame length uses truncating integer
/// division, matching reference decoder arithmetic exactly.
pub open spec fn spec_read_mpeg_header(w: u32) -> Result<Header, LoftyError> {
    if (w >> 19) & 0b11 == 1 {
        Err(LoftyError::InvalidMpegVersion)
    } else if (w >> 17) & 3 == 0 {
        Err(LoftyError::ReservedLayer)
    } else {
        let version = if (w >> 19) & 0b11 == 0 {
            MpegVersion::V2_5
        } else if (w >> 19) & 0b11 == 2 {
            MpegVersion::V2
        } else {
            MpegVersion::V1
        };
        let layer = if (w >> 17) & 3 == 1 {
            Layer::Layer3
        } else if (w >> 17) & 3 == 2 {
            Layer::Layer2
        } else {
            Layer::Layer1
        };
        let bitrate = spec_bitrate(version, layer, (w >> 12) & 0xF);
        let sample_rate: u32 = if (w >> 10) & 3 == 3 {
            0
        } else {
            spec_sample_rate(version, (w >> 10) & 3)
        };
        let padding: u32 = if (w >> 9) & 1 == 1 {
            spec_padding_size(layer)
        } else {
            0
        };
        let channel_mode = if (w >> 6) & 3 == 0 {
            ChannelMode::Stereo
        } else if (w >> 6) & 3 == 1 {
            ChannelMode::JointStereo
        } else if (w >> 6) & 3 == 2 {
            ChannelMode::DualChannel
        } else {
            ChannelMode::SingleChannel
        };
        let mode_extension: Option<u8> = if channel_mode == ChannelMode::JointStereo {
            Some(((w >> 4) & 3) as u8)
        } else {
            None
        };
        let emphasis = if w & 3 == 0 {
            Emphasis::NoEmphasis
        } else if w & 3 == 1 {
            Emphasis::MS5015
        } else if w & 3 == 2 {
            Emphasis::Reserved
        } else {
            Emphasis::CCIT_J17
        };
        let len: u32 = if sample_rate == 0 {
            0
        } else if layer == Layer::Layer1 {
            ((bitrate * 12000 / (sample_rate as int) + padding) * 4) as u32
        } else {
            (bitrate * 144000 / (sample_rate as int) + padding) as u32
        };
        Ok(
            Header {
                sample_rate,
                channels: if channel_mode == ChannelMode::SingleChannel {
                    1
                } else {
                    2
                },
                len,
                data_start: (spec_side_information_size(version, channel_mode) + 4) as u32,
                samples: spec_samples(layer, version),
                bitrate,
                version,
                layer,
                channel_mode,
                mode_extension: mode_extension,
                copyright: (w >> 3) & 1 == 1,
                original: (w >> 2) & 1 == 1,
                emphasis,
            },
        )
    }
}

impl Header {
    /// Decodes a 32-bit MPEG frame header word.
    ///
    /// Fails with [`LoftyError::InvalidMpegVersion`] on the reserved version
    /// bits and [`LoftyError::ReservedLayer`] on the reserved layer bits;
    /// succeeds on every other word, deferring a reserved sample-rate index
    /// to the zero sentinel.
    pub fn read(header: u32) -> (r: Result<Self, LoftyError>)
        ensures
            r == spec_read_mpeg_header(header),
    {
        let version_bits = (header >> 19) & 0b11;
        if version_bits == 1 {
            return Err(LoftyError::InvalidMpegVersion);
        }
        let layer_bits = (header >> 17) & 3;
        if layer_bits == 0 {
            return Err(LoftyError::ReservedLayer);
        }
        let version = if version_bits == 0 {
            MpegVersion::V2_5
        } else if version_bits == 2 {
            MpegVersion::V2
        } else {
            MpegVersion::V1
        };
        let layer = if layer_bits == 1 {
            Layer::Layer3
        } else if layer_bits == 2 {
            Layer::Layer2
        } else {
            Layer::Layer1
        };

        let bitrate_index = (header >> 12) & 0xF;
        let bitrate = bitrate_for(version, layer, bitrate_index);

        let sample_rate_index = (header >> 10) & 3;
        let sample_rate: u32 = if sample_rate_index == 3 {
            // The reserved index: not worth an error here, the zero sentinel
            // defers it until properties are read.
            0
        } else {
            sample_rate_for(version, sample_rate_index)
        };

        let has_padding = ((header >> 9) & 1) == 1;
        let padding: u32 = if has_padding {
            match layer {
                Layer::Layer1 => 4,
                Layer::Layer2 => 1,
                Layer::Layer3 => 1,
            }
        } else {
            0
        };

        let channel_mode_bits = (header >> 6) & 3;
        let channel_mode = if channel_mode_bits == 0 {
            ChannelMode::Stereo
        } else if channel_mode_bits == 1 {
            ChannelMode::JointStereo
        } else if channel_mode_bits == 2 {
            ChannelMode::DualChannel
        } else {
            ChannelMode::SingleChannel
        };

        let mode_extension: Option<u8> = if channel_mode == ChannelMode::JointStereo {
            Some(((header >> 4) & 3) as u8)
        } else {
            None
        };

        let copyright = ((header >> 3) & 1) == 1;
        let original = ((header >> 2) & 1) == 1;

        let emphasis_bits = header & 3;
        let emphasis = if emphasis_bits == 0 {
            Emphasis::NoEmphasis
        } else if emphasis_bits == 1 {
            Emphasis::MS5015
        } else if emphasis_bits == 2 {
            Emphasis::Reserved
        } else {
            Emphasis::CCIT_J17
        };

        let side_information: u32 = if matches!(version, MpegVersion::V1) {
            if matches!(channel_mode, ChannelMode::SingleChannel) {
                17
            } else {
                32
            }
        } else {
            if matches!(channel_mode, ChannelMode::SingleChannel) {
                9
            } else {
                17
            }
        };
        let data_start = side_information + 4;

        let samples: u16 = match layer {
            Layer::Layer1 => 384,
            Layer::Layer2 => 1152,
            Layer::Layer3 => if matches!(version, MpegVersion::V1) {
                1152
            } else {
                576
            },
        };

        let len: u32 = if sample_rate == 0 {
            0
        } else if matches!(layer, Layer::Layer1) {
            (bitrate * 12000 / sample_rate + padding) * 4
        } else {
            bitrate * 144000 / sample_rate + padding
        };

        let channels: u8 = if matches!(channel_mode, ChannelMode::SingleChannel) {
            1
        } else {
            2
        };

        Ok(
            Self {
                sample_rate,
                channels,
                len,
                data_start,
                samples,
                bitrate,
                version,
                layer,
                channel_mode,
                mode_extension,
                copyright,
                original,
                emphasis,
            },
        )
    }
}

/// The mode extension is set exactly under joint stereo, on every header
/// that decodes.
pub proof fn lemma_mode_extension_joint_stereo(w: u32)
    ensures
        spec_read_mpeg_header(w) matches Ok(h) ==> (h.mode_extension is Some <==> h.channel_mode
            == ChannelMode::JointStereo),
{
}

/// The zero sentinel in the sample rate appears exactly where the header
/// carried the reserved sample-rate index, and carries a zero frame length
/// with it.
pub proof fn lemma_sample_rate_sentinel(w: u32)
    ensures
        spec_read_mpeg_header(w) matches Ok(h) ==> ((h.sample_rate == 0 <==> (w >> 10) & 3 == 3)
            && (h.sample_rate == 0 ==> h.len == 0)),
{
}

/// Whether `b` opens with the magic `"Xing"`.
pub open spec fn spec_is_xing_magic(b: Seq<u8>) -> bool {
    b.len() >= 4 && b[0] == 0x58 && b[1] == 0x69 && b[2] == 0x6E && b[3] == 0x67
}

/// Whether `b` opens with the magic `"Info"`.
pub open spec fn spec_is_info_magic(b: Seq<u8>) -> bool {
    b.len() >= 4 && b[0] == 0x49 && b[1] == 0x6E && b[2] == 0x66 && b[3] == 0x6F
}

/// Whether `b` opens with the magic `"VBRI"`.
pub open spec fn spec_is_vbri_magic(b: Seq<u8>) -> bool {
    b.len() >= 4 && b[0] == 0x56 && b[1] == 0x42 && b[2] == 0x52 && b[3] == 0x49
}

/// A decoded Xing/Info/VBRI variable-bitrate header: the total frame count
/// and the byte size of the stream.
#[derive(Copy, Clone, Debug, PartialEq, Eq, Structural)]
pub struct XingHeader {
    /// The total number of frames in the stream
    pub frames: u32,
    /// The byte size of the stream
    pub size: u32,
}

/// The decode of the buffer that follows a frame's side information.
///
/// `"Xing"`/`"Info"` demand at least 16 bytes and both required flag bits,
/// then carry frames before size; `"VBRI"` demands at least 32 bytes, skips
/// six informational bytes, and carries size before frames. Any other magic
/// is no error: the caller falls back to a constant-bitrate estimate.
pub open spec fn spec_read_xing_header(b: Seq<u8>) -> Result<Option<XingHeader>, LoftyError> {
    if b.len() < 4 {
        Err(LoftyError::Truncated)
    } else if spec_is_xing_magic(b) || spec_is_info_magic(b) {
        if b.len() < 16 {
            Err(LoftyError::BadXingSize)
        } else if b[7] & 0x03 != 0x03 {
            Err(LoftyError::MissingXingFlags)
        } else {
            Ok(Some(XingHeader { frames: spec_u32_be(b, 8), size: spec_u32_be(b, 12) }))
        }
    } else if spec_is_vbri_magic(b) {
        if b.len() < 32 {
            Err(LoftyError::BadVbriSize)
        } else {
            Ok(Some(XingHeader { frames: spec_u32_be(b, 14), size: spec_u32_be(b, 10) }))
        }
    } else {
        Ok(None)
    }
}

impl XingHeader {
    /// Decodes a Xing/Info/VBRI header from the start of `reader`.
    ///
    /// Returns `Ok(None)` where the magic matches none of the three;
    /// otherwise succeeds or fails exactly as [`spec_read_xing_header`]
    /// says.
    pub fn read(reader: &[u8]) -> (r: Result<Option<Self>, LoftyError>)
        ensures
            r == spec_read_xing_header(reader@),
    {
        if reader.len() < 4 {
            return Err(LoftyError::Truncated);
        }
        let is_xing = reader[0] == 0x58 && reader[1] == 0x69 && reader[2] == 0x6E && reader[3]
            == 0x67;
        let is_info = reader[0] == 0x49 && reader[1] == 0x6E && reader[2] == 0x66 && reader[3]
            == 0x6F;
        let is_vbri = reader[0] == 0x56 && reader[1] == 0x42 && reader[2] == 0x52 && reader[3]
            == 0x49;
        if is_xing || is_info {
            if reader.len() < 16 {
                return Err(LoftyError::BadXingSize);
            }
            // The flags live in the four bytes after the magic; only the
            // lowest two bits of their last byte matter: the frame-count and
            // byte-size fields must both be announced.
            if reader[7] & 0x03 != 0x03 {
                return Err(LoftyError::MissingXingFlags);
            }
            let frames = read_u32_be(reader, 8);
            let size = read_u32_be(reader, 12);
            Ok(Some(Self { frames, size }))
        } else if is_vbri {
            if reader.len() < 32 {
                return Err(LoftyError::BadVbriSize);
            }
            // Six bytes of version, delay and quality are skipped; the byte
            // size comes before the frame count, the reverse of Xing.
            let size = read_u32_be(reader, 10);
            let frames = read_u32_be(reader, 14);
            Ok(Some(Self { frames, size }))
        } else {
            Ok(None)
        }
    }
}

} // verus!
