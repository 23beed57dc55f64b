//! An OGG Speex file: its Vorbis comments and audio properties.

use vstd::prelude::*;

verus! {

/// The Vorbis comments of an OGG stream: the vendor string and the
/// key-value items of the metadata packet.
#[derive(Debug, Clone, PartialEq, Eq)]
pub struct VorbisComments {
    /// The vendor string of the encoder
    pub vendor: String,
    /// The key-value comment items, in order of appearance
    pub items: Vec<(String, String)>,
}

/// The audio properties of a Speex stream.
#[derive(Debug, Clone, Copy, PartialEq, Eq, Structural)]
pub struct SpeexProperties {
    /// The Speex version
    pub version: u32,
    /// Samples per second
    pub sample_rate: u32,
    /// The number of channels
    pub channels: u8,
    /// Whether the stream is variable bitrate
    pub vbr: bool,
    /// The nominal bitrate
    pub nominal_bitrate: i32,
    /// The overall bitrate
    pub overall_bitrate: u32,
    /// The audio bitrate
    pub audio_bitrate: u32,
}

impl Default for SpeexProperties {
    /// The properties before any have been read from a stream.
    fn default() -> (r: Self)
        ensures
            r == (SpeexProperties {
                version: 0,
                sample_rate: 0,
                channels: 0,
                vbr: false,
                nominal_bitrate: 0,
                overall_bitrate: 0,
                audio_bitrate: 0,
            }),
    {
        SpeexProperties {
            version: 0,
            sample_rate: 0,
            channels: 0,
            vbr: false,
            nominal_bitrate: 0,
            overall_bitrate: 0,
            audio_bitrate: 0,
        }
    }
}

/// An OGG Speex file
///
/// A metadata packet is mandatory in Speex, so a file always carries Vorbis
/// comments, though they need not hold any data.
#[derive(Debug, Clone, PartialEq, Eq)]
pub struct SpeexFile {
    /// The vorbis comments contained in the file
    pub vorbis_comments: VorbisComments,
    /// The file's audio properties
    pub properties: SpeexProperties,
}

impl SpeexFile {
    /// Bundles decoded Vorbis comments and properties into a file value.
    pub fn new(vorbis_comments: VorbisComments, properties: SpeexProperties) -> (r: Self)
        ensures
            r.vorbis_comments == vorbis_comments,
            r.properties == properties,
    {
        SpeexFile { vorbis_comments, properties }
    }

    /// Returns a reference to the Vorbis comments tag
    pub fn vorbis_comments(&self) -> (r: &VorbisComments)
        ensures
            r == self.vorbis_comments,
    {
        &self.vorbis_comments
    }

    /// Returns a mutable reference to the Vorbis comments tag
    pub fn vorbis_comments_mut(&mut self) -> (r: &mut VorbisComments)
        ensures
            *r == old(self).vorbis_comments,
            final(self).vorbis_comments == *final(r),
            final(self).properties == old(self).properties,
    {
        &mut self.vorbis_comments
    }
}

} // verus!
