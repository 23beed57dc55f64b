use lofty::speex::SpeexFile;
use lofty::speex::SpeexProperties;
use lofty::speex::VorbisComments;

fn sample_comments() -> VorbisComments {
    VorbisComments {
        vendor: String::from("Encoder"),
        items: vec![(String::from("TITLE"), String::from("A song"))],
    }
}

#[test]
fn vorbis_comments_getter() {
    let file = SpeexFile::new(sample_comments(), SpeexProperties::default());
    assert_eq!(file.vorbis_comments(), &sample_comments());
}

#[test]
fn vorbis_comments_mut_getter() {
    let mut file = SpeexFile::new(sample_comments(), SpeexProperties::default());
    let comments = file.vorbis_comments_mut();
    comments.vendor = String::from("Other");
    comments
        .items
        .push((String::from("ALBUM"), String::from("A record")));
    assert_eq!(file.vorbis_comments().vendor, "Other");
    assert_eq!(file.vorbis_comments().items.len(), 2);
}

#[test]
fn speex_properties_default() {
    let p = SpeexProperties::default();
    assert_eq!(p.version, 0);
    assert_eq!(p.sample_rate, 0);
    assert_eq!(p.channels, 0);
    assert!(!p.vbr);
    assert_eq!(p.nominal_bitrate, 0);
    assert_eq!(p.overall_bitrate, 0);
    assert_eq!(p.audio_bitrate, 0);
}
