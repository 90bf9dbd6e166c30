use ffmpeg_next::side_data::{DictionaryRef, SideData, Type};

const NAMED: [Type; 22] = [
    Type::PanScan,
    Type::A53CC,
    Type::Stereo3D,
    Type::MatrixEncoding,
    Type::DownMixInfo,
    Type::ReplayGain,
    Type::DisplayMatrix,
    Type::AFD,
    Type::MotionVectors,
    Type::SkipSamples,
    Type::AudioServiceType,
    Type::MasteringDisplayMetadata,
    Type::GOPTimecode,
    Type::Spherical,
    Type::ContentLightLevel,
    Type::IccProfile,
    Type::QPTableProperties,
    Type::QPTableData,
    Type::S12MTimecode,
    Type::DynamicHdrPlus,
    Type::RegionsOfInterest,
    Type::VideoEncParams,
];

#[test]
fn named_types_round_trip() {
    for t in NAMED {
        assert_eq!(Type::from_tag(t.tag()), t);
        assert_eq!(Type::from(i32::from(t)), t);
    }
}

#[test]
fn named_tags_are_distinct() {
    for (i, a) in NAMED.iter().enumerate() {
        for b in NAMED.iter().skip(i + 1) {
            assert_ne!(a.tag(), b.tag());
        }
    }
}

#[test]
fn known_tag_values() {
    assert_eq!(Type::PanScan.tag(), 0);
    assert_eq!(Type::ContentLightLevel.tag(), 14);
    assert_eq!(Type::IccProfile.tag(), 15);
    assert_eq!(Type::VideoEncParams.tag(), 21);
    assert_eq!(Type::from_tag(14), Type::ContentLightLevel);
}

#[test]
fn unknown_tags_become_other() {
    for tag in [-1, 22, 1000, i32::MIN, i32::MAX] {
        let t = Type::from_tag(tag);
        assert_eq!(t, Type::Other(tag));
        assert_eq!(t.tag(), tag);
        assert_eq!(i32::from(Type::from(tag)), tag);
    }
}

#[test]
fn content_light_level_block() {
    let payload = [0x01u8, 0x02, 0x03, 0x04];
    let entries: Vec<(String, String)> = Vec::new();
    let block = SideData::wrap(Type::ContentLightLevel.tag(), &payload, DictionaryRef::wrap(&entries));
    assert_eq!(block.kind(), Type::ContentLightLevel);
    assert_eq!(block.data(), &[0x01u8, 0x02, 0x03, 0x04][..]);
    assert!(block.metadata().is_empty());
    assert_eq!(block.metadata().len(), 0);
}

#[test]
fn block_with_unknown_tag_and_metadata() {
    let payload: [u8; 0] = [];
    let entries = vec![
        ("lang".to_string(), "en".to_string()),
        ("title".to_string(), "main".to_string()),
    ];
    let block = SideData::wrap(77, &payload, DictionaryRef::wrap(&entries));
    assert_eq!(block.kind(), Type::Other(77));
    assert!(block.data().is_empty());
    let metadata = block.metadata();
    assert_eq!(metadata.len(), 2);
    assert!(!metadata.is_empty());
    assert_eq!(metadata.entry(0), ("lang", "en"));
    assert_eq!(metadata.entry(1), ("title", "main"));
}
