use opi::channel::{
    AmbisonicsChannelLayout, AmbisonicsMappingTable, ChannelLayoutError, ChannelMapping,
    MappingTable, RtpChannelLayout, StandardMappingTable, VorbisChannelLayout,
};
use opi::slice_ext::BoundsError;
use std::convert::TryFrom;

#[test]
fn rtp_layouts() {
    assert_eq!(RtpChannelLayout::try_from(1), Ok(RtpChannelLayout::Mono));
    assert_eq!(RtpChannelLayout::try_from(2), Ok(RtpChannelLayout::Stereo));
    assert_eq!(RtpChannelLayout::try_from(0), Err(ChannelLayoutError::BadChannelsForFamily));
    assert_eq!(RtpChannelLayout::try_from(3), Err(ChannelLayoutError::BadChannelsForFamily));
    assert_eq!((RtpChannelLayout::Mono.streams(), RtpChannelLayout::Mono.coupled()), (1, 0));
    assert_eq!((RtpChannelLayout::Stereo.streams(), RtpChannelLayout::Stereo.coupled()), (1, 1));
}

#[test]
fn vorbis_and_ambisonics_layouts() {
    assert_eq!(VorbisChannelLayout::try_from(6), Ok(VorbisChannelLayout::FivePointOne));
    assert_eq!(VorbisChannelLayout::try_from(9), Err(ChannelLayoutError::BadChannelsForFamily));
    assert_eq!(AmbisonicsChannelLayout::try_from(4), Ok(AmbisonicsChannelLayout::One));
    assert_eq!(
        AmbisonicsChannelLayout::try_from(227),
        Ok(AmbisonicsChannelLayout::FourteenNonDiegetic)
    );
    assert_eq!(
        AmbisonicsChannelLayout::try_from(5),
        Err(ChannelLayoutError::BadChannelsForFamily)
    );
}

#[test]
fn standard_mapping_table() {
    let table = StandardMappingTable::new(3, &[2, 1, 0, 2, 1, 99]).unwrap();
    assert_eq!((table.streams(), table.coupled()), (2, 1));
    assert_eq!(table.clone(), table);
}

#[test]
fn standard_mapping_table_errors() {
    assert_eq!(StandardMappingTable::new(1, &[1]), Err(ChannelLayoutError::UnexpectedEof));
    assert_eq!(StandardMappingTable::new(1, &[0, 0, 0]), Err(ChannelLayoutError::IllegalStreams));
    assert_eq!(StandardMappingTable::new(1, &[1, 2, 0]), Err(ChannelLayoutError::IllegalStreams));
    assert_eq!(
        StandardMappingTable::new(1, &[200, 100, 0]),
        Err(ChannelLayoutError::IllegalStreams)
    );
    assert_eq!(StandardMappingTable::new(3, &[2, 1, 0, 1]), Err(ChannelLayoutError::UnexpectedEof));
    // the largest legal stream counts
    assert!(StandardMappingTable::new(0, &[255, 0]).is_ok());
    assert!(StandardMappingTable::new(0, &[128, 127]).is_ok());
}

#[test]
fn ambisonics_mapping_table() {
    let table = AmbisonicsMappingTable::new(2, &[2, 0, 0x01, 0x02, 0xff, 0xff]).unwrap();
    assert_eq!((table.streams(), table.coupled()), (2, 0));
    assert_eq!(table.clone(), table);
    assert_eq!(
        AmbisonicsMappingTable::new(2, &[2, 0, 0x01, 0x02, 0xff]),
        Err(ChannelLayoutError::UnexpectedEof)
    );
}

#[test]
fn channel_mappings() {
    assert_eq!(
        ChannelMapping::new(2, 0, &[]),
        Ok(ChannelMapping::RTP(RtpChannelLayout::Stereo))
    );
    let vorbis = ChannelMapping::new(3, 1, &[2, 1, 0, 2, 1]).unwrap();
    assert_eq!((vorbis.streams(), vorbis.coupled()), (2, 1));
    match vorbis {
        ChannelMapping::Vorbis { layout, .. } => {
            assert_eq!(layout, VorbisChannelLayout::LinearSurround)
        }
        other => panic!("unexpected mapping {:?}", other),
    }
    assert_eq!(ChannelMapping::new(3, 0, &[]), Err(ChannelLayoutError::BadChannelsForFamily));
    assert_eq!(ChannelMapping::new(9, 1, &[1, 0]), Err(ChannelLayoutError::BadChannelsForFamily));
    assert_eq!(ChannelMapping::new(4, 2, &[4, 0, 0, 1, 2]), Err(ChannelLayoutError::UnexpectedEof));
    assert!(ChannelMapping::new(4, 3, &[4, 0, 1, 0, 2, 0, 3, 0, 4, 0]).is_ok());
    assert!(ChannelMapping::new(7, 255, &[7, 0, 0, 1, 2, 3, 4, 5, 6]).is_ok());
    // family 255 takes 1 to 255 channels
    assert_eq!(ChannelMapping::new(0, 255, &[1, 0]), Err(ChannelLayoutError::BadChannelsForFamily));
    assert_eq!(ChannelMapping::new(2, 4, &[1, 1, 0, 1]), Err(ChannelLayoutError::UnknownFamily));
}

#[test]
fn bounds_error_converts_to_unexpected_eof() {
    assert_eq!(ChannelLayoutError::from(BoundsError), ChannelLayoutError::UnexpectedEof);
    assert_eq!(ChannelLayoutError::UnknownFamily.description(), "unknown channel layout family");
    assert_eq!(BoundsError.description(), "out of bounds");
}
