use opi::channel::ChannelLayoutError;
use opi::ogg::OggOpusError;
use opi::slice_ext::BoundsError;
use opi::Error;

#[test]
fn error_test_send() {
    fn assert_send<T: Send>() {}
    assert_send::<Error>();
}

#[test]
fn error_test_sync() {
    fn assert_sync<T: Sync>() {}
    assert_sync::<Error>();
}

#[test]
fn errors_convert_into_their_variants() {
    assert!(matches!(Error::from(OggOpusError::BadMagic), Error::OggOpus(OggOpusError::BadMagic)));
    assert!(matches!(
        Error::from(ChannelLayoutError::IllegalStreams),
        Error::ChannelLayout(ChannelLayoutError::IllegalStreams)
    ));
    assert!(matches!(Error::from(BoundsError), Error::Bounds(BoundsError)));
    let io = std::io::Error::new(std::io::ErrorKind::UnexpectedEof, "eof");
    assert!(matches!(Error::from(io), Error::Io(_)));
    assert_eq!(Error::from(BoundsError).description(), "Opus decoding error");
}
