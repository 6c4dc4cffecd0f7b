use opi::ec::RangeDecoder;
use opi::packet::{Bandwidth, FrameSize};
use opi::silk::frame::{
    QuantizationOffsetType, SignalType, SilkFrame, SilkFrameEnvironment, StereoPredWeights,
};
use opi::silk::{
    Channel, LbrrFrameHeader, LpChannelHeader, LpHeader, SilkDecoder, SilkError, SilkPacket,
};

const STEREO_40: [u8; 24] = [
    237, 147, 182, 178, 140, 176, 209, 179, 88, 230, 186, 171, 72, 85, 101, 185, 244, 144, 40,
    213, 87, 215, 154, 138,
];
const MONO_60: [u8; 16] = [185, 70, 230, 169, 71, 17, 9, 243, 183, 159, 17, 10, 38, 246, 34, 159];
const STEREO_20: [u8; 16] = [242, 137, 179, 73, 195, 5, 191, 247, 140, 235, 116, 0, 74, 225, 188, 83];

#[test]
fn stereo_40ms_packet_header_and_frames() {
    let mut data = RangeDecoder::new(&STEREO_40);
    let mut packet =
        SilkPacket::from_stream(&mut data, FrameSize::Fourty, Bandwidth::Fullband, true).unwrap();
    assert_eq!(packet.bandwidth, Bandwidth::Wideband);
    assert_eq!(packet.frames, 2);
    assert_eq!(packet.subframes, 4);
    assert_eq!(
        packet.lp_header,
        LpHeader {
            mid: LpChannelHeader { vad: 3, lbrr: true },
            mid_lbrr: Some(LbrrFrameHeader(2)),
            side: Some(LpChannelHeader { vad: 2, lbrr: true }),
            side_lbrr: Some(LbrrFrameHeader(3)),
        }
    );
    assert_eq!(
        packet.next(&mut data),
        Some(SilkFrame {
            stereo_pred_weights: Some(StereoPredWeights { w0_q13: -2375, w1_q13: 6350 }),
            mid_only: Some(false),
            signal_type: SignalType::Voiced,
            quantization_offset_type: QuantizationOffsetType::Low,
        })
    );
    assert_eq!(
        packet.next(&mut data),
        Some(SilkFrame {
            stereo_pred_weights: None,
            mid_only: None,
            signal_type: SignalType::Unvoiced,
            quantization_offset_type: QuantizationOffsetType::High,
        })
    );
    assert_eq!(packet.next(&mut data), None);
    assert_eq!(packet.next(&mut data), None);
    assert_eq!(data.decode(1000), Some(651));
}

#[test]
fn mono_60ms_packet_header() {
    let mut data = RangeDecoder::new(&MONO_60);
    let mut packet =
        SilkPacket::from_stream(&mut data, FrameSize::Sixty, Bandwidth::Narrowband, false)
            .unwrap();
    assert_eq!(packet.bandwidth, Bandwidth::Narrowband);
    assert_eq!((packet.frames, packet.subframes), (3, 4));
    assert_eq!(
        packet.lp_header,
        LpHeader {
            mid: LpChannelHeader { vad: 5, lbrr: true },
            mid_lbrr: Some(LbrrFrameHeader(6)),
            side: None,
            side_lbrr: None,
        }
    );
    let frame = packet.next(&mut data).unwrap();
    assert_eq!(frame.signal_type, SignalType::Unvoiced);
    assert_eq!(frame.quantization_offset_type, QuantizationOffsetType::Low);
    assert_eq!(frame.mid_only(), None);
    assert_eq!(data.decode(1000), Some(926));
}

#[test]
fn vad_flags_are_the_decoded_flags() {
    let header = LpChannelHeader { vad: 5, lbrr: false };
    assert!(header.vad(0));
    assert!(!header.vad(1));
    assert!(header.vad(2));
    assert!(!header.lbrr());
    let lbrr = LbrrFrameHeader(6);
    assert!(!lbrr.lbrr(0));
    assert!(lbrr.lbrr(1));
    assert!(lbrr.lbrr(2));
}

#[test]
fn stereo_prediction_weights() {
    let mut data = RangeDecoder::new(&STEREO_40);
    assert_eq!(
        StereoPredWeights::from_stream(&mut data),
        StereoPredWeights { w0_q13: -3294, w1_q13: 8444 }
    );
    assert_eq!(data.decode(1000), Some(769));
}

#[test]
fn decoder_reads_header_and_first_frame() {
    let mut data = RangeDecoder::new(&STEREO_40);
    let mut decoder = SilkDecoder::new(true);
    assert_eq!(
        decoder.decode(&mut data, FrameSize::Fourty, Bandwidth::Wideband, true),
        Ok(())
    );
    assert_eq!(data.decode(1000), Some(282));
    assert_eq!(decoder.stereo_pred_weights, StereoPredWeights::default());

    let mut data = RangeDecoder::new(&STEREO_20);
    assert_eq!(
        decoder.decode(&mut data, FrameSize::Twenty, Bandwidth::Mediumband, true),
        Ok(())
    );
    assert_eq!(data.decode(1000), Some(760));
}

#[test]
fn stereo_20ms_first_frame() {
    let mut data = RangeDecoder::new(&STEREO_20);
    let mut packet =
        SilkPacket::from_stream(&mut data, FrameSize::Twenty, Bandwidth::SuperWideband, true)
            .unwrap();
    assert_eq!(packet.lp_header.mid, LpChannelHeader { vad: 1, lbrr: true });
    assert_eq!(packet.lp_header.side, Some(LpChannelHeader { vad: 1, lbrr: true }));
    assert_eq!(packet.lp_header.mid_lbrr, None);
    let frame = packet.next(&mut data).unwrap();
    assert_eq!(frame.stereo_pred_weights, Some(StereoPredWeights { w0_q13: 765, w1_q13: -5150 }));
    assert_eq!(frame.mid_only, None);
    assert_eq!(frame.signal_type, SignalType::Unvoiced);
    assert_eq!(frame.quantization_offset_type, QuantizationOffsetType::High);
    assert_eq!(packet.next(&mut data), None);
}

#[test]
fn inactive_mono_frame_on_empty_stream() {
    let data = &mut RangeDecoder::new(&[]);
    let lp_header = LpHeader {
        mid: LpChannelHeader { vad: 0, lbrr: false },
        mid_lbrr: None,
        side: None,
        side_lbrr: None,
    };
    let env = SilkFrameEnvironment {
        channel: Channel::Mid,
        frame_no: 0,
        lbrr: false,
        stereo: false,
        lp_header: &lp_header,
    };
    let f = SilkFrame::from_stream(data, env);
    assert_eq!(f.stereo_pred_weights, None);
    assert_eq!(f.mid_only(), None);
    assert_eq!(f.signal_type, SignalType::Inactive);
    assert_eq!(f.quantization_offset_type, QuantizationOffsetType::Low);
}

#[test]
fn celt_frame_sizes_are_rejected() {
    let mut data = RangeDecoder::new(&STEREO_40);
    let before = data;
    let mut decoder = SilkDecoder::new(false);
    assert_eq!(
        decoder.decode(&mut data, FrameSize::TwoPointFive, Bandwidth::Fullband, false),
        Err(SilkError::InvalidFrameSize)
    );
    assert_eq!(
        SilkPacket::from_stream(&mut data, FrameSize::Five, Bandwidth::Fullband, false),
        Err(SilkError::InvalidFrameSize)
    );
    assert_eq!(data, before);
    assert_eq!(SilkError::InvalidFrameSize.description(), "invalid frame size");
}

#[test]
fn channels_alternate_by_frame_number() {
    let header = LpHeader {
        mid: LpChannelHeader { vad: 0, lbrr: false },
        mid_lbrr: None,
        side: None,
        side_lbrr: None,
    };
    assert_eq!(Channel::new(header, 0), Channel::Mid);
    assert_eq!(Channel::new(header, 1), Channel::Side);
    assert_eq!(Channel::new(header, 2), Channel::Mid);
    assert_eq!(header.channel(Channel::Side), None);
    assert_eq!(header.lbrr(Channel::Mid), None);
}
