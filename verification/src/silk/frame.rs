//! The frames of a SILK packet: stereo prediction weights, the mid-only flag
//! and the frame type (RFC 6716, sections 4.2.7.1 to 4.2.7.3).
use crate::ec::{
    DecoderState, RangeDecoder, lemma_decode_icdf_next_normalized, lemma_decode_icdf_terminated,
    lemma_icdf_is_decode_then_update,
};
use crate::silk::{bit_of, Channel, LpHeader};
use vstd::prelude::*;

verus! {

/// The signal type of a frame.
#[derive(Debug, PartialEq, Eq, PartialOrd, Ord, Clone, Copy, Hash)]
pub enum SignalType {
    /// No voice activity.
    Inactive,
    /// Unvoiced speech.
    Unvoiced,
    /// Voiced speech.
    Voiced,
}

/// The quantization offset type of a frame.
#[derive(Debug, PartialEq, Eq, PartialOrd, Ord, Clone, Copy, Hash)]
pub enum QuantizationOffsetType {
    /// The low offset.
    Low,
    /// The high offset.
    High,
}

/// The stereo prediction weights in Q13.
pub open spec fn stereo_pred_weights_q13() -> Seq<i16> {
    seq![
        -13732i16, -10050i16, -8266i16, -7526i16, -6500i16, -5000i16, -2950i16, -820i16,
        820i16, 2950i16, 5000i16, 6500i16, 7526i16, 8266i16, 10050i16, 13732i16,
    ]
}

/// The inverse CDF of the first stage of the stereo prediction weights.
pub open spec fn icdf_stereo_pred_weights_stage_1() -> Seq<u8> {
    seq![
        249, 247, 246, 245, 244, 234, 210, 202, 201, 200, 197, 174, 82, 59, 56, 55, 54, 46, 22,
        12, 11, 10, 9, 7, 0,
    ]
}

/// The inverse CDF of the second stage of the stereo prediction weights.
pub open spec fn icdf_stereo_pred_weights_stage_2() -> Seq<u8> {
    seq![171, 85, 0]
}

/// The inverse CDF of the third stage of the stereo prediction weights.
pub open spec fn icdf_stereo_pred_weights_stage_3() -> Seq<u8> {
    seq![205, 154, 102, 51, 0]
}

/// The inverse CDF of the mid-only flag.
pub open spec fn icdf_mid_only() -> Seq<u8> {
    seq![64, 0]
}

/// The inverse CDF of the frame type of a frame without voice activity.
pub open spec fn icdf_frame_type_no_vad() -> Seq<u8> {
    seq![230, 0]
}

/// The inverse CDF of the frame type of a frame with voice activity.
pub open spec fn icdf_frame_type_vad() -> Seq<u8> {
    seq![232, 158, 10, 0]
}

/// A prediction weight: the interval `win` of the weight table, stepped to its
/// sub-interval `i_n` of five.
pub open spec fn spec_wn_q13(win: int, i_n: int) -> int {
    let w = stereo_pred_weights_q13();
    let low = w[win] as int;
    let step = w[win + 1] - low;
    low + (step * 6554 / 0x1_0000) * (2 * i_n + 1)
}

/// Stereo prediction weights in Q13.
#[derive(Debug, PartialEq, Eq, PartialOrd, Ord, Clone, Copy, Hash)]
pub struct StereoPredWeights {
    /// The first weight.
    pub w0_q13: i16,
    /// The second weight.
    pub w1_q13: i16,
}

impl Default for StereoPredWeights {
    fn default() -> (r: StereoPredWeights)
        ensures
            r.w0_q13 == 0 && r.w1_q13 == 0,
    {
        StereoPredWeights { w0_q13: 0, w1_q13: 0 }
    }
}

/// The weights that `StereoPredWeights::from_stream` decodes, and the state after them.
pub open spec fn stereo_pred_weights(s: DecoderState) -> (StereoPredWeights, DecoderState) {
    let n = s.icdf_symbol(icdf_stereo_pred_weights_stage_1(), 8) as int;
    let s1 = s.decode_icdf_next(icdf_stereo_pred_weights_stage_1(), 8);
    let i0 = s1.icdf_symbol(icdf_stereo_pred_weights_stage_2(), 8) as int;
    let s2 = s1.decode_icdf_next(icdf_stereo_pred_weights_stage_2(), 8);
    let i1 = s2.icdf_symbol(icdf_stereo_pred_weights_stage_3(), 8) as int;
    let s3 = s2.decode_icdf_next(icdf_stereo_pred_weights_stage_3(), 8);
    let i2 = s3.icdf_symbol(icdf_stereo_pred_weights_stage_2(), 8) as int;
    let s4 = s3.decode_icdf_next(icdf_stereo_pred_weights_stage_2(), 8);
    let i3 = s4.icdf_symbol(icdf_stereo_pred_weights_stage_3(), 8) as int;
    let s5 = s4.decode_icdf_next(icdf_stereo_pred_weights_stage_3(), 8);
    let w1 = spec_wn_q13(i2 + 3 * (n % 5), i3);
    let w0 = spec_wn_q13(i0 + 3 * (n / 5), i1) - w1;
    (StereoPredWeights { w0_q13: w0 as i16, w1_q13: w1 as i16 }, s5)
}

/// Each step of the weight table is at most 3682, and the table lies within
/// `[-13732, 13732]`.
proof fn lemma_weight_steps(k: int)
    requires
        0 <= k < 15,
    ensures
        0 <= stereo_pred_weights_q13()[k + 1] - stereo_pred_weights_q13()[k] <= 3682,
        -13732 <= stereo_pred_weights_q13()[k],
        stereo_pred_weights_q13()[k] <= 10050,
{
    let w = stereo_pred_weights_q13();
    if k < 8 {
        assert(k == 0 || k == 1 || k == 2 || k == 3 || k == 4 || k == 5 || k == 6 || k == 7);
    } else {
        assert(k == 8 || k == 9 || k == 10 || k == 11 || k == 12 || k == 13 || k == 14);
    }
}

/// A prediction weight of interval `win` and sub-interval `i_n`.
fn wn_q13(win: usize, i_n: usize) -> (r: i16)
    requires
        win < 15,
        i_n < 5,
    ensures
        r == spec_wn_q13(win as int, i_n as int),
        -13732 <= r <= 13362,
{
    let table: [i16; 16] = [
        -13732, -10050, -8266, -7526, -6500, -5000, -2950, -820, 820, 2950, 5000, 6500, 7526,
        8266, 10050, 13732,
    ];
    proof {
        assert(table@ =~= stereo_pred_weights_q13());
        lemma_weight_steps(win as int);
    }
    let low = table[win];
    let step = (table[win + 1] - low) as i32;
    let scaled = step * 6554;
    proof {
        assert(scaled >> 16 == scaled / 0x1_0000) by (bit_vector)
            requires
                0 <= scaled,
        ;
        assert(scaled / 0x1_0000 <= 368) by (nonlinear_arith)
            requires
                scaled == step * 6554,
                0 <= step <= 3682,
        ;
        assert(0 <= scaled / 0x1_0000);
    }
    let delta = (scaled >> 16) as i16;
    let odd = (2 * i_n + 1) as i16;
    proof {
        assert(0 <= delta * odd <= 368 * 9) by (nonlinear_arith)
            requires
                0 <= delta <= 368,
                1 <= odd <= 9,
        ;
    }
    low + delta * odd
}

impl StereoPredWeights {
    /// Decodes the stereo prediction weights: an index of 25 pairs of intervals, then an
    /// interval of three and a sub-interval of five for each weight.
    pub fn from_stream(data: &mut RangeDecoder<'_>) -> (r: StereoPredWeights)
        requires
            old(data)@.valid(),
        ensures
            (r, final(data)@) == stereo_pred_weights(old(data)@),
            final(data)@.valid(),
    {
        let icdf_stage_1: [u8; 25] = [
            249, 247, 246, 245, 244, 234, 210, 202, 201, 200, 197, 174, 82, 59, 56, 55, 54, 46, 22,
            12, 11, 10, 9, 7, 0,
        ];
        let icdf_stage_2: [u8; 3] = [171, 85, 0];
        let icdf_stage_3: [u8; 5] = [205, 154, 102, 51, 0];
        proof {
            assert(icdf_stage_1@ =~= icdf_stereo_pred_weights_stage_1());
            assert(icdf_stage_2@ =~= icdf_stereo_pred_weights_stage_2());
            assert(icdf_stage_3@ =~= icdf_stereo_pred_weights_stage_3());
        }

        // decode (n, (i0, i1, i2, i3))
        proof {
            lemma_decode_icdf_terminated(data@, icdf_stage_1@, 8);
        }
        let n = data.decode_icdf(icdf_stage_1.as_slice(), 8).unwrap();
        proof {
            lemma_decode_icdf_terminated(data@, icdf_stage_2@, 8);
        }
        let i0 = data.decode_icdf(icdf_stage_2.as_slice(), 8).unwrap();
        proof {
            lemma_decode_icdf_terminated(data@, icdf_stage_3@, 8);
        }
        let i1 = data.decode_icdf(icdf_stage_3.as_slice(), 8).unwrap();
        proof {
            lemma_decode_icdf_terminated(data@, icdf_stage_2@, 8);
        }
        let i2 = data.decode_icdf(icdf_stage_2.as_slice(), 8).unwrap();
        proof {
            lemma_decode_icdf_terminated(data@, icdf_stage_3@, 8);
        }
        let i3 = data.decode_icdf(icdf_stage_3.as_slice(), 8).unwrap();

        let w1_q13 = wn_q13(i2 + 3 * (n % 5), i3);
        let w0_q13 = wn_q13(i0 + 3 * (n / 5), i1) - w1_q13;
        StereoPredWeights { w0_q13, w1_q13 }
    }
}

/// A decoded SILK frame header.
#[derive(Debug, PartialEq, Eq, Clone, Copy, Hash)]
pub struct SilkFrame {
    /// The stereo prediction weights (mid channel of stereo packets only).
    pub stereo_pred_weights: Option<StereoPredWeights>,
    /// The mid-only flag (coded only where the side channel is inactive).
    pub mid_only: Option<bool>,
    /// The signal type.
    pub signal_type: SignalType,
    /// The quantization offset type.
    pub quantization_offset_type: QuantizationOffsetType,
}

/// What a frame's decoding depends on.
#[derive(Debug, PartialEq, Eq, Clone, Copy, Hash)]
pub struct SilkFrameEnvironment<'a> {
    /// The channel the frame belongs to.
    pub channel: Channel,
    /// The frame's number within its packet.
    pub frame_no: u8,
    /// Whether the frame is an LBRR frame.
    pub lbrr: bool,
    /// The packet's header.
    pub lp_header: &'a LpHeader,
    /// Whether the packet is stereo.
    pub stereo: bool,
}

/// The frame type that the symbol `sym` of a frame with voice activity stands for.
pub open spec fn vad_frame_type(sym: nat) -> (SignalType, QuantizationOffsetType) {
    if sym == 0 {
        (SignalType::Unvoiced, QuantizationOffsetType::Low)
    } else if sym == 1 {
        (SignalType::Unvoiced, QuantizationOffsetType::High)
    } else if sym == 2 {
        (SignalType::Voiced, QuantizationOffsetType::Low)
    } else {
        (SignalType::Voiced, QuantizationOffsetType::High)
    }
}

/// Whether the side channel of frame `frame_no` is coded, as the mid channel's frame sees it.
pub open spec fn side_active_coded(lp_header: LpHeader, frame_no: u8, lbrr: bool) -> bool {
    if !lbrr {
        bit_of(lp_header.side.unwrap().vad, frame_no)
    } else {
        match lp_header.side_lbrr {
            Some(flags) => bit_of(flags.0, frame_no),
            None => true,
        }
    }
}

/// The frame that `SilkFrame::from_stream` decodes, and the state after it.
pub open spec fn silk_frame(
    s: DecoderState,
    channel: Channel,
    frame_no: u8,
    lbrr: bool,
    lp_header: LpHeader,
    stereo: bool,
) -> (SilkFrame, DecoderState) {
    let (stereo_pred_weights, mid_only, s1) = if stereo && channel == Channel::Mid {
        let (w, t) = stereo_pred_weights(s);
        if !side_active_coded(lp_header, frame_no, lbrr) {
            (
                Some(w),
                Some(t.icdf_symbol(icdf_mid_only(), 8) != 0),
                t.decode_icdf_next(icdf_mid_only(), 8),
            )
        } else {
            (Some(w), None, t)
        }
    } else {
        (None, None, s)
    };
    let vad = bit_of(lp_header.spec_channel(channel).unwrap().vad, frame_no);
    let (frame_type, s2) = if vad {
        (
            vad_frame_type(s1.icdf_symbol(icdf_frame_type_vad(), 8)),
            s1.decode_icdf_next(icdf_frame_type_vad(), 8),
        )
    } else {
        (
            (
                SignalType::Inactive,
                if s1.icdf_symbol(icdf_frame_type_no_vad(), 8) == 0 {
                    QuantizationOffsetType::Low
                } else {
                    QuantizationOffsetType::High
                },
            ),
            s1.decode_icdf_next(icdf_frame_type_no_vad(), 8),
        )
    };
    (
        SilkFrame {
            stereo_pred_weights,
            mid_only,
            signal_type: frame_type.0,
            quantization_offset_type: frame_type.1,
        },
        s2,
    )
}

/// The environment allows decoding a frame: the frame's channel has a header and, where the
/// mid-only flag depends on it, so has the side channel.
pub open spec fn frame_decodable(env: SilkFrameEnvironment) -> bool {
    &&& env.frame_no < 8
    &&& env.lp_header.spec_channel(env.channel) is Some
    &&& (env.stereo && env.channel == Channel::Mid && !env.lbrr) ==> env.lp_header.side is Some
}

impl SilkFrame {
    /// Decodes a frame: for the mid channel of a stereo packet the prediction weights and,
    /// where the side channel is not coded, the mid-only flag; then the frame type.
    pub fn from_stream(data: &mut RangeDecoder<'_>, env: SilkFrameEnvironment<'_>) -> (r: SilkFrame)
        requires
            old(data)@.valid(),
            frame_decodable(env),
        ensures
            (r, final(data)@) == silk_frame(
                old(data)@,
                env.channel,
                env.frame_no,
                env.lbrr,
                *env.lp_header,
                env.stereo,
            ),
            final(data)@.valid(),
    {
        let channel = env.lp_header.channel(env.channel).unwrap();
        let vad = channel.vad(env.frame_no);

        // the prediction weights and the mid-only flag
        let (stereo_pred_weights, mid_only) = if env.stereo && env.channel == Channel::Mid {
            let stereo_pred_weights = StereoPredWeights::from_stream(data);

            // decode mid-only flag
            let active_coded = if !env.lbrr {
                env.lp_header.channel(Channel::Side).unwrap().vad(env.frame_no)
            } else {
                match env.lp_header.lbrr(Channel::Side) {
                    Some(lbrr_flags) => lbrr_flags.lbrr(env.frame_no),
                    None => true,
                }
            };
            let mid_only = if !active_coded {
                let icdf_mid_only_table: [u8; 2] = [64, 0];
                proof {
                    assert(icdf_mid_only_table@ =~= icdf_mid_only());
                    lemma_decode_icdf_terminated(data@, icdf_mid_only_table@, 8);
                }
                Some(data.decode_icdf(icdf_mid_only_table.as_slice(), 8).unwrap() != 0)
            } else {
                None
            };

            (Some(stereo_pred_weights), mid_only)
        } else {
            (None, None)
        };

        // the frame type
        let (signal_type, quantization_offset_type) = if vad {
            let icdf_vad: [u8; 4] = [232, 158, 10, 0];
            proof {
                assert(icdf_vad@ =~= icdf_frame_type_vad());
                lemma_decode_icdf_terminated(data@, icdf_vad@, 8);
            }
            // the symbol is below 4, the table's length
            match data.decode_icdf(icdf_vad.as_slice(), 8).unwrap() {
                0 => (SignalType::Unvoiced, QuantizationOffsetType::Low),
                1 => (SignalType::Unvoiced, QuantizationOffsetType::High),
                2 => (SignalType::Voiced, QuantizationOffsetType::Low),
                _ => (SignalType::Voiced, QuantizationOffsetType::High),
            }
        } else {
            let icdf_no_vad: [u8; 2] = [230, 0];
            proof {
                assert(icdf_no_vad@ =~= icdf_frame_type_no_vad());
                lemma_decode_icdf_terminated(data@, icdf_no_vad@, 8);
            }
            (
                SignalType::Inactive,
                if data.decode_icdf(icdf_no_vad.as_slice(), 8).unwrap() == 0 {
                    QuantizationOffsetType::Low
                } else {
                    QuantizationOffsetType::High
                },
            )
        };

        SilkFrame { stereo_pred_weights, mid_only, signal_type, quantization_offset_type }
    }

    /// The mid-only flag, where it was coded.
    pub fn mid_only(&self) -> (r: Option<bool>)
        ensures
            r == self.mid_only,
    {
        self.mid_only
    }
}

/// From a valid decoder, the state after the prediction weights is normalized.
proof fn lemma_stereo_pred_weights_normalized(s: DecoderState)
    requires
        s.valid(),
    ensures
        stereo_pred_weights(s).1.normalized(),
{
    let t1 = icdf_stereo_pred_weights_stage_1();
    let t2 = icdf_stereo_pred_weights_stage_2();
    let t3 = icdf_stereo_pred_weights_stage_3();
    assert(t1.last() == 0 && t2.last() == 0 && t3.last() == 0);
    lemma_decode_icdf_next_normalized(s, t1, 8);
    let s1 = s.decode_icdf_next(t1, 8);
    lemma_decode_icdf_next_normalized(s1, t2, 8);
    let s2 = s1.decode_icdf_next(t2, 8);
    lemma_decode_icdf_next_normalized(s2, t3, 8);
    let s3 = s2.decode_icdf_next(t3, 8);
    lemma_decode_icdf_next_normalized(s3, t2, 8);
    let s4 = s3.decode_icdf_next(t2, 8);
    lemma_decode_icdf_next_normalized(s4, t3, 8);
}

/// A two-entry table `[x, 0]` with `0 < x < 256`: the index decoded with it is 1 exactly when
/// the symbol decoded with `ft = 256` lies in `[256 - x, 256)`.
proof fn lemma_two_symbol_table(s: DecoderState, x: u8)
    requires
        s.normalized(),
        0 < x,
    ensures
        s.decode_bin(8) matches Some(fs) && (s.icdf_symbol(seq![x, 0u8], 8) == 1 <==> fs >= 256
            - x) && s.icdf_symbol(seq![x, 0u8], 8) < 2,
{
    vstd::arithmetic::power2::lemma2_to64();
    let t = seq![x, 0u8];
    assert forall|i: int, j: int| 0 <= i < j < t.len() implies t[j] < t[i] by {
        assert(i == 0 && j == 1);
    }
    lemma_icdf_is_decode_then_update(s, t, 8);
}

/// In the mid channel of a stereo packet whose side channel is not coded in this frame (by its
/// voice activity flag, or for an LBRR frame by its LBRR flag, an absent LBRR header counting as
/// coded), the mid-only flag follows the prediction weights; nowhere else is one decoded. It is
/// coded with the probabilities {192, 64}/256 (RFC 6716, section 4.2.7.2): it is set exactly when
/// the symbol decoded there with `ft = 256` lies in the upper quarter, `[192, 256)`.
pub proof fn lemma_mid_only_flag(
    s: DecoderState,
    channel: Channel,
    frame_no: u8,
    lbrr: bool,
    lp_header: LpHeader,
    stereo: bool,
)
    requires
        s.valid(),
    ensures
        ({
            let f = silk_frame(s, channel, frame_no, lbrr, lp_header, stereo).0;
            let t = stereo_pred_weights(s).1;
            let side_coded = if !lbrr {
                bit_of(lp_header.side.unwrap().vad, frame_no)
            } else {
                (lp_header.side_lbrr matches Some(h) ==> bit_of(h.0, frame_no))
            };
            &&& f.mid_only is Some <==> (stereo && channel == Channel::Mid && !side_coded)
            &&& f.mid_only matches Some(b) ==> (t.decode_bin(8) matches Some(fs) && b == (fs
                >= 192))
        }),
{
    if stereo && channel == Channel::Mid {
        lemma_stereo_pred_weights_normalized(s);
        let t = stereo_pred_weights(s).1;
        lemma_two_symbol_table(t, 64);
        assert(icdf_mid_only() =~= seq![64u8, 0u8]);
    }
}

/// The frame type follows the stereo information and is coded with `ft = 256` (RFC 6716,
/// section 4.2.7.3). Without voice activity the frame is inactive, with the probabilities
/// {26, 230}/256: the low quantization offset for a symbol in `[0, 26)`, the high one in
/// `[26, 256)`. With voice activity, the probabilities {24, 74, 148, 10}/256: unvoiced in
/// `[0, 98)` and voiced in `[98, 256)`, with the high offset in `[24, 98)` and `[246, 256)`.
pub proof fn lemma_frame_type(
    s: DecoderState,
    channel: Channel,
    frame_no: u8,
    lbrr: bool,
    lp_header: LpHeader,
    stereo: bool,
)
    requires
        s.normalized(),
    ensures
        ({
            let f = silk_frame(s, channel, frame_no, lbrr, lp_header, stereo).0;
            let s1 = if stereo && channel == Channel::Mid {
                let t = stereo_pred_weights(s).1;
                if f.mid_only is Some {
                    t.decode_icdf_next(seq![64u8, 0u8], 8)
                } else {
                    t
                }
            } else {
                s
            };
            let vad = bit_of(lp_header.spec_channel(channel).unwrap().vad, frame_no);
            &&& s1.decode_bin(8) matches Some(fs)
            &&& !vad ==> f.signal_type == SignalType::Inactive && (f.quantization_offset_type
                == QuantizationOffsetType::Low <==> fs < 26)
            &&& vad ==> f.signal_type != SignalType::Inactive && (f.signal_type
                == SignalType::Voiced <==> fs >= 98) && (f.quantization_offset_type
                == QuantizationOffsetType::High <==> (24 <= fs < 98 || 246 <= fs))
        }),
{
    vstd::arithmetic::power2::lemma2_to64();
    let f = silk_frame(s, channel, frame_no, lbrr, lp_header, stereo).0;
    let s1 = if stereo && channel == Channel::Mid {
        lemma_stereo_pred_weights_normalized(s);
        let t = stereo_pred_weights(s).1;
        assert(icdf_mid_only() =~= seq![64u8, 0u8]);
        if f.mid_only is Some {
            lemma_decode_icdf_next_normalized(t, seq![64u8, 0u8], 8);
            t.decode_icdf_next(seq![64u8, 0u8], 8)
        } else {
            t
        }
    } else {
        s
    };
    assert(s1.normalized());
    lemma_two_symbol_table(s1, 230);
    assert(icdf_frame_type_no_vad() =~= seq![230u8, 0u8]);
    let tv = icdf_frame_type_vad();
    assert forall|i: int, j: int| 0 <= i < j < tv.len() implies tv[j] < tv[i] by {
        assert(tv[0] == 232 && tv[1] == 158 && tv[2] == 10 && tv[3] == 0);
    }
    lemma_icdf_is_decode_then_update(s1, tv, 8);
    assert(tv[0] == 232 && tv[1] == 158 && tv[2] == 10 && tv[3] == 0);
}

} // verus!
