//! The SILK layer: the header bits of a SILK packet (RFC 6716, section 4.2.3
//! and 4.2.4) and its frames.
use crate::ec::{DecoderState, RangeDecoder, lemma_decode_icdf_terminated};
use crate::packet::{Bandwidth, FrameSize};
use vstd::arithmetic::power2::pow2;
use vstd::prelude::*;

pub mod frame;

use self::frame::{SilkFrame, SilkFrameEnvironment, StereoPredWeights, silk_frame};

verus! {

/// The error type of the SILK layer.
#[derive(Debug, PartialEq, Eq, PartialOrd, Ord, Clone, Copy, Hash)]
pub enum SilkError {
    /// The frame size cannot be coded by SILK.
    InvalidFrameSize,
}

impl SilkError {
    /// A description of the error.
    pub fn description(&self) -> (r: &'static str)
        ensures
            r@ == "invalid frame size"@,
    {
        match self {
            SilkError::InvalidFrameSize => "invalid frame size",
        }
    }
}

/// The mid or the side channel of a stereo SILK packet.
#[derive(Debug, PartialEq, Eq, Structural, PartialOrd, Ord, Clone, Copy, Hash)]
pub enum Channel {
    /// The mid (or only) channel.
    Mid,
    /// The side channel.
    Side,
}

impl Channel {
    /// The channel of frame `channel_num`: odd numbers are the side channel.
    pub fn new(_lp_header: LpHeader, channel_num: u8) -> (r: Channel)
        ensures
            r == channel_of(channel_num),
    {
        if channel_num & 1 != 0 {
            proof {
                assert(channel_num & 1 != 0 ==> channel_num % 2 == 1) by (bit_vector);
            }
            Channel::Side
        } else {
            proof {
                assert(channel_num & 1 == 0 ==> channel_num % 2 == 0) by (bit_vector);
            }
            Channel::Mid
        }
    }
}

/// The channel that `Channel::new` gives for frame `channel_num`.
pub open spec fn channel_of(channel_num: u8) -> Channel {
    if channel_num % 2 == 1 {
        Channel::Side
    } else {
        Channel::Mid
    }
}

/// The bit that `decode_bit_logp(1)` decodes from `s`.
pub open spec fn flag(s: DecoderState) -> bool {
    s.bit_logp(1) == Some(true)
}

/// `n` successive flags decoded with `decode_bit_logp(1)`, and the state after them.
pub open spec fn decode_flags(s: DecoderState, n: nat) -> (Seq<bool>, DecoderState)
    decreases n,
{
    if n == 0 {
        (seq![], s)
    } else {
        let (bits, t) = decode_flags(s, (n - 1) as nat);
        (bits.push(flag(t)), t.bit_logp_next(1))
    }
}

/// The flags as bits of a number: flag `i` is bit `i`.
pub open spec fn pack_flags(bits: Seq<bool>) -> nat
    decreases bits.len(),
{
    if bits.len() == 0 {
        0
    } else {
        pack_flags(bits.drop_last()) + if bits.last() {
            pow2((bits.len() - 1) as nat)
        } else {
            0
        }
    }
}

/// Bit `i` of `x`.
pub open spec fn bit_of(x: u8, i: u8) -> bool {
    (x as nat / pow2(i as nat)) % 2 == 1
}

/// Decoding keeps the decoder valid.
proof fn lemma_decode_flags_valid(s: DecoderState, n: nat)
    requires
        s.valid(),
    ensures
        decode_flags(s, n).1.valid(),
        decode_flags(s, n).0.len() == n,
    decreases n,
{
    if n > 0 {
        lemma_decode_flags_valid(s, (n - 1) as nat);
        let t = decode_flags(s, (n - 1) as nat).1;
        crate::ec::lemma_renormalize_normalized(t.bit_logp_next_raw(1));
    }
}

/// The packed flags lie below `2^len`.
proof fn lemma_pack_flags_bound(bits: Seq<bool>)
    ensures
        pack_flags(bits) < pow2(bits.len()),
    decreases bits.len(),
{
    vstd::arithmetic::power2::lemma2_to64();
    if bits.len() > 0 {
        lemma_pack_flags_bound(bits.drop_last());
        vstd::arithmetic::power2::lemma_pow2_unfold(bits.len() as nat);
    }
}

/// Bit `i` of the packed flags is flag `i`.
proof fn lemma_pack_flags_bit(bits: Seq<bool>, i: nat)
    requires
        i < bits.len(),
    ensures
        (pack_flags(bits) / pow2(i)) % 2 == 1 <==> bits[i as int],
    decreases bits.len(),
{
    let n = bits.len();
    let init = bits.drop_last();
    let p = pack_flags(init);
    let c: int = if bits.last() {
        1
    } else {
        0
    };
    lemma_pack_flags_bound(init);
    vstd::arithmetic::power2::lemma_pow2_pos(i);
    assert(pack_flags(bits) == p + c * pow2((n - 1) as nat));
    if i == n - 1 {
        vstd::arithmetic::div_mod::lemma_hoist_over_denominator(p as int, c, pow2(i));
        vstd::arithmetic::div_mod::lemma_basic_div_specific_divisor(pow2(i) as int);
        assert(p as int / pow2(i) as int == 0);
    } else {
        let k = (n - 1 - i) as nat;
        vstd::arithmetic::power2::lemma_pow2_adds(i, k);
        vstd::arithmetic::power2::lemma_pow2_unfold(k);
        let e = pow2((k - 1) as nat) as int;
        assert(c * pow2((n - 1) as nat) == (c * 2 * e) * pow2(i)) by (nonlinear_arith)
            requires
                pow2((n - 1) as nat) == pow2(i) * pow2(k),
                pow2(k) == 2 * e,
        ;
        vstd::arithmetic::div_mod::lemma_hoist_over_denominator(p as int, c * 2 * e, pow2(i));
        assert((p as int / pow2(i) as int + c * 2 * e) % 2 == (p as int / pow2(i) as int) % 2) by {
            vstd::arithmetic::div_mod::lemma_mod_multiples_vanish(c * e, p as int / pow2(i) as int, 2);
        }
        lemma_pack_flags_bit(init, i);
    }
}

/// Frame `i`'s voice activity flag, as `LpChannelHeader::vad(i)` reports it, is the `i`-th
/// flag that `LpChannelHeader::from_stream` decoded.
pub proof fn lemma_vad_is_decoded_flag(s: DecoderState, frames: u8, i: u8)
    requires
        frames <= 8,
        i < frames,
    ensures
        bit_of(lp_channel_header(s, frames).0.vad, i) == decode_flags(s, frames as nat).0[i as int],
{
    let bits = decode_flags(s, frames as nat).0;
    lemma_decode_flags_len(s, frames as nat);
    lemma_pack_flags_bound(bits);
    vstd::arithmetic::power2::lemma_pow2_strictly_increases(frames as nat, 9);
    vstd::arithmetic::power2::lemma2_to64();
    lemma_pack_flags_bit(bits, i as nat);
}

/// `decode_flags` gives as many flags as asked for.
proof fn lemma_decode_flags_len(s: DecoderState, n: nat)
    ensures
        decode_flags(s, n).0.len() == n,
    decreases n,
{
    if n > 0 {
        lemma_decode_flags_len(s, (n - 1) as nat);
    }
}

/// The voice activity flags and the LBRR flag of one channel.
#[derive(Debug, PartialEq, Eq, Clone, Copy, Hash)]
pub struct LpChannelHeader {
    /// Bit `i` is the voice activity flag of frame `i`.
    pub vad: u8,
    /// Whether any frame of the channel carries LBRR data.
    pub lbrr: bool,
}

/// The channel header that `frames` voice activity flags and an LBRR flag give, and the
/// decoder state after them.
pub open spec fn lp_channel_header(s: DecoderState, frames: u8) -> (LpChannelHeader, DecoderState) {
    let (bits, t) = decode_flags(s, frames as nat);
    (LpChannelHeader { vad: pack_flags(bits) as u8, lbrr: flag(t) }, t.bit_logp_next(1))
}

impl LpChannelHeader {
    /// Decodes the voice activity flags of `frames` frames, then the LBRR flag.
    pub fn from_stream(data: &mut RangeDecoder<'_>, frames: u8) -> (r: LpChannelHeader)
        requires
            old(data)@.valid(),
            frames <= 8,
        ensures
            (r, final(data)@) == lp_channel_header(old(data)@, frames),
            final(data)@.valid(),
    {
        let ghost s0 = data@;
        let mut vad: u8 = 0;
        let mut i: u8 = 0;
        while i < frames
            invariant
                i <= frames <= 8,
                s0 == old(data)@,
                s0.valid(),
                data@ == decode_flags(s0, i as nat).1,
                vad == pack_flags(decode_flags(s0, i as nat).0),
                data@.valid(),
            decreases frames - i,
        {
            proof {
                lemma_decode_flags_valid(s0, i as nat);
                lemma_pack_flags_bound(decode_flags(s0, i as nat).0);
                vstd::bits::lemma_u8_pow2_no_overflow(i as nat);
                vstd::bits::lemma_u8_shl_is_mul(1, i);
            }
            let ghost before = data@;
            let frame_vad = data.decode_bit_logp(1).unwrap();
            let b: u8 = if frame_vad {
                1
            } else {
                0
            };
            proof {
                assert(vad < (1u8 << i));
                assert(vad | (b << i) == vad + (b << i)) by (bit_vector)
                    requires
                        vad < (1u8 << i),
                        i < 8,
                        b <= 1,
                ;
                assert(b << i == b * (1u8 << i)) by (bit_vector)
                    requires
                        i < 8,
                        b <= 1,
                ;
            }
            vad = vad | (b << i);
            i += 1;
            proof {
                let bits = decode_flags(s0, i as nat).0;
                assert(bits.drop_last() =~= decode_flags(s0, (i - 1) as nat).0);
                lemma_decode_flags_valid(s0, i as nat);
            }
        }
        let lbrr = data.decode_bit_logp(1).unwrap();
        LpChannelHeader { vad, lbrr }
    }

    /// The voice activity flag of frame `frame`.
    pub fn vad(self, frame: u8) -> (r: bool)
        requires
            frame < 8,
        ensures
            r == bit_of(self.vad, frame),
    {
        let v = self.vad;
        proof {
            vstd::bits::lemma_u8_shr_is_div(v, frame);
            assert((v & (1u8 << frame) != 0) == ((v >> frame) % 2 == 1)) by (bit_vector)
                requires
                    frame < 8,
            ;
        }
        self.vad & (1 << frame) != 0
    }

    /// Whether any frame of the channel carries LBRR data.
    pub fn lbrr(self) -> (r: bool)
        ensures
            r == self.lbrr,
    {
        self.lbrr
    }
}

/// The inverse CDF of the per-frame LBRR flags of a 40 ms packet.
pub open spec fn icdf_lbrr_flags_2bit() -> Seq<u8> {
    seq![203, 150, 0]
}

/// The inverse CDF of the per-frame LBRR flags of a 60 ms packet.
pub open spec fn icdf_lbrr_flags_3bit() -> Seq<u8> {
    seq![215, 195, 166, 125, 110, 82, 0]
}

/// The per-frame LBRR flags of a channel: bit `i` tells whether frame `i` carries LBRR data.
#[derive(Debug, PartialEq, Eq, Clone, Copy, Hash)]
pub struct LbrrFrameHeader(pub u8);

/// The per-frame LBRR flags that `LbrrFrameHeader::from_stream` decodes, and the state after.
pub open spec fn lbrr_frame_header(
    s: DecoderState,
    channel_header: Option<LpChannelHeader>,
    frame_size: FrameSize,
) -> (Option<LbrrFrameHeader>, DecoderState) {
    if channel_header matches Some(h) && h.lbrr {
        match frame_size {
            FrameSize::Fourty => (
                Some(LbrrFrameHeader((s.icdf_symbol(icdf_lbrr_flags_2bit(), 8) + 1) as u8)),
                s.decode_icdf_next(icdf_lbrr_flags_2bit(), 8),
            ),
            FrameSize::Sixty => (
                Some(LbrrFrameHeader((s.icdf_symbol(icdf_lbrr_flags_3bit(), 8) + 1) as u8)),
                s.decode_icdf_next(icdf_lbrr_flags_3bit(), 8),
            ),
            _ => (None, s),
        }
    } else {
        (None, s)
    }
}

impl LbrrFrameHeader {
    /// Decodes the per-frame LBRR flags of a channel whose header says that it carries LBRR
    /// data; packets of one 10 or 20 ms frame code none.
    pub fn from_stream(
        data: &mut RangeDecoder<'_>,
        channel_header: Option<LpChannelHeader>,
        frame_size: FrameSize,
    ) -> (r: Option<LbrrFrameHeader>)
        requires
            old(data)@.valid(),
        ensures
            (r, final(data)@) == lbrr_frame_header(old(data)@, channel_header, frame_size),
            final(data)@.valid(),
    {
        let lbrr = match channel_header {
            Some(h) => h.lbrr(),
            None => false,
        };
        if !lbrr {
            return None;
        }
        let lbrr_sym = match frame_size {
            FrameSize::Fourty => {
                let icdf: [u8; 3] = [203, 150, 0];
                proof {
                    assert(icdf@ =~= icdf_lbrr_flags_2bit());
                    lemma_decode_icdf_terminated(data@, icdf@, 8);
                }
                data.decode_icdf(icdf.as_slice(), 8)
            },
            FrameSize::Sixty => {
                let icdf: [u8; 7] = [215, 195, 166, 125, 110, 82, 0];
                proof {
                    assert(icdf@ =~= icdf_lbrr_flags_3bit());
                    lemma_decode_icdf_terminated(data@, icdf@, 8);
                }
                data.decode_icdf(icdf.as_slice(), 8)
            },
            _ => None,
        };
        match lbrr_sym {
            Some(sym) => Some(LbrrFrameHeader(sym as u8 + 1)),
            None => None,
        }
    }

    /// Whether frame `frame` carries LBRR data.
    pub fn lbrr(self, frame: u8) -> (r: bool)
        requires
            frame < 8,
        ensures
            r == bit_of(self.0, frame),
    {
        let v = self.0;
        proof {
            vstd::bits::lemma_u8_shr_is_div(v, frame);
            assert((v & (1u8 << frame) != 0) == ((v >> frame) % 2 == 1)) by (bit_vector)
                requires
                    frame < 8,
            ;
        }
        self.0 & (1 << frame) != 0
    }
}

/// The header bits of a SILK packet: voice activity and LBRR flags of the mid channel and,
/// in stereo, of the side channel.
#[derive(Debug, PartialEq, Eq, Clone, Copy, Hash)]
pub struct LpHeader {
    /// The mid channel's flags.
    pub mid: LpChannelHeader,
    /// The mid channel's per-frame LBRR flags.
    pub mid_lbrr: Option<LbrrFrameHeader>,
    /// The side channel's flags (stereo only).
    pub side: Option<LpChannelHeader>,
    /// The side channel's per-frame LBRR flags.
    pub side_lbrr: Option<LbrrFrameHeader>,
}

/// The header that `LpHeader::from_stream` decodes, and the state after it.
pub open spec fn lp_header(s: DecoderState, frame_size: FrameSize, frames: u8, stereo: bool) -> (
    LpHeader,
    DecoderState,
) {
    let (mid, s1) = lp_channel_header(s, frames);
    let (side, s2) = if stereo {
        let (h, t) = lp_channel_header(s1, frames);
        (Some(h), t)
    } else {
        (None, s1)
    };
    let (mid_lbrr, s3) = lbrr_frame_header(s2, Some(mid), frame_size);
    let (side_lbrr, s4) = lbrr_frame_header(s3, side, frame_size);
    (LpHeader { mid, mid_lbrr, side, side_lbrr }, s4)
}

impl LpHeader {
    /// Decodes the mid channel's flags, the side channel's flags when `stereo`, then the
    /// per-frame LBRR flags of each.
    pub fn from_stream(
        data: &mut RangeDecoder<'_>,
        frame_size: FrameSize,
        frames: u8,
        stereo: bool,
    ) -> (r: LpHeader)
        requires
            old(data)@.valid(),
            frames <= 8,
        ensures
            (r, final(data)@) == lp_header(old(data)@, frame_size, frames, stereo),
            final(data)@.valid(),
            r.side is Some <==> stereo,
    {
        let mid = LpChannelHeader::from_stream(data, frames);
        let side = if stereo {
            Some(LpChannelHeader::from_stream(data, frames))
        } else {
            None
        };
        let mid_lbrr = LbrrFrameHeader::from_stream(data, Some(mid), frame_size);
        let side_lbrr = LbrrFrameHeader::from_stream(data, side, frame_size);
        LpHeader { mid, mid_lbrr, side, side_lbrr }
    }

    /// The flags of `channel`.
    pub fn channel(&self, channel: Channel) -> (r: Option<LpChannelHeader>)
        ensures
            r == self.spec_channel(channel),
    {
        match channel {
            Channel::Mid => Some(self.mid),
            Channel::Side => self.side,
        }
    }

    /// The flags of `channel`.
    pub open spec fn spec_channel(&self, channel: Channel) -> Option<LpChannelHeader> {
        match channel {
            Channel::Mid => Some(self.mid),
            Channel::Side => self.side,
        }
    }

    /// The per-frame LBRR flags of `channel`.
    pub fn lbrr(&self, channel: Channel) -> (r: Option<LbrrFrameHeader>)
        ensures
            r == self.spec_lbrr(channel),
    {
        match channel {
            Channel::Mid => self.mid_lbrr,
            Channel::Side => self.side_lbrr,
        }
    }

    /// The per-frame LBRR flags of `channel`.
    pub open spec fn spec_lbrr(&self, channel: Channel) -> Option<LbrrFrameHeader> {
        match channel {
            Channel::Mid => self.mid_lbrr,
            Channel::Side => self.side_lbrr,
        }
    }
}

/// The number of frames and of subframes per frame of a SILK packet of `frame_size`, where
/// SILK can code it.
pub open spec fn frame_layout(frame_size: FrameSize) -> Option<(u8, u8)> {
    match frame_size {
        FrameSize::Ten => Some((1u8, 2u8)),
        FrameSize::Twenty => Some((1u8, 4u8)),
        FrameSize::Fourty => Some((2u8, 4u8)),
        FrameSize::Sixty => Some((3u8, 4u8)),
        _ => None,
    }
}

/// SILK codes packets of 10 ms and more (RFC 6716, section 4.2), cut into frames of 5 ms
/// subframes: a 10 ms packet is one frame of two subframes, and a longer packet is a run of
/// 20 ms frames of four subframes.
pub proof fn lemma_frame_layout_durations(frame_size: FrameSize)
    ensures
        frame_layout(frame_size) is Some <==> frame_size.duration_us() >= 10_000,
        frame_layout(frame_size) matches Some((frames, subframes)) ==> {
            &&& subframes * 5000 == if frame_size.duration_us() < 20_000 {
                frame_size.duration_us()
            } else {
                20_000
            }
            &&& frames * (subframes * 5000) == frame_size.duration_us()
        },
{
}

/// The internal bandwidth of SILK for a packet's bandwidth: wideband at most.
pub open spec fn silk_bandwidth(bandwidth: Bandwidth) -> Bandwidth {
    match bandwidth {
        Bandwidth::SuperWideband | Bandwidth::Fullband => Bandwidth::Wideband,
        other => other,
    }
}

/// A SILK packet whose header has been decoded, and the position of its next frame.
#[derive(Debug, PartialEq, Eq, Hash)]
pub struct SilkPacket {
    /// The internal bandwidth.
    pub bandwidth: Bandwidth,
    /// The packet header.
    pub lp_header: LpHeader,
    /// Whether the packet is stereo.
    pub stereo: bool,
    /// The number of frames.
    pub frames: u8,
    /// The number of the next frame.
    pub cur_frame: u8,
    /// The number of subframes per frame.
    pub subframes: u8,
}

impl SilkPacket {
    /// The next frame can be decoded: its number fits the flag bits, its channel (frames of odd
    /// number belong to the side channel) has a header and, for the mid channel of a stereo
    /// packet, so has the side channel.
    pub open spec fn next_decodable(&self) -> bool {
        self.cur_frame < self.frames ==> {
            &&& self.cur_frame < 8
            &&& self.lp_header.spec_channel(channel_of(self.cur_frame)) is Some
            &&& (self.stereo && channel_of(self.cur_frame) == Channel::Mid)
                ==> self.lp_header.side is Some
        }
    }

    /// Decodes the header of a SILK packet of `frame_size` and `bandwidth`, or fails where SILK
    /// cannot code the frame size.
    pub fn from_stream(
        data: &mut RangeDecoder<'_>,
        frame_size: FrameSize,
        bandwidth: Bandwidth,
        stereo: bool,
    ) -> (r: Result<SilkPacket, SilkError>)
        requires
            old(data)@.valid(),
        ensures
            final(data)@.valid(),
            match frame_layout(frame_size) {
                None => r == Err::<SilkPacket, SilkError>(SilkError::InvalidFrameSize)
                    && final(data)@ == old(data)@,
                Some((frames, subframes)) => (r matches Ok(p) && (p.lp_header, final(data)@)
                    == lp_header(old(data)@, frame_size, frames, stereo) && p.bandwidth
                    == silk_bandwidth(bandwidth) && p.stereo == stereo && p.frames == frames
                    && p.cur_frame == 0 && p.subframes == subframes && p.next_decodable()),
            },
    {
        let (frames, subframes): (u8, u8) = match frame_size {
            FrameSize::Ten => (1, 2),
            FrameSize::Twenty => (1, 4),
            FrameSize::Fourty => (2, 4),
            FrameSize::Sixty => (3, 4),
            _ => return Err(SilkError::InvalidFrameSize),
        };
        let bandwidth = match bandwidth {
            Bandwidth::SuperWideband | Bandwidth::Fullband => Bandwidth::Wideband,
            other => other,
        };
        let lp_header = LpHeader::from_stream(data, frame_size, frames, stereo);
        Ok(SilkPacket { bandwidth, lp_header, stereo, frames, cur_frame: 0, subframes })
    }

    /// Decodes the next frame of the packet, or gives `None` once all have been decoded.
    pub fn next(&mut self, data: &mut RangeDecoder<'_>) -> (r: Option<SilkFrame>)
        requires
            old(data)@.valid(),
            old(self).next_decodable(),
        ensures
            final(data)@.valid(),
            old(self).cur_frame < old(self).frames ==> (r matches Some(f) && (f, final(data)@)
                == silk_frame(
                old(data)@,
                channel_of(old(self).cur_frame),
                old(self).cur_frame,
                false,
                old(self).lp_header,
                old(self).stereo,
            ) && *final(self) == (SilkPacket {
                cur_frame: (old(self).cur_frame + 1) as u8,
                ..*old(self)
            })),
            old(self).cur_frame >= old(self).frames ==> r is None && *final(self) == *old(self)
                && final(data)@ == old(data)@,
    {
        if self.cur_frame < self.frames {
            let channel = Channel::new(self.lp_header, self.cur_frame);
            // LBRR frames are not decoded
            let lbrr = false;

            let frame = SilkFrame::from_stream(
                data,
                SilkFrameEnvironment {
                    channel,
                    frame_no: self.cur_frame,
                    lbrr,
                    lp_header: &self.lp_header,
                    stereo: self.stereo,
                },
            );

            self.cur_frame += 1;
            Some(frame)
        } else {
            None
        }
    }
}

/// The SILK decoder.
#[derive(Debug, Clone, Copy)]
pub struct SilkDecoder {
    /// Whether the decoder produces stereo output.
    pub stereo: bool,
    /// The stereo prediction weights of the previous frame.
    pub stereo_pred_weights: StereoPredWeights,
}

/// The decoder state after `SilkDecoder::decode` on a packet of `frame_size`: the header and
/// the first frame are decoded where SILK can code the frame size.
pub open spec fn silk_decode(s: DecoderState, frame_size: FrameSize, stereo: bool) -> (
    Result<(), SilkError>,
    DecoderState,
) {
    match frame_layout(frame_size) {
        None => (Err(SilkError::InvalidFrameSize), s),
        Some((frames, _subframes)) => {
            let (h, s1) = lp_header(s, frame_size, frames, stereo);
            (Ok(()), silk_frame(s1, Channel::Mid, 0, false, h, stereo).1)
        },
    }
}

impl SilkDecoder {
    /// A decoder producing stereo output where `stereo`.
    pub fn new(stereo: bool) -> (r: SilkDecoder)
        ensures
            r.stereo == stereo,
            r.stereo_pred_weights == (StereoPredWeights { w0_q13: 0, w1_q13: 0 }),
    {
        SilkDecoder { stereo, stereo_pred_weights: StereoPredWeights::default() }
    }

    /// Decodes the header and the first frame of a SILK packet of `frame_size`.
    pub fn decode(
        &mut self,
        data: &mut RangeDecoder<'_>,
        frame_size: FrameSize,
        bandwidth: Bandwidth,
        stereo: bool,
    ) -> (r: Result<(), SilkError>)
        requires
            old(data)@.valid(),
        ensures
            (r, final(data)@) == silk_decode(old(data)@, frame_size, stereo),
            final(data)@.valid(),
            *final(self) == *old(self),
    {
        let mut silk_packet = match SilkPacket::from_stream(data, frame_size, bandwidth, stereo) {
            Ok(p) => p,
            Err(e) => return Err(e),
        };
        let _frame0 = silk_packet.next(data).unwrap();
        Ok(())
    }
}

} // verus!
