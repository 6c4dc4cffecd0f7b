//! Audio channel control and mapping (RFC 7845, section 5.1.1).
use crate::read::{read_u16_le, spec_u16_le};
use crate::seal::Sealed;
use crate::slice_ext::{BoundsError, SliceExt};
use vstd::prelude::*;
use vstd::std_specs::convert::{FromSpecImpl, TryFromSpecImpl};

verus! {

/// The error type returned when a channel layout is malformed.
#[derive(Debug, PartialEq, Eq, PartialOrd, Ord, Clone, Copy, Hash)]
pub enum ChannelLayoutError {
    /// The mapping table ended early.
    UnexpectedEof,
    /// The specified family is not of a known type.
    UnknownFamily,
    /// The specified channel layout family and the number of channels requested are incompatiable.
    BadChannelsForFamily,
    /// There are either zero streams, too many streams, or the number of coupled streams exceeds
    /// the total number of streams.
    IllegalStreams,
}

impl ChannelLayoutError {
    /// A description of the error.
    pub fn description(&self) -> (r: &'static str)
        ensures
            r@ == match self {
                ChannelLayoutError::UnexpectedEof => "mapping table ended early"@,
                ChannelLayoutError::UnknownFamily => "unknown channel layout family"@,
                ChannelLayoutError::BadChannelsForFamily => "invalid number of channels for the specified family"@,
                ChannelLayoutError::IllegalStreams => "illegal stream specification"@,
            },
    {
        match self {
            ChannelLayoutError::UnexpectedEof => "mapping table ended early",
            ChannelLayoutError::UnknownFamily => "unknown channel layout family",
            ChannelLayoutError::BadChannelsForFamily => {
                "invalid number of channels for the specified family"
            },
            ChannelLayoutError::IllegalStreams => "illegal stream specification",
        }
    }
}

impl From<BoundsError> for ChannelLayoutError {
    fn from(_from: BoundsError) -> (r: ChannelLayoutError) {
        ChannelLayoutError::UnexpectedEof
    }
}

impl FromSpecImpl<BoundsError> for ChannelLayoutError {
    open spec fn obeys_from_spec() -> bool {
        true
    }

    open spec fn from_spec(v: BoundsError) -> ChannelLayoutError {
        ChannelLayoutError::UnexpectedEof
    }
}

/// RTP-style channel mapping layouts.
#[derive(Debug, PartialEq, Eq, PartialOrd, Ord, Clone, Copy, Hash)]
pub enum RtpChannelLayout {
    /// monomorphic
    Mono,
    /// stereo (left, right)
    Stereo,
}

impl TryFrom<u8> for RtpChannelLayout {
    type Error = ChannelLayoutError;

    fn try_from(v: u8) -> (r: Result<Self, ChannelLayoutError>) {
        match v {
            1 => Ok(RtpChannelLayout::Mono),
            2 => Ok(RtpChannelLayout::Stereo),
            _ => Err(ChannelLayoutError::BadChannelsForFamily),
        }
    }
}

/// The layout that `RtpChannelLayout::try_from(v)` gives.
pub open spec fn rtp_layout_of(v: u8) -> Result<RtpChannelLayout, ChannelLayoutError> {
    match v {
        1 => Ok(RtpChannelLayout::Mono),
        2 => Ok(RtpChannelLayout::Stereo),
        _ => Err(ChannelLayoutError::BadChannelsForFamily),
    }
}

impl TryFromSpecImpl<u8> for RtpChannelLayout {
    open spec fn obeys_try_from_spec() -> bool {
        true
    }

    open spec fn try_from_spec(v: u8) -> Result<Self, ChannelLayoutError> {
        rtp_layout_of(v)
    }
}

impl RtpChannelLayout {
    /// The number of channels of the layout.
    pub open spec fn channel_count(self) -> nat {
        match self {
            RtpChannelLayout::Mono => 1,
            RtpChannelLayout::Stereo => 2,
        }
    }
}

impl Sealed for RtpChannelLayout {}

/// Vorbis-style channel mapping layouts, by their number of channels.
#[derive(Debug, PartialEq, Eq, PartialOrd, Ord, Clone, Copy, Hash)]
pub enum VorbisChannelLayout {
    /// monomorphic
    Mono,
    /// stereo (left, right)
    Stereo,
    /// linear surround (left, center, right)
    LinearSurround,
    /// quadraphonic (front left, front right, rear left, rear right)
    Quadraphonic,
    /// 5.0 surround (front left, front center, front right, rear left, rear right)
    FivePointZero,
    /// 5.1 surround (front left, front center, front right, rear left, rear right, LFE)
    FivePointOne,
    /// 6.1 surround (front left, front center, front right, side left, side right, rear center, LFE)
    SixPointOne,
    /// 7.1 surround (front left, front center, front right, side left, side right, rear left, rear right, LFE)
    SevenPointOne,
}

impl TryFrom<u8> for VorbisChannelLayout {
    type Error = ChannelLayoutError;

    fn try_from(v: u8) -> (r: Result<Self, ChannelLayoutError>) {
        match v {
            1 => Ok(VorbisChannelLayout::Mono),
            2 => Ok(VorbisChannelLayout::Stereo),
            3 => Ok(VorbisChannelLayout::LinearSurround),
            4 => Ok(VorbisChannelLayout::Quadraphonic),
            5 => Ok(VorbisChannelLayout::FivePointZero),
            6 => Ok(VorbisChannelLayout::FivePointOne),
            7 => Ok(VorbisChannelLayout::SixPointOne),
            8 => Ok(VorbisChannelLayout::SevenPointOne),
            _ => Err(ChannelLayoutError::BadChannelsForFamily),
        }
    }
}

/// The layout that `VorbisChannelLayout::try_from(v)` gives.
pub open spec fn vorbis_layout_of(v: u8) -> Result<VorbisChannelLayout, ChannelLayoutError> {
    match v {
        1 => Ok(VorbisChannelLayout::Mono),
        2 => Ok(VorbisChannelLayout::Stereo),
        3 => Ok(VorbisChannelLayout::LinearSurround),
        4 => Ok(VorbisChannelLayout::Quadraphonic),
        5 => Ok(VorbisChannelLayout::FivePointZero),
        6 => Ok(VorbisChannelLayout::FivePointOne),
        7 => Ok(VorbisChannelLayout::SixPointOne),
        8 => Ok(VorbisChannelLayout::SevenPointOne),
        _ => Err(ChannelLayoutError::BadChannelsForFamily),
    }
}

impl TryFromSpecImpl<u8> for VorbisChannelLayout {
    open spec fn obeys_try_from_spec() -> bool {
        true
    }

    open spec fn try_from_spec(v: u8) -> Result<Self, ChannelLayoutError> {
        vorbis_layout_of(v)
    }
}

impl VorbisChannelLayout {
    /// The number of channels of the layout.
    pub open spec fn channel_count(self) -> nat {
        match self {
            VorbisChannelLayout::Mono => 1,
            VorbisChannelLayout::Stereo => 2,
            VorbisChannelLayout::LinearSurround => 3,
            VorbisChannelLayout::Quadraphonic => 4,
            VorbisChannelLayout::FivePointZero => 5,
            VorbisChannelLayout::FivePointOne => 6,
            VorbisChannelLayout::SixPointOne => 7,
            VorbisChannelLayout::SevenPointOne => 8,
        }
    }
}

/// Ambisonics channel mapping layouts, by their number of channels.
#[derive(Debug, PartialEq, Eq, PartialOrd, Ord, Clone, Copy, Hash)]
pub enum AmbisonicsChannelLayout {
    /// Zeroth-order Ambisonics (1 channel)
    Zero,
    /// Zeroth-order Ambisonics with non-diegetic stereo stream (3 channels)
    ZeroNonDiegetic,
    /// First-order Ambisonics (4 channels)
    One,
    /// First-order Ambisonics with non-diegetic stereo stream (6 channels)
    OneNonDiegetic,
    /// Second-order Ambisonics (9 channels)
    Two,
    /// Second-order Ambisonics with non-diegetic stereo stream (11 channels)
    TwoNonDiegetic,
    /// Third-order Ambisonics (16 channels)
    Three,
    /// Third-order Ambisonics with non-diegetic stereo stream (18 channels)
    ThreeNonDiegetic,
    /// Fourth-order Ambisonics (25 channels)
    Four,
    /// Fourth-order Ambisonics with non-diegetic stereo stream (27 channels)
    FourNonDiegetic,
    /// Fifth-order Ambisonics (36 channels)
    Five,
    /// Fifth-order Ambisonics with non-diegetic stereo stream (38 channels)
    FiveNonDiegetic,
    /// Sixth-order Ambisonics (49 channels)
    Six,
    /// Sixth-order Ambisonics with non-diegetic stereo stream (51 channels)
    SixNonDiegetic,
    /// Seventh-order Ambisonics (64 channels)
    Seven,
    /// Seventh-order Ambisonics with non-diegetic stereo stream (66 channels)
    SevenNonDiegetic,
    /// Eighth-order Ambisonics (81 channels)
    Eight,
    /// Eighth-order Ambisonics with non-diegetic stereo stream (83 channels)
    EightNonDiegetic,
    /// Ninth-order Ambisonics (100 channels)
    Nine,
    /// Ninth-order Ambisonics with non-diegetic stereo stream (102 channels)
    NineNonDiegetic,
    /// Tenth-order Ambisonics (121 channels)
    Ten,
    /// Tenth-order Ambisonics with non-diegetic stereo stream (123 channels)
    TenNonDiegetic,
    /// Eleventh-order Ambisonics (144 channels)
    Eleven,
    /// Eleventh-order Ambisonics with non-diegetic stereo stream (146 channels)
    ElevenNonDiegetic,
    /// Twelfth-order Ambisonics (169 channels)
    Twelve,
    /// Twelfth-order Ambisonics with non-diegetic stereo stream (171 channels)
    TwelveNonDiegetic,
    /// Thirteenth-order Ambisonics (196 channels)
    Thirteen,
    /// Thirteenth-order Ambisonics with non-diegetic stereo stream (198 channels)
    ThirteenNonDiegetic,
    /// Fourteenth-order Ambisonics (225 channels)
    Fourteen,
    /// Fourteenth-order Ambisonics with non-diegetic stereo stream (227 channels)
    FourteenNonDiegetic,
}

impl TryFrom<u8> for AmbisonicsChannelLayout {
    type Error = ChannelLayoutError;

    fn try_from(v: u8) -> (r: Result<Self, ChannelLayoutError>) {
        match v {
            1 => Ok(AmbisonicsChannelLayout::Zero),
            3 => Ok(AmbisonicsChannelLayout::ZeroNonDiegetic),
            4 => Ok(AmbisonicsChannelLayout::One),
            6 => Ok(AmbisonicsChannelLayout::OneNonDiegetic),
            9 => Ok(AmbisonicsChannelLayout::Two),
            11 => Ok(AmbisonicsChannelLayout::TwoNonDiegetic),
            16 => Ok(AmbisonicsChannelLayout::Three),
            18 => Ok(AmbisonicsChannelLayout::ThreeNonDiegetic),
            25 => Ok(AmbisonicsChannelLayout::Four),
            27 => Ok(AmbisonicsChannelLayout::FourNonDiegetic),
            36 => Ok(AmbisonicsChannelLayout::Five),
            38 => Ok(AmbisonicsChannelLayout::FiveNonDiegetic),
            49 => Ok(AmbisonicsChannelLayout::Six),
            51 => Ok(AmbisonicsChannelLayout::SixNonDiegetic),
            64 => Ok(AmbisonicsChannelLayout::Seven),
            66 => Ok(AmbisonicsChannelLayout::SevenNonDiegetic),
            81 => Ok(AmbisonicsChannelLayout::Eight),
            83 => Ok(AmbisonicsChannelLayout::EightNonDiegetic),
            100 => Ok(AmbisonicsChannelLayout::Nine),
            102 => Ok(AmbisonicsChannelLayout::NineNonDiegetic),
            121 => Ok(AmbisonicsChannelLayout::Ten),
            123 => Ok(AmbisonicsChannelLayout::TenNonDiegetic),
            144 => Ok(AmbisonicsChannelLayout::Eleven),
            146 => Ok(AmbisonicsChannelLayout::ElevenNonDiegetic),
            169 => Ok(AmbisonicsChannelLayout::Twelve),
            171 => Ok(AmbisonicsChannelLayout::TwelveNonDiegetic),
            196 => Ok(AmbisonicsChannelLayout::Thirteen),
            198 => Ok(AmbisonicsChannelLayout::ThirteenNonDiegetic),
            225 => Ok(AmbisonicsChannelLayout::Fourteen),
            227 => Ok(AmbisonicsChannelLayout::FourteenNonDiegetic),
            _ => Err(ChannelLayoutError::BadChannelsForFamily),
        }
    }
}

/// The number of channels of an Ambisonics layout of `order`: `(order + 1)^2` Ambisonics
/// channels, and a stereo pair where it carries a non-diegetic stream.
pub open spec fn ambisonics_channel_count(order: nat, non_diegetic: bool) -> nat {
    (order + 1) * (order + 1) + if non_diegetic {
        2nat
    } else {
        0nat
    }
}

impl AmbisonicsChannelLayout {
    /// The Ambisonics order of the layout.
    pub open spec fn order(self) -> nat {
        match self {
            AmbisonicsChannelLayout::Zero | AmbisonicsChannelLayout::ZeroNonDiegetic => 0,
            AmbisonicsChannelLayout::One | AmbisonicsChannelLayout::OneNonDiegetic => 1,
            AmbisonicsChannelLayout::Two | AmbisonicsChannelLayout::TwoNonDiegetic => 2,
            AmbisonicsChannelLayout::Three | AmbisonicsChannelLayout::ThreeNonDiegetic => 3,
            AmbisonicsChannelLayout::Four | AmbisonicsChannelLayout::FourNonDiegetic => 4,
            AmbisonicsChannelLayout::Five | AmbisonicsChannelLayout::FiveNonDiegetic => 5,
            AmbisonicsChannelLayout::Six | AmbisonicsChannelLayout::SixNonDiegetic => 6,
            AmbisonicsChannelLayout::Seven | AmbisonicsChannelLayout::SevenNonDiegetic => 7,
            AmbisonicsChannelLayout::Eight | AmbisonicsChannelLayout::EightNonDiegetic => 8,
            AmbisonicsChannelLayout::Nine | AmbisonicsChannelLayout::NineNonDiegetic => 9,
            AmbisonicsChannelLayout::Ten | AmbisonicsChannelLayout::TenNonDiegetic => 10,
            AmbisonicsChannelLayout::Eleven | AmbisonicsChannelLayout::ElevenNonDiegetic => 11,
            AmbisonicsChannelLayout::Twelve | AmbisonicsChannelLayout::TwelveNonDiegetic => 12,
            AmbisonicsChannelLayout::Thirteen | AmbisonicsChannelLayout::ThirteenNonDiegetic => 13,
            AmbisonicsChannelLayout::Fourteen | AmbisonicsChannelLayout::FourteenNonDiegetic => 14,
        }
    }

    /// Whether the layout carries a non-diegetic stereo stream.
    pub open spec fn non_diegetic(self) -> bool {
        match self {
            AmbisonicsChannelLayout::ZeroNonDiegetic => true,
            AmbisonicsChannelLayout::OneNonDiegetic => true,
            AmbisonicsChannelLayout::TwoNonDiegetic => true,
            AmbisonicsChannelLayout::ThreeNonDiegetic => true,
            AmbisonicsChannelLayout::FourNonDiegetic => true,
            AmbisonicsChannelLayout::FiveNonDiegetic => true,
            AmbisonicsChannelLayout::SixNonDiegetic => true,
            AmbisonicsChannelLayout::SevenNonDiegetic => true,
            AmbisonicsChannelLayout::EightNonDiegetic => true,
            AmbisonicsChannelLayout::NineNonDiegetic => true,
            AmbisonicsChannelLayout::TenNonDiegetic => true,
            AmbisonicsChannelLayout::ElevenNonDiegetic => true,
            AmbisonicsChannelLayout::TwelveNonDiegetic => true,
            AmbisonicsChannelLayout::ThirteenNonDiegetic => true,
            AmbisonicsChannelLayout::FourteenNonDiegetic => true,
            _ => false,
        }
    }

    /// The number of channels of the layout.
    pub open spec fn channel_count(self) -> nat {
        ambisonics_channel_count(self.order(), self.non_diegetic())
    }
}

/// The layout that `AmbisonicsChannelLayout::try_from(v)` gives.
pub open spec fn ambisonics_layout_of(v: u8) -> Result<AmbisonicsChannelLayout, ChannelLayoutError> {
    match v {
        1 => Ok(AmbisonicsChannelLayout::Zero),
        3 => Ok(AmbisonicsChannelLayout::ZeroNonDiegetic),
        4 => Ok(AmbisonicsChannelLayout::One),
        6 => Ok(AmbisonicsChannelLayout::OneNonDiegetic),
        9 => Ok(AmbisonicsChannelLayout::Two),
        11 => Ok(AmbisonicsChannelLayout::TwoNonDiegetic),
        16 => Ok(AmbisonicsChannelLayout::Three),
        18 => Ok(AmbisonicsChannelLayout::ThreeNonDiegetic),
        25 => Ok(AmbisonicsChannelLayout::Four),
        27 => Ok(AmbisonicsChannelLayout::FourNonDiegetic),
        36 => Ok(AmbisonicsChannelLayout::Five),
        38 => Ok(AmbisonicsChannelLayout::FiveNonDiegetic),
        49 => Ok(AmbisonicsChannelLayout::Six),
        51 => Ok(AmbisonicsChannelLayout::SixNonDiegetic),
        64 => Ok(AmbisonicsChannelLayout::Seven),
        66 => Ok(AmbisonicsChannelLayout::SevenNonDiegetic),
        81 => Ok(AmbisonicsChannelLayout::Eight),
        83 => Ok(AmbisonicsChannelLayout::EightNonDiegetic),
        100 => Ok(AmbisonicsChannelLayout::Nine),
        102 => Ok(AmbisonicsChannelLayout::NineNonDiegetic),
        121 => Ok(AmbisonicsChannelLayout::Ten),
        123 => Ok(AmbisonicsChannelLayout::TenNonDiegetic),
        144 => Ok(AmbisonicsChannelLayout::Eleven),
        146 => Ok(AmbisonicsChannelLayout::ElevenNonDiegetic),
        169 => Ok(AmbisonicsChannelLayout::Twelve),
        171 => Ok(AmbisonicsChannelLayout::TwelveNonDiegetic),
        196 => Ok(AmbisonicsChannelLayout::Thirteen),
        198 => Ok(AmbisonicsChannelLayout::ThirteenNonDiegetic),
        225 => Ok(AmbisonicsChannelLayout::Fourteen),
        227 => Ok(AmbisonicsChannelLayout::FourteenNonDiegetic),
        _ => Err(ChannelLayoutError::BadChannelsForFamily),
    }
}

impl TryFromSpecImpl<u8> for AmbisonicsChannelLayout {
    open spec fn obeys_try_from_spec() -> bool {
        true
    }

    open spec fn try_from_spec(v: u8) -> Result<Self, ChannelLayoutError> {
        ambisonics_layout_of(v)
    }
}

/// The stream counts of a channel mapping.
pub trait MappingTable: Sealed {
    /// The number of streams.
    spec fn spec_streams(&self) -> u8;

    /// The number of coupled (stereo) streams.
    spec fn spec_coupled(&self) -> u8;

    /// Returns the number of streams encoded in each Ogg packet (never zero).
    fn streams(&self) -> (r: u8)
        ensures
            r == self.spec_streams(),
            r > 0,
    ;

    /// Returns the number of streams whose decoders are to be configured to produce two channels
    /// (stereo sound). Will not be larger then the return value of [`MappingTable::streams`].
    ///
    /// [`MappingTable::streams`]: #method.streams
    fn coupled(&self) -> (r: u8)
        ensures
            r == self.spec_coupled(),
            r <= self.spec_streams(),
            self.spec_streams() + r <= 255,
    ;
}

impl MappingTable for RtpChannelLayout {
    open spec fn spec_streams(&self) -> u8 {
        1
    }

    open spec fn spec_coupled(&self) -> u8 {
        match self {
            RtpChannelLayout::Mono => 0,
            RtpChannelLayout::Stereo => 1,
        }
    }

    fn streams(&self) -> (r: u8) {
        1
    }

    fn coupled(&self) -> (r: u8) {
        match self {
            RtpChannelLayout::Mono => 0,
            RtpChannelLayout::Stereo => 1,
        }
    }
}

/// An RTP layout of `channels` channels codes one stream, coupled for stereo: its coupled
/// stream count is `channels - 1`.
pub proof fn lemma_rtp_streams(channels: u8)
    requires
        rtp_layout_of(channels) is Ok,
    ensures
        rtp_layout_of(channels)->Ok_0.spec_streams() == 1,
        rtp_layout_of(channels)->Ok_0.spec_coupled() == channels - 1,
{
}

/// The stream counts of a mapping table are acceptable: at least one stream, no more coupled
/// streams than streams, and at most 255 decoded channels.
pub open spec fn legal_streams(streams: u8, coupled: u8) -> bool {
    streams != 0 && coupled <= streams && streams + coupled <= 255
}

/// The error, if any, that a mapping table with `channels` output channels gives when read from
/// `table`; `entry_len` is the byte length of one table entry per channel.
pub open spec fn mapping_table_error(channels: u8, table: Seq<u8>, entry_len: nat) -> Option<
    ChannelLayoutError,
> {
    if table.len() < 2 {
        Some(ChannelLayoutError::UnexpectedEof)
    } else if !legal_streams(table[0], table[1]) {
        Some(ChannelLayoutError::IllegalStreams)
    } else if table.len() < 2 + entry_len * channels {
        Some(ChannelLayoutError::UnexpectedEof)
    } else {
        None
    }
}

/// A mapping table is refused for its stream counts exactly when it has no stream, more
/// coupled (two-channel) streams than streams, or more than 255 decoded channels, counting one
/// for each uncoupled stream and two for each coupled one; so a table whose streams are all
/// coupled is accepted, given its mapping bytes.
pub proof fn lemma_stream_counts_refused(channels: u8, table: Seq<u8>, entry_len: nat)
    requires
        table.len() >= 2,
    ensures
        mapping_table_error(channels, table, entry_len) == Some(ChannelLayoutError::IllegalStreams)
            <==> !(table[0] >= 1 && table[1] <= table[0] && (table[0] - table[1]) + 2 * table[1]
            <= 255),
        table[0] == table[1] && 1 <= table[0] <= 127 && table.len() >= 2 + entry_len * channels
            ==> mapping_table_error(channels, table, entry_len) is None,
{
}

/// Each family resolves a channel count to the layout with that many channels: RTP layouts
/// for 1 or 2 channels, Vorbis layouts for 1 to 8, and Ambisonics layouts of order 0 to 14,
/// each with or without a non-diegetic stereo stream, for exactly their channel counts.
pub proof fn lemma_layout_channel_counts(n: u8)
    ensures
        rtp_layout_of(n) is Ok <==> 1 <= n <= 2,
        rtp_layout_of(n) matches Ok(l) ==> l.channel_count() == n,
        vorbis_layout_of(n) is Ok <==> 1 <= n <= 8,
        vorbis_layout_of(n) matches Ok(l) ==> l.channel_count() == n,
        ambisonics_layout_of(n) matches Ok(l) ==> l.channel_count() == n && l.order() <= 14,
        forall|k: nat, d: bool|
            k <= 14 ==> (ambisonics_layout_of(#[trigger] ambisonics_channel_count(k, d) as u8)
                matches Ok(l) && l.order() == k && l.non_diegetic() == d),
{
    assert forall|k: nat, d: bool| k <= 14 implies (ambisonics_layout_of(
        #[trigger] ambisonics_channel_count(k, d) as u8,
    ) matches Ok(l) && l.order() == k && l.non_diegetic() == d) by {
        if k == 0 {
            assert((k + 1) * (k + 1) == 1) by (nonlinear_arith)
                requires
                    k == 0,
            ;
        } else if k == 1 {
            assert((k + 1) * (k + 1) == 4) by (nonlinear_arith)
                requires
                    k == 1,
            ;
        } else if k == 2 {
            assert((k + 1) * (k + 1) == 9) by (nonlinear_arith)
                requires
                    k == 2,
            ;
        } else if k == 3 {
            assert((k + 1) * (k + 1) == 16) by (nonlinear_arith)
                requires
                    k == 3,
            ;
        } else if k == 4 {
            assert((k + 1) * (k + 1) == 25) by (nonlinear_arith)
                requires
                    k == 4,
            ;
        } else if k == 5 {
            assert((k + 1) * (k + 1) == 36) by (nonlinear_arith)
                requires
                    k == 5,
            ;
        } else if k == 6 {
            assert((k + 1) * (k + 1) == 49) by (nonlinear_arith)
                requires
                    k == 6,
            ;
        } else if k == 7 {
            assert((k + 1) * (k + 1) == 64) by (nonlinear_arith)
                requires
                    k == 7,
            ;
        } else if k == 8 {
            assert((k + 1) * (k + 1) == 81) by (nonlinear_arith)
                requires
                    k == 8,
            ;
        } else if k == 9 {
            assert((k + 1) * (k + 1) == 100) by (nonlinear_arith)
                requires
                    k == 9,
            ;
        } else if k == 10 {
            assert((k + 1) * (k + 1) == 121) by (nonlinear_arith)
                requires
                    k == 10,
            ;
        } else if k == 11 {
            assert((k + 1) * (k + 1) == 144) by (nonlinear_arith)
                requires
                    k == 11,
            ;
        } else if k == 12 {
            assert((k + 1) * (k + 1) == 169) by (nonlinear_arith)
                requires
                    k == 12,
            ;
        } else if k == 13 {
            assert((k + 1) * (k + 1) == 196) by (nonlinear_arith)
                requires
                    k == 13,
            ;
        } else if k == 14 {
            assert((k + 1) * (k + 1) == 225) by (nonlinear_arith)
                requires
                    k == 14,
            ;
        }
    }
    if ambisonics_layout_of(n) is Ok {
        let l = ambisonics_layout_of(n)->Ok_0;
        if n == 1 {
            assert((0nat + 1) * (0nat + 1) == 1) by (nonlinear_arith);
        } else if n == 3 {
            assert((0nat + 1) * (0nat + 1) == 1) by (nonlinear_arith);
        } else if n == 4 {
            assert((1nat + 1) * (1nat + 1) == 4) by (nonlinear_arith);
        } else if n == 6 {
            assert((1nat + 1) * (1nat + 1) == 4) by (nonlinear_arith);
        } else if n == 9 {
            assert((2nat + 1) * (2nat + 1) == 9) by (nonlinear_arith);
        } else if n == 11 {
            assert((2nat + 1) * (2nat + 1) == 9) by (nonlinear_arith);
        } else if n == 16 {
            assert((3nat + 1) * (3nat + 1) == 16) by (nonlinear_arith);
        } else if n == 18 {
            assert((3nat + 1) * (3nat + 1) == 16) by (nonlinear_arith);
        } else if n == 25 {
            assert((4nat + 1) * (4nat + 1) == 25) by (nonlinear_arith);
        } else if n == 27 {
            assert((4nat + 1) * (4nat + 1) == 25) by (nonlinear_arith);
        } else if n == 36 {
            assert((5nat + 1) * (5nat + 1) == 36) by (nonlinear_arith);
        } else if n == 38 {
            assert((5nat + 1) * (5nat + 1) == 36) by (nonlinear_arith);
        } else if n == 49 {
            assert((6nat + 1) * (6nat + 1) == 49) by (nonlinear_arith);
        } else if n == 51 {
            assert((6nat + 1) * (6nat + 1) == 49) by (nonlinear_arith);
        } else if n == 64 {
            assert((7nat + 1) * (7nat + 1) == 64) by (nonlinear_arith);
        } else if n == 66 {
            assert((7nat + 1) * (7nat + 1) == 64) by (nonlinear_arith);
        } else if n == 81 {
            assert((8nat + 1) * (8nat + 1) == 81) by (nonlinear_arith);
        } else if n == 83 {
            assert((8nat + 1) * (8nat + 1) == 81) by (nonlinear_arith);
        } else if n == 100 {
            assert((9nat + 1) * (9nat + 1) == 100) by (nonlinear_arith);
        } else if n == 102 {
            assert((9nat + 1) * (9nat + 1) == 100) by (nonlinear_arith);
        } else if n == 121 {
            assert((10nat + 1) * (10nat + 1) == 121) by (nonlinear_arith);
        } else if n == 123 {
            assert((10nat + 1) * (10nat + 1) == 121) by (nonlinear_arith);
        } else if n == 144 {
            assert((11nat + 1) * (11nat + 1) == 144) by (nonlinear_arith);
        } else if n == 146 {
            assert((11nat + 1) * (11nat + 1) == 144) by (nonlinear_arith);
        } else if n == 169 {
            assert((12nat + 1) * (12nat + 1) == 169) by (nonlinear_arith);
        } else if n == 171 {
            assert((12nat + 1) * (12nat + 1) == 169) by (nonlinear_arith);
        } else if n == 196 {
            assert((13nat + 1) * (13nat + 1) == 196) by (nonlinear_arith);
        } else if n == 198 {
            assert((13nat + 1) * (13nat + 1) == 196) by (nonlinear_arith);
        } else if n == 225 {
            assert((14nat + 1) * (14nat + 1) == 225) by (nonlinear_arith);
        } else if n == 227 {
            assert((14nat + 1) * (14nat + 1) == 225) by (nonlinear_arith);
        }
    }
}

/// Channel Mapping table as defined in RFC 7845
#[derive(Debug, PartialEq, Eq, PartialOrd, Ord, Hash)]
pub struct StandardMappingTable {
    /// The number of streams encoded in each Ogg packet.
    streams: u8,
    /// The number of streams whose decoders are to be configured to produce two channels
    /// (stereo sound). Must not be larger then `streams`.
    coupled: u8,
    /// A mapping of decoded channels to output channels.
    mapping: Vec<u8>,
}

impl StandardMappingTable {
    #[verifier::type_invariant]
    spec fn inv(self) -> bool {
        legal_streams(self.streams, self.coupled)
    }

    /// The mapping of decoded channels to output channels.
    pub closed spec fn spec_mapping(&self) -> Seq<u8> {
        self.mapping@
    }

    /// This table is the one that `table` describes for `channels` output channels.
    pub open spec fn read_from(&self, channels: u8, table: Seq<u8>) -> bool {
        &&& self.spec_streams() == table[0]
        &&& self.spec_coupled() == table[1]
        &&& self.spec_mapping() == table.subrange(2, 2 + channels)
    }

    /// Reads a mapping table for `channels` output channels from `table`: the stream count,
    /// the coupled stream count, then one output channel per channel.
    pub fn new(channels: u8, table: &[u8]) -> (r: Result<Self, ChannelLayoutError>)
        ensures
            r is Err <==> mapping_table_error(channels, table@, 1) is Some,
            r matches Err(e) ==> mapping_table_error(channels, table@, 1) == Some(e),
            r matches Ok(t) ==> t.read_from(channels, table@),
    {
        let streams = match table.get_res(0) {
            Ok(x) => *x,
            Err(e) => return Err(ChannelLayoutError::from(e)),
        };
        let coupled = match table.get_res(1) {
            Ok(x) => *x,
            Err(e) => return Err(ChannelLayoutError::from(e)),
        };

        // check for invalid mappings
        if streams == 0 || streams < coupled || (streams as usize) + (coupled as usize) > 255 {
            return Err(ChannelLayoutError::IllegalStreams);
        }

        let mapping = match table.get_range_res(2, 2 + (channels as usize)) {
            Ok(m) => vstd::slice::slice_to_vec(m),
            Err(e) => return Err(ChannelLayoutError::from(e)),
        };
        Ok(StandardMappingTable { streams, coupled, mapping })
    }
}

impl Clone for StandardMappingTable {
    fn clone(&self) -> (r: Self)
        ensures
            r.spec_streams() == self.spec_streams(),
            r.spec_coupled() == self.spec_coupled(),
            r.spec_mapping() == self.spec_mapping(),
    {
        proof {
            use_type_invariant(self);
        }
        StandardMappingTable {
            streams: self.streams,
            coupled: self.coupled,
            mapping: self.mapping.clone(),
        }
    }
}

impl Sealed for StandardMappingTable {}

impl MappingTable for StandardMappingTable {
    closed spec fn spec_streams(&self) -> u8 {
        self.streams
    }

    closed spec fn spec_coupled(&self) -> u8 {
        self.coupled
    }

    fn streams(&self) -> (r: u8) {
        proof {
            use_type_invariant(self);
        }
        self.streams
    }

    fn coupled(&self) -> (r: u8) {
        proof {
            use_type_invariant(self);
        }
        self.coupled
    }
}

/// The demixing matrix entries that `table` holds for `channels` output channels: one
/// little-endian `u16` per channel, after the two stream counts.
pub open spec fn demixing_matrix(channels: u8, table: Seq<u8>) -> Seq<u16> {
    Seq::new(channels as nat, |i: int| spec_u16_le(table.subrange(2 + 2 * i, 4 + 2 * i)))
}

/// Ambisonics channel mapping table (for mapping type 3)
#[derive(Debug, PartialEq, Eq, PartialOrd, Ord, Hash)]
pub struct AmbisonicsMappingTable {
    /// The number of streams encoded in each Ogg packet.
    streams: u8,
    /// The number of streams whose decoders are to be configured to produce two channels
    /// (stereo sound). Must not be larger then `streams`.
    coupled: u8,
    /// The demixing matrix
    matrix: Vec<u16>,
}

impl AmbisonicsMappingTable {
    #[verifier::type_invariant]
    spec fn inv(self) -> bool {
        legal_streams(self.streams, self.coupled)
    }

    /// The demixing matrix.
    pub closed spec fn spec_matrix(&self) -> Seq<u16> {
        self.matrix@
    }

    /// This table is the one that `table` describes for `channels` output channels.
    pub open spec fn read_from(&self, channels: u8, table: Seq<u8>) -> bool {
        &&& self.spec_streams() == table[0]
        &&& self.spec_coupled() == table[1]
        &&& self.spec_matrix() == demixing_matrix(channels, table)
    }

    /// Reads an Ambisonics mapping table for `channels` output channels from `table`: the
    /// stream count, the coupled stream count, then a little-endian `u16` per channel.
    pub fn new(channels: u8, table: &[u8]) -> (r: Result<Self, ChannelLayoutError>)
        ensures
            r is Err <==> mapping_table_error(channels, table@, 2) is Some,
            r matches Err(e) ==> mapping_table_error(channels, table@, 2) == Some(e),
            r matches Ok(t) ==> t.read_from(channels, table@),
    {
        let streams = match table.get_res(0) {
            Ok(x) => *x,
            Err(e) => return Err(ChannelLayoutError::from(e)),
        };
        let coupled = match table.get_res(1) {
            Ok(x) => *x,
            Err(e) => return Err(ChannelLayoutError::from(e)),
        };

        // check for invalid mappings
        if streams == 0 || streams < coupled || (streams as usize) + (coupled as usize) > 255 {
            return Err(ChannelLayoutError::IllegalStreams);
        }

        let entries = match table.get_range_res(2, 2 + (2 * (channels as usize))) {
            Ok(m) => m,
            Err(e) => return Err(ChannelLayoutError::from(e)),
        };
        let mut matrix: Vec<u16> = Vec::new();
        let mut i: usize = 0;
        while i < channels as usize
            invariant
                i <= channels,
                table@.len() >= 2 + 2 * channels,
                entries@.len() == 2 * channels,
                entries@ == table@.subrange(2, 2 + 2 * channels),
                matrix@ == demixing_matrix(channels, table@).take(i as int),
            decreases channels - i,
        {
            let chunk = vstd::slice::slice_subrange(entries, 2 * i, 2 * i + 2);
            let entry = read_u16_le(chunk);
            proof {
                assert(chunk@ =~= table@.subrange(2 + 2 * i, 4 + 2 * i));
            }
            matrix.push(entry);
            i += 1;
            proof {
                assert(matrix@ =~= demixing_matrix(channels, table@).take(i as int));
            }
        }
        proof {
            assert(matrix@ =~= demixing_matrix(channels, table@));
        }
        Ok(AmbisonicsMappingTable { streams, coupled, matrix })
    }
}

impl Clone for AmbisonicsMappingTable {
    fn clone(&self) -> (r: Self)
        ensures
            r.spec_streams() == self.spec_streams(),
            r.spec_coupled() == self.spec_coupled(),
            r.spec_matrix() == self.spec_matrix(),
    {
        proof {
            use_type_invariant(self);
        }
        AmbisonicsMappingTable {
            streams: self.streams,
            coupled: self.coupled,
            matrix: self.matrix.clone(),
        }
    }
}

impl Sealed for AmbisonicsMappingTable {}

impl MappingTable for AmbisonicsMappingTable {
    closed spec fn spec_streams(&self) -> u8 {
        self.streams
    }

    closed spec fn spec_coupled(&self) -> u8 {
        self.coupled
    }

    fn streams(&self) -> (r: u8) {
        proof {
            use_type_invariant(self);
        }
        self.streams
    }

    fn coupled(&self) -> (r: u8) {
        proof {
            use_type_invariant(self);
        }
        self.coupled
    }
}

/// The channel mapping family and channel layout for an Ogg Opus stream.
#[derive(Debug, PartialEq, Eq, PartialOrd, Ord, Clone, Hash)]
#[allow(inconsistent_fields)]
pub enum ChannelMapping {
    /// Mono, L/R stereo
    RTP(RtpChannelLayout),
    /// 1-8 channel surround
    Vorbis {
        /// The channel layout.
        layout: VorbisChannelLayout,
        /// The Ogg packet channel to output channel mapping.
        mapping: StandardMappingTable,
    },
    /// Ambisonics as individual channels
    AmbisonicsIndividual {
        /// The channel layout.
        layout: AmbisonicsChannelLayout,
        /// The Ogg packet channel to output channel mapping.
        mapping: StandardMappingTable,
    },
    /// Ambisonics with demixing matrix
    AmbisonicsDemixed {
        /// The channel layout.
        layout: AmbisonicsChannelLayout,
        /// The Ogg packet channel to output channel mapping.
        mapping: AmbisonicsMappingTable,
    },
    /// Discrete channels
    Discrete {
        /// The number of channels in use.
        channels: u8,
        /// The Ogg packet channel to output channel mapping.
        mapping: StandardMappingTable,
    },
}

/// The error, if any, that `ChannelMapping::new(channels, family, table)` gives.
pub open spec fn channel_mapping_error(channels: u8, family: u8, table: Seq<u8>) -> Option<
    ChannelLayoutError,
> {
    match family {
        0 => rtp_layout_of(channels).err(),
        1 => if vorbis_layout_of(channels) is Err {
            Some(ChannelLayoutError::BadChannelsForFamily)
        } else {
            mapping_table_error(channels, table, 1)
        },
        2 => if ambisonics_layout_of(channels) is Err {
            Some(ChannelLayoutError::BadChannelsForFamily)
        } else {
            mapping_table_error(channels, table, 1)
        },
        3 => if ambisonics_layout_of(channels) is Err {
            Some(ChannelLayoutError::BadChannelsForFamily)
        } else {
            mapping_table_error(channels, table, 2)
        },
        255 => if channels == 0 {
            Some(ChannelLayoutError::BadChannelsForFamily)
        } else {
            mapping_table_error(channels, table, 1)
        },
        _ => Some(ChannelLayoutError::UnknownFamily),
    }
}

impl ChannelMapping {
    /// This mapping is the one of `family` that `table` describes for `channels` output
    /// channels.
    pub open spec fn read_from(&self, channels: u8, family: u8, table: Seq<u8>) -> bool {
        match self {
            ChannelMapping::RTP(layout) => family == 0 && rtp_layout_of(channels)
                == Ok::<_, ChannelLayoutError>(*layout),
            ChannelMapping::Vorbis { layout, mapping } => family == 1
                && vorbis_layout_of(channels) == Ok::<_, ChannelLayoutError>(*layout)
                && mapping.read_from(channels, table),
            ChannelMapping::AmbisonicsIndividual { layout, mapping } => family == 2
                && ambisonics_layout_of(channels) == Ok::<_, ChannelLayoutError>(
                *layout,
            ) && mapping.read_from(channels, table),
            ChannelMapping::AmbisonicsDemixed { layout, mapping } => family == 3
                && ambisonics_layout_of(channels) == Ok::<_, ChannelLayoutError>(
                *layout,
            ) && mapping.read_from(channels, table),
            ChannelMapping::Discrete { channels: c, mapping } => family == 255 && *c == channels
                && mapping.read_from(channels, table),
        }
    }

    /// Reads the channel mapping of `family` for `channels` output channels from the
    /// mapping `table`.
    pub fn new(channels: u8, family: u8, table: &[u8]) -> (r: Result<Self, ChannelLayoutError>)
        ensures
            r is Err <==> channel_mapping_error(channels, family, table@) is Some,
            r matches Err(e) ==> channel_mapping_error(channels, family, table@) == Some(e),
            r matches Ok(m) ==> m.read_from(channels, family, table@),
    {
        match family {
            0 => Ok(ChannelMapping::RTP(RtpChannelLayout::try_from(channels)?)),
            1 => Ok(
                ChannelMapping::Vorbis {
                    layout: VorbisChannelLayout::try_from(channels)?,
                    mapping: StandardMappingTable::new(channels, table)?,
                },
            ),
            2 => Ok(
                ChannelMapping::AmbisonicsIndividual {
                    layout: AmbisonicsChannelLayout::try_from(channels)?,
                    mapping: StandardMappingTable::new(channels, table)?,
                },
            ),
            3 => Ok(
                ChannelMapping::AmbisonicsDemixed {
                    layout: AmbisonicsChannelLayout::try_from(channels)?,
                    mapping: AmbisonicsMappingTable::new(channels, table)?,
                },
            ),
            255 => {
                // discrete channels number 1 to 255
                if channels == 0 {
                    return Err(ChannelLayoutError::BadChannelsForFamily);
                }
                Ok(
                    ChannelMapping::Discrete {
                        channels,
                        mapping: StandardMappingTable::new(channels, table)?,
                    },
                )
            },
            _ => Err(ChannelLayoutError::UnknownFamily),
        }
    }
}

impl Sealed for ChannelMapping {}

/// A channel mapping stands for its own mapping table: its stream counts are those of the
/// table it holds (one uncoupled or coupled stream for RTP layouts).
impl MappingTable for ChannelMapping {
    open spec fn spec_streams(&self) -> u8 {
        match self {
            ChannelMapping::RTP(layout) => layout.spec_streams(),
            ChannelMapping::Vorbis { mapping, .. } => mapping.spec_streams(),
            ChannelMapping::AmbisonicsIndividual { mapping, .. } => mapping.spec_streams(),
            ChannelMapping::AmbisonicsDemixed { mapping, .. } => mapping.spec_streams(),
            ChannelMapping::Discrete { mapping, .. } => mapping.spec_streams(),
        }
    }

    open spec fn spec_coupled(&self) -> u8 {
        match self {
            ChannelMapping::RTP(layout) => layout.spec_coupled(),
            ChannelMapping::Vorbis { mapping, .. } => mapping.spec_coupled(),
            ChannelMapping::AmbisonicsIndividual { mapping, .. } => mapping.spec_coupled(),
            ChannelMapping::AmbisonicsDemixed { mapping, .. } => mapping.spec_coupled(),
            ChannelMapping::Discrete { mapping, .. } => mapping.spec_coupled(),
        }
    }

    fn streams(&self) -> (r: u8) {
        match self {
            ChannelMapping::RTP(layout) => layout.streams(),
            ChannelMapping::Vorbis { mapping, .. } => mapping.streams(),
            ChannelMapping::AmbisonicsIndividual { mapping, .. } => mapping.streams(),
            ChannelMapping::AmbisonicsDemixed { mapping, .. } => mapping.streams(),
            ChannelMapping::Discrete { mapping, .. } => mapping.streams(),
        }
    }

    fn coupled(&self) -> (r: u8) {
        match self {
            ChannelMapping::RTP(layout) => layout.coupled(),
            ChannelMapping::Vorbis { mapping, .. } => mapping.coupled(),
            ChannelMapping::AmbisonicsIndividual { mapping, .. } => mapping.coupled(),
            ChannelMapping::AmbisonicsDemixed { mapping, .. } => mapping.coupled(),
            ChannelMapping::Discrete { mapping, .. } => mapping.coupled(),
        }
    }
}

} // verus!
