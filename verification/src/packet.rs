//! The parameters of an Opus packet's configuration (RFC 6716, section 3.1)
//! that the SILK layer reads.
use vstd::prelude::*;

verus! {

/// The duration of a frame.
#[derive(Debug, PartialEq, Eq, PartialOrd, Ord, Clone, Copy, Hash)]
pub enum FrameSize {
    /// 2.5 ms
    TwoPointFive,
    /// 5 ms
    Five,
    /// 10 ms
    Ten,
    /// 20 ms
    Twenty,
    /// 40 ms
    Fourty,
    /// 60 ms
    Sixty,
}

impl FrameSize {
    /// The duration of the frame, in microseconds.
    pub open spec fn duration_us(self) -> nat {
        match self {
            FrameSize::TwoPointFive => 2500,
            FrameSize::Five => 5000,
            FrameSize::Ten => 10_000,
            FrameSize::Twenty => 20_000,
            FrameSize::Fourty => 40_000,
            FrameSize::Sixty => 60_000,
        }
    }
}

/// The audio bandwidth of a frame.
#[derive(Debug, PartialEq, Eq, PartialOrd, Ord, Clone, Copy, Hash)]
pub enum Bandwidth {
    /// 4 kHz
    Narrowband,
    /// 6 kHz
    Mediumband,
    /// 8 kHz
    Wideband,
    /// 12 kHz
    SuperWideband,
    /// 20 kHz
    Fullband,
}

} // verus!
