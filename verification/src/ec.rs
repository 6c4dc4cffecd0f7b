//! An entropy decoder based on range coding (RFC 6716, section 4.1).
use vstd::arithmetic::power2::pow2;
use vstd::prelude::*;

verus! {

/// Renormalization keeps `range` strictly above this bound.
pub const RANGE_MAX: u32 = 0x80_0000;

/// The byte at position `i` of the input, or zero past its end.
pub open spec fn byte_at(data: Seq<u8>, i: int) -> u8 {
    if 0 <= i < data.len() {
        data[i]
    } else {
        0
    }
}

/// `fs` for a symbol decode: `ft - min(ft, value / dividend + 1)`.
pub open spec fn spec_fs(value: u32, dividend: u32, ft: u16) -> u16 {
    let q = value / dividend;
    if q + 1 >= ft {
        0
    } else {
        (ft - (q + 1)) as u16
    }
}

/// The mathematical state of a range decoder.
pub struct DecoderState {
    /// The whole input.
    pub data: Seq<u8>,
    /// Position of the next input byte to read.
    pub index_ec: usize,
    /// The width of the current interval.
    pub range: u32,
    /// The low bit of the last byte read, carried into the next symbol.
    pub renorm: bool,
    /// The offset of the code value within the current interval.
    pub value: u32,
}

impl DecoderState {
    /// The code value lies inside the current interval.
    pub open spec fn valid(self) -> bool {
        self.value < self.range
    }

    /// Valid, and renormalized: `range` lies above `RANGE_MAX`.
    pub open spec fn normalized(self) -> bool {
        self.valid() && RANGE_MAX < self.range
    }

    /// The initial state for `data` (before renormalization).
    pub open spec fn start(data: Seq<u8>) -> DecoderState {
        let b0 = byte_at(data, 0);
        DecoderState {
            data,
            index_ec: 1,
            range: 128,
            renorm: b0 % 2 == 1,
            value: (127 - b0 / 2) as u32,
        }
    }

    /// One renormalization step: shift one input byte into the state. (The decoder masks the
    /// code value to 31 bits; for a valid state with `range <= RANGE_MAX`, the only states
    /// that step, the mask changes nothing.)
    pub open spec fn renormalize_step(self) -> DecoderState {
        let bn = byte_at(self.data, self.index_ec as int);
        let sym = (if self.renorm {
            128int
        } else {
            0int
        }) + bn / 2;
        DecoderState {
            data: self.data,
            index_ec: if self.index_ec < usize::MAX {
                (self.index_ec + 1) as usize
            } else {
                self.index_ec
            },
            range: (self.range * 256) as u32,
            renorm: bn % 2 == 1,
            value: (self.value * 256 + 255 - sym) as u32,
        }
    }

    /// Renormalization: steps while `0 < range <= RANGE_MAX`.
    pub open spec fn renormalize(self) -> DecoderState
        decreases (if 0 < self.range <= RANGE_MAX {
            RANGE_MAX + 1 - self.range
        } else {
            0
        }),
    {
        if 0 < self.range <= RANGE_MAX {
            self.renormalize_step().renormalize()
        } else {
            self
        }
    }

    /// The result of `decode(ft)`.
    pub open spec fn decode(self, ft: u16) -> Option<u16> {
        if ft == 0 || self.range / (ft as u32) == 0 {
            None
        } else {
            Some(spec_fs(self.value, self.range / (ft as u32), ft))
        }
    }

    /// The result of `decode_bin(ftb)`.
    pub open spec fn decode_bin(self, ftb: u8) -> Option<u16> {
        if ftb < 16 && self.range as nat / pow2(ftb as nat) != 0 {
            Some(spec_fs(self.value, (self.range as nat / pow2(ftb as nat)) as u32, pow2(ftb as nat) as u16))
        } else {
            None
        }
    }

    /// The state after `update(fl, fh, ft)`.
    pub open spec fn update(self, fl: u16, fh: u16, ft: u16) -> DecoderState {
        let d = self.range / (ft as u32);
        let s = d * (ft - fh);
        DecoderState {
            value: (self.value - s) as u32,
            range: if fl > 0 {
                (d * (fh - fl)) as u32
            } else {
                (self.range - s) as u32
            },
            ..self
        }.renormalize()
    }

    /// The result of `decode_bit_logp(logp)`.
    pub open spec fn bit_logp(self, logp: u8) -> Option<bool> {
        if logp < 32 {
            Some(self.value < self.range as nat / pow2(logp as nat))
        } else {
            None
        }
    }

    /// The state after `decode_bit_logp(logp)`, before renormalization.
    pub open spec fn bit_logp_next_raw(self, logp: u8) -> DecoderState {
        if logp < 32 {
            let s = (self.range as nat / pow2(logp as nat)) as u32;
            if self.value < s {
                DecoderState { range: s, ..self }
            } else {
                DecoderState { range: (self.range - s) as u32, value: (self.value - s) as u32, ..self }
            }
        } else {
            self
        }
    }

    /// The state after `decode_bit_logp(logp)`.
    pub open spec fn bit_logp_next(self, logp: u8) -> DecoderState {
        if logp < 32 {
            self.bit_logp_next_raw(logp).renormalize()
        } else {
            self
        }
    }
}


/// The `i`-th candidate boundary of an inverse-CDF table, `r * icdf[i]`
/// computed with wrapping arithmetic.
pub open spec fn icdf_term(r: u32, icdf: Seq<u8>, i: int) -> u32 {
    ((r as nat * icdf[i] as nat) % 0x1_0000_0000) as u32
}

/// The first index `j >= i` whose boundary does not exceed `value`, or the
/// table length when there is none.
pub open spec fn icdf_search(value: u32, r: u32, icdf: Seq<u8>, i: nat) -> nat
    decreases icdf.len() - i,
{
    if i >= icdf.len() {
        icdf.len()
    } else if value >= icdf_term(r, icdf, i as int) {
        i
    } else {
        icdf_search(value, r, icdf, i + 1)
    }
}

impl DecoderState {
    /// `range >> ftb`, the scale of an inverse-CDF table with `ftb` bits.
    pub open spec fn icdf_scale(self, ftb: u8) -> u32 {
        (self.range as nat / pow2(ftb as nat)) as u32
    }

    /// The index that an inverse-CDF decode selects (or the table length).
    pub open spec fn icdf_symbol(self, icdf: Seq<u8>, ftb: u8) -> nat {
        icdf_search(self.value, self.icdf_scale(ftb), icdf, 0)
    }

    /// The result of `decode_icdf(icdf, ftb)`.
    pub open spec fn decode_icdf(self, icdf: Seq<u8>, ftb: u8) -> Option<usize> {
        if ftb < 32 && self.icdf_symbol(icdf, ftb) < icdf.len() {
            Some(self.icdf_symbol(icdf, ftb) as usize)
        } else {
            None
        }
    }

    /// The state after `decode_icdf(icdf, ftb)`.
    pub open spec fn decode_icdf_next(self, icdf: Seq<u8>, ftb: u8) -> DecoderState {
        let r = self.icdf_scale(ftb);
        let k = self.icdf_symbol(icdf, ftb) as int;
        if ftb >= 32 {
            self
        } else if k < icdf.len() {
            let prev = if k == 0 {
                self.range
            } else {
                icdf_term(r, icdf, k - 1)
            };
            let t = icdf_term(r, icdf, k);
            DecoderState { value: (self.value - t) as u32, range: (prev - t) as u32, ..self }.renormalize()
        } else if icdf.len() == 0 {
            self
        } else {
            DecoderState { range: icdf_term(r, icdf, icdf.len() - 1), ..self }
        }
    }
}

/// Renormalization keeps the decoder valid and leaves it normalized.
pub proof fn lemma_renormalize_normalized(s: DecoderState)
    requires
        s.valid(),
    ensures
        s.renormalize().normalized(),
        s.renormalize().data == s.data,
    decreases (if 0 < s.range <= RANGE_MAX {
        RANGE_MAX + 1 - s.range
    } else {
        0
    }),
{
    if 0 < s.range <= RANGE_MAX {
        let n = s.renormalize_step();
        let bn = byte_at(s.data, s.index_ec as int);
        assert(n.value < n.range) by (nonlinear_arith)
            requires
                s.value < s.range,
                s.range <= RANGE_MAX,
                n.range == s.range * 256,
                n.value <= s.value * 256 + 255,
        ;
        lemma_renormalize_normalized(n);
    }
}

/// Where the table ends with a zero boundary, an inverse-CDF search always
/// finds an index.
pub proof fn lemma_icdf_search_found(value: u32, r: u32, icdf: Seq<u8>, i: nat)
    requires
        icdf.len() > 0,
        icdf.last() == 0,
        i < icdf.len(),
    ensures
        i <= icdf_search(value, r, icdf, i) < icdf.len(),
    decreases icdf.len() - i,
{
    if i + 1 < icdf.len() && value < icdf_term(r, icdf, i as int) {
        lemma_icdf_search_found(value, r, icdf, i + 1);
    } else if value < icdf_term(r, icdf, i as int) {
        assert(icdf[i as int] == 0);
    }
}

/// `decode_bin(ftb)` gives what `decode(1 << ftb)` gives, for every `ftb` below 16.
pub proof fn lemma_decode_bin_is_decode(s: DecoderState, ftb: u8)
    requires
        ftb < 16,
    ensures
        s.decode_bin(ftb) == s.decode(pow2(ftb as nat) as u16),
{
    vstd::bits::lemma_u16_pow2_no_overflow(ftb as nat);
}

/// Decoding a bit with `decode_bit_logp(logp)` is decoding with `ft = 1 << logp` and
/// updating with `(ft - 1, ft, ft)` when the symbol is `ft - 1` (the bit is `true`), or with
/// `(0, ft - 1, ft)` otherwise (the bit is `false`).
pub proof fn lemma_bit_logp_is_decode_then_update(s: DecoderState, logp: u8)
    requires
        s.normalized(),
        logp < 16,
    ensures
        ({
            let ft = pow2(logp as nat) as u16;
            &&& s.decode(ft) matches Some(fs)
            &&& s.bit_logp(logp) == Some(fs == ft - 1)
            &&& s.bit_logp_next(logp) == if fs == ft - 1 {
                s.update((ft - 1) as u16, ft, ft)
            } else {
                s.update(0, (ft - 1) as u16, ft)
            }
        }),
{
    vstd::bits::lemma_u16_pow2_no_overflow(logp as nat);
    vstd::arithmetic::power2::lemma_pow2_strictly_increases(logp as nat, 16);
    vstd::arithmetic::power2::lemma2_to64();
    let p = pow2(logp as nat);
    let ft = p as u16;
    let range = s.range;
    let value = s.value;
    assert(range as nat / p >= 1) by (nonlinear_arith)
        requires
            range >= p,
            p > 0,
    ;
    let d = (range / (ft as u32)) as u32;
    assert(d as nat == range as nat / p);
    let q = value / d;
    assert((value < d) == (q == 0)) by (nonlinear_arith)
        requires
            q == value / d,
            d > 0,
    ;
    let fs = spec_fs(value, d, ft);
    if q == 0 {
        assert(fs == ft - 1);
    } else {
        assert(value >= d);
        if ft == 1 {
            // `d == range > value` forces `q == 0`
            assert(d as int == range as int / 1);
        }
        assert(fs != ft - 1);
    }
    assert(d * 0int == 0);
    assert(d * 1int == d);
    assert(s.decode(ft) == Some(fs));
    assert(s.bit_logp(logp) == Some(fs == ft - 1));
    if fs == ft - 1 {
        assert(s.bit_logp_next(logp) == s.update((ft - 1) as u16, ft, ft));
    } else {
        assert(s.bit_logp_next(logp) == s.update(0, (ft - 1) as u16, ft));
    }
}

/// Where an inverse-CDF table ends with zero, `decode_icdf` always decodes an index of it
/// (for any `ftb` below 32).
pub proof fn lemma_decode_icdf_terminated(s: DecoderState, icdf: Seq<u8>, ftb: u8)
    requires
        icdf.len() > 0,
        icdf.last() == 0,
        icdf.len() <= usize::MAX,
        ftb < 32,
    ensures
        s.decode_icdf(icdf, ftb) matches Some(k) && k < icdf.len() && k == s.icdf_symbol(icdf, ftb),
{
    lemma_icdf_search_found(s.value, s.icdf_scale(ftb), icdf, 0);
}

/// The index an inverse-CDF search finds is the first whose boundary does not exceed the
/// value.
pub proof fn lemma_icdf_search_first(value: u32, r: u32, icdf: Seq<u8>, i: nat)
    ensures
        icdf_search(value, r, icdf, i) <= icdf.len(),
        forall|j: int|
            i <= j < icdf_search(value, r, icdf, i) ==> value < #[trigger] icdf_term(r, icdf, j),
        icdf_search(value, r, icdf, i) < icdf.len() ==> value >= icdf_term(
            r,
            icdf,
            icdf_search(value, r, icdf, i) as int,
        ),
    decreases icdf.len() - i,
{
    if i < icdf.len() && value < icdf_term(r, icdf, i as int) {
        lemma_icdf_search_first(value, r, icdf, i + 1);
    }
}

/// For a table of strictly decreasing entries below `ft = 1 << ftb` that ends with zero,
/// `decode_icdf(icdf, ftb)` is `decode_bin(ftb)` followed by `update(fl, fh, ft)` with
/// `fl = ft - icdf[k - 1]` (zero for `k == 0`) and `fh = ft - icdf[k]`, where `k` is the
/// decoded index: the symbol decoded with `ft` lies in `[fl, fh)`.
pub proof fn lemma_icdf_is_decode_then_update(s: DecoderState, icdf: Seq<u8>, ftb: u8)
    requires
        s.normalized(),
        ftb < 16,
        icdf.len() > 0,
        icdf.len() <= usize::MAX,
        icdf.last() == 0,
        icdf[0] < pow2(ftb as nat),
        forall|i: int, j: int| 0 <= i < j < icdf.len() ==> icdf[j] < icdf[i],
    ensures
        ({
            let ft = pow2(ftb as nat) as u16;
            let k = s.icdf_symbol(icdf, ftb) as int;
            let fl = if k == 0 {
                0
            } else {
                (ft - icdf[k - 1]) as u16
            };
            let fh = (ft - icdf[k]) as u16;
            &&& k < icdf.len()
            &&& s.decode_icdf(icdf, ftb) == Some(k as usize)
            &&& s.decode_bin(ftb) matches Some(fs)
            &&& fl <= fs < fh <= ft
            &&& s.decode(ft) == s.decode_bin(ftb)
            &&& s.decode_icdf_next(icdf, ftb) == s.update(fl, fh, ft)
        }),
{
    vstd::bits::lemma_u16_pow2_no_overflow(ftb as nat);
    vstd::arithmetic::power2::lemma_pow2_strictly_increases(ftb as nat, 16);
    vstd::arithmetic::power2::lemma2_to64();
    lemma_decode_bin_is_decode(s, ftb);
    let p = pow2(ftb as nat);
    let ft = p as u16;
    let range = s.range;
    let value = s.value;
    let r = s.icdf_scale(ftb);
    assert(range as nat / p >= 1) by (nonlinear_arith)
        requires
            range >= p,
            p > 0,
    ;
    assert(r as nat == range as nat / p);
    assert(r * p <= range) by (nonlinear_arith)
        requires
            r == range as nat / p,
            p > 0,
    ;
    lemma_icdf_search_found(value, r, icdf, 0);
    lemma_icdf_search_first(value, r, icdf, 0);
    let k = s.icdf_symbol(icdf, ftb) as int;
    // no boundary wraps: `r * icdf[i] < r * ft <= range`
    assert forall|i: int| 0 <= i < icdf.len() implies #[trigger] icdf_term(r, icdf, i) == r
        * icdf[i] && r * icdf[i] < range by {
        assert(icdf[i] <= icdf[0]) by {
            if i > 0 {
                assert(icdf[i] < icdf[0]);
            }
        }
        assert(r * icdf[i] < r * p) by (nonlinear_arith)
            requires
                icdf[i] < p,
                r > 0,
        ;
    }
    let q = value / r;
    assert(value >= icdf_term(r, icdf, k));
    assert(value >= r * icdf[k]);
    assert(q >= icdf[k]) by (nonlinear_arith)
        requires
            value >= r * icdf[k],
            q == value / r,
            r > 0,
    ;
    if k > 0 {
        assert(value < icdf_term(r, icdf, k - 1));
        assert(value < r * icdf[k - 1]);
        assert(q + 1 <= icdf[k - 1]) by (nonlinear_arith)
            requires
                value < r * icdf[k - 1],
                q == value / r,
                r > 0,
        ;
        assert(icdf[k] < icdf[k - 1]);
        assert(r * (icdf[k - 1] - icdf[k]) == r * icdf[k - 1] - r * icdf[k]) by (nonlinear_arith);
    }
    assert(icdf[k] <= icdf[0]) by {
        if k > 0 {
            assert(icdf[k] < icdf[0]);
        }
    }
    assert(r * (ft - (ft - icdf[k])) == r * icdf[k]);
}

/// From a valid decoder, decoding with a table that ends with zero leaves the decoder
/// normalized.
pub proof fn lemma_decode_icdf_next_normalized(s: DecoderState, icdf: Seq<u8>, ftb: u8)
    requires
        s.valid(),
        icdf.len() > 0,
        icdf.last() == 0,
        ftb < 32,
    ensures
        s.decode_icdf_next(icdf, ftb).normalized(),
{
    let r = s.icdf_scale(ftb);
    lemma_icdf_search_found(s.value, r, icdf, 0);
    lemma_icdf_search_first(s.value, r, icdf, 0);
    let k = s.icdf_symbol(icdf, ftb) as int;
    let prev = if k == 0 {
        s.range
    } else {
        icdf_term(r, icdf, k - 1)
    };
    let t = icdf_term(r, icdf, k);
    assert(t <= s.value < prev);
    lemma_renormalize_normalized(
        DecoderState { value: (s.value - t) as u32, range: (prev - t) as u32, ..s },
    );
}

/// The arithmetic behind `update`: the symbol `fs` lying in `[fl, fh)`
/// keeps the code value inside the new, non-empty interval.
proof fn lemma_update_bounds(value: u32, range: u32, fl: u16, fh: u16, ft: u16)
    requires
        value < range,
        ft > 0,
        range / (ft as u32) > 0,
        fh <= ft,
        fl <= spec_fs(value, range / (ft as u32), ft) < fh,
    ensures
        (range / (ft as u32)) * ft <= range,
        (range / (ft as u32)) * (ft - fh) <= value,
        fl > 0 ==> value - (range / (ft as u32)) * (ft - fh) < (range / (ft as u32)) * (fh - fl),
{
    let d = range / (ft as u32);
    let q = value / d;
    assert(d * ft <= range) by (nonlinear_arith)
        requires
            d == range / (ft as u32),
            ft > 0,
    ;
    assert(d * q <= value && value < d * (q + 1)) by (nonlinear_arith)
        requires
            q == value / d,
            d > 0,
    ;
    assert(ft - fh <= q);
    assert(d * (ft - fh) <= d * q) by (nonlinear_arith)
        requires
            ft - fh <= q,
            d > 0,
    ;
    if fl > 0 {
        assert(q + 1 <= ft - fl);
        assert(d * (q + 1) <= d * (ft - fl)) by (nonlinear_arith)
            requires
                q + 1 <= ft - fl,
                d > 0,
        ;
        assert(d * (ft - fl) - d * (ft - fh) == d * (fh - fl)) by (nonlinear_arith);
    }
}

/// An entropy decoder based on range coding.
///
/// This is implemented as described in RFC 6716, section 4.1.
#[derive(Debug, PartialEq, Eq, Clone, Copy, Hash, Default)]
pub struct RangeDecoder<'a> {
    data: &'a [u8],
    index_ec: usize,
    range: u32,
    renorm: bool,
    value: u32,
}

impl<'a> View for RangeDecoder<'a> {
    type V = DecoderState;

    closed spec fn view(&self) -> DecoderState {
        DecoderState {
            data: self.data@,
            index_ec: self.index_ec,
            range: self.range,
            renorm: self.renorm,
            value: self.value,
        }
    }
}

impl<'a> RangeDecoder<'a> {
    /// Returns a new range decoder operating on the provided data.
    pub fn new(data: &'a [u8]) -> (r: RangeDecoder<'a>)
        ensures
            r@ == DecoderState::start(data@).renormalize(),
            r@.normalized(),
    {
        let b0: u8 = if data.len() > 0 {
            data[0]
        } else {
            0
        };
        proof {
            assert(b0 >> 1 == b0 / 2) by (bit_vector);
        }
        let mut ec_dec = RangeDecoder {
            data,
            index_ec: 1,
            range: 128,
            renorm: (b0 & 1) != 0,
            value: (127 - (b0 >> 1)) as u32,
        };
        proof {
            assert((b0 & 1 != 0) == (b0 % 2 == 1)) by (bit_vector);
            assert(ec_dec@ == DecoderState::start(data@));
        }
        ec_dec.normalize();
        ec_dec
    }

    /// Common operations between `RangeDecoder::decode` and `RangeDecoder::decode_bin`.
    fn decode_inner(&self, ft: u16, dividend: u32) -> (fs: u16)
        requires
            dividend > 0,
        ensures
            fs == spec_fs(self.value, dividend, ft),
    {
        let q = self.value / dividend;
        if q <= 0xffff {
            let vdd = q as u16;
            let step = vdd.saturating_add(1);
            ft - if ft < step {
                ft
            } else {
                step
            }
        } else {
            0
        }
    }

    /// Compute `fs`, a value lying within the range of some symbol in the current context.
    ///
    /// Returns `None` if the provided `ft` is zero or too large for the current range.
    /// If `None` is returned, no change is made to the decoder state.
    pub fn decode(&self, ft: u16) -> (r: Option<u16>)
        ensures
            r == self@.decode(ft),
            self@.normalized() ==> (r is Some <==> ft > 0),
            r matches Some(fs) ==> fs < ft,
    {
        proof {
            if ft > 0 && RANGE_MAX < self.range {
                let range = self.range;
                assert(range / (ft as u32) >= 1) by (nonlinear_arith)
                    requires
                        range >= ft,
                        ft > 0,
                ;
            }
        }
        match self.range.checked_div(ft as u32) {
            Some(dividend) => {
                if dividend != 0 {
                    Some(self.decode_inner(ft, dividend))
                } else {
                    None
                }
            },
            None => None,
        }
    }

    /// Identical to `RangeDecoder::decode` where `ft = (1 << ftb)`, avoiding a division.
    ///
    /// Returns `None` if the provided `ftb` is too large for the current range. If `None` is
    /// returned, no change is made to the decoder state.
    pub fn decode_bin(&self, ftb: u8) -> (r: Option<u16>)
        ensures
            r == self@.decode_bin(ftb),
            self@.normalized() ==> (r is Some <==> ftb < 16),
            r matches Some(fs) ==> fs < pow2(ftb as nat),
    {
        if ftb < 16 {
            let dividend = self.range >> (ftb as u32);
            proof {
                vstd::bits::lemma_u32_shr_is_div(self.range, ftb as u32);
                vstd::bits::lemma_u16_pow2_no_overflow(ftb as nat);
                vstd::bits::lemma_u16_shl_is_mul(1, ftb as u16);
                vstd::arithmetic::power2::lemma_pow2_strictly_increases(ftb as nat, 16);
                vstd::arithmetic::power2::lemma2_to64();
                let p = pow2(ftb as nat);
                let range = self.range;
                if RANGE_MAX < range {
                    assert(range as nat / p >= 1) by (nonlinear_arith)
                        requires
                            range >= p,
                            p > 0,
                    ;
                }
            }
            if dividend != 0 {
                let ft: u16 = 1u16 << (ftb as u16);
                Some(self.decode_inner(ft, dividend))
            } else {
                None
            }
        } else {
            None
        }
    }

    /// Decodes a single binary symbol.
    ///
    /// `logp` represents the absolute value of the base-2 logarithm of the probability of a
    /// `true` output (i.e., the probabilty of having a `true` is `1/(1 << logp)`).
    ///
    /// This is identical to calling `RangeDecoder::decode` where `ft = 1 << logp`, followed by
    /// `RangeDecoder::update` with the tuple `(0, (1 << logp) - 1, 1 << logp)` if the returned
    /// value was less than `(1 << logp) - 1` (i.e. `false` was returned), or with the tuple
    /// `((1 << logp) - 1, 1 << logp, 1 << logp)` otherwise (i.e. `true` was returned), but
    /// requires no multiplications or divisions.
    ///
    /// Calling `RangeDecoder::update` after this function is unnecessary.
    pub fn decode_bit_logp(&mut self, logp: u8) -> (r: Option<bool>)
        requires
            old(self)@.valid(),
        ensures
            r == old(self)@.bit_logp(logp),
            final(self)@ == old(self)@.bit_logp_next(logp),
            final(self)@.valid(),
            r is Some <==> logp < 32,
            r is Some ==> final(self)@.normalized(),
    {
        if logp < 32 {
            let rshrlp = self.range >> (logp as u32);
            proof {
                vstd::bits::lemma_u32_shr_is_div(self.range, logp as u32);
                vstd::arithmetic::power2::lemma_pow2_pos(logp as nat);
                vstd::arithmetic::div_mod::lemma_div_is_ordered_by_denominator(self.range as int, 1, pow2(logp as nat) as int);
            }
            let ret = self.value < rshrlp;
            if ret {
                self.range = rshrlp;
            } else {
                self.range -= rshrlp;
                self.value -= rshrlp;
            }
            proof {
                lemma_renormalize_normalized(self@);
            }
            self.normalize();  // renormalize the decoder state
            Some(ret)
        } else {
            None
        }
    }

    /// Decodes a symbol given an inverse cumulative distribution table `icdf` scaled to
    /// `ftb` bits, returning the index of the decoded symbol.
    ///
    /// Returns `None` (leaving the decoder unrenormalized) when no entry of the table lies
    /// at or below the code value, and `None` without any change when `ftb` is 32 or more.
    pub fn decode_icdf(&mut self, icdf: &[u8], ftb: u8) -> (r: Option<usize>)
        requires
            old(self)@.valid(),
        ensures
            r == old(self)@.decode_icdf(icdf@, ftb),
            final(self)@ == old(self)@.decode_icdf_next(icdf@, ftb),
            final(self)@.valid(),
            r is Some ==> final(self)@.normalized(),
    {
        if ftb >= 32 {
            return None;
        }
        let rshrftb = self.range >> (ftb as u32);
        proof {
            vstd::bits::lemma_u32_shr_is_div(self.range, ftb as u32);
        }
        let ghost s0 = self@;
        let mut i: usize = 0;
        while i < icdf.len()
            invariant
                i <= icdf@.len(),
                ftb < 32,
                s0 == old(self)@,
                rshrftb == s0.icdf_scale(ftb),
                self@ == (DecoderState {
                    range: if i == 0 {
                        s0.range
                    } else {
                        icdf_term(rshrftb, icdf@, i - 1)
                    },
                    ..s0
                }),
                forall|j: int| 0 <= j < i ==> s0.value < #[trigger] icdf_term(rshrftb, icdf@, j),
                icdf_search(s0.value, rshrftb, icdf@, 0) == icdf_search(s0.value, rshrftb, icdf@, i as nat),
                self@.valid(),
            decreases icdf@.len() - i,
        {
            // Wrapping matches the reference implementation.
            let rticdfv = rshrftb.wrapping_mul(icdf[i] as u32);
            assert(rticdfv == icdf_term(rshrftb, icdf@, i as int));
            let old_range = self.range;
            self.range = rticdfv;
            if self.value >= self.range {
                self.value -= self.range;
                self.range = old_range - self.range;
                proof {
                    assert(icdf_search(s0.value, rshrftb, icdf@, i as nat) == i);
                    lemma_renormalize_normalized(self@);
                }
                self.normalize();  // renormalize the decoder state
                return Some(i);
            }
            i += 1;
        }
        None
    }

    /// Update `value` and `range` according to the decoded symbol.
    ///
    /// Additionally, this renormalizes the decoder.
    ///
    /// Step two of a standard symbol decode via `RangeDecoder::decode` or
    /// `RangeDecoder::decode_bin`: the symbol `fs` just decoded with `ft` must lie in
    /// `[fl, fh)`.
    pub fn update(&mut self, fl: u16, fh: u16, ft: u16)
        requires
            old(self)@.valid(),
            fh <= ft,
            old(self)@.decode(ft) matches Some(fs) && fl <= fs && fs < fh,
        ensures
            final(self)@ == old(self)@.update(fl, fh, ft),
            final(self)@.normalized(),
    {
        let dividend = self.range / (ft as u32);
        proof {
            lemma_update_bounds(self.value, self.range, fl, fh, ft);
            assert(dividend * ((ft - fh) as u32) <= dividend * ft) by (nonlinear_arith)
                requires
                    fh <= ft,
            ;
            assert(dividend * ((fh - fl) as u32) <= dividend * ft) by (nonlinear_arith)
                requires
                    fl <= fh <= ft,
            ;
        }
        // update decoder state
        let dmtsh = dividend * ((ft - fh) as u32);
        self.value -= dmtsh;
        if fl > 0 {
            self.range = dividend * ((fh - fl) as u32);
        } else {
            self.range -= dmtsh;
        }
        proof {
            lemma_renormalize_normalized(self@);
        }
        self.normalize();  // renormalize the decoder state
    }

    /// Renormalizes `value` and `range` such that `range` lies entirely in the high-order symbol.
    fn normalize(&mut self)
        requires
            old(self)@.valid(),
        ensures
            final(self)@ == old(self)@.renormalize(),
            final(self)@.normalized(),
    {
        // RFC 6716 section 4.1.2.1
        while self.range <= RANGE_MAX
            invariant
                self@.valid(),
                self@.renormalize() == old(self)@.renormalize(),
            decreases 0x8000_0000 - self.range,
        {
            // get and mangle the next byte
            let bn: u8 = if self.index_ec < self.data.len() {
                self.data[self.index_ec]
            } else {
                0
            };
            let hi: u8 = if self.renorm {
                1
            } else {
                0
            };
            let sym: u8 = (hi << 7) | (bn >> 1);
            let ghost before = self@;
            proof {
                assert(((hi << 7) | (bn >> 1)) == hi * 128 + bn / 2) by (bit_vector)
                    requires
                        hi <= 1,
                ;
                assert((bn & 1 != 0) == (bn % 2 == 1)) by (bit_vector);
                let r = self.range;
                let v = self.value;
                assert(r << 8 == r * 256) by (bit_vector)
                    requires
                        r <= 0x80_0000,
                ;
                assert(v << 8 == v * 256) by (bit_vector)
                    requires
                        v < 0x80_0000,
                ;
            }
            // update decoder state
            if self.index_ec < usize::MAX {
                self.index_ec += 1;
            }
            self.range = self.range << 8;
            self.renorm = (bn & 1) != 0;
            let shifted: u32 = self.value << 8;
            let t: u32 = shifted + (255 - sym as u32);
            proof {
                assert(t & 0x7fff_ffff == t) by (bit_vector)
                    requires
                        t < 0x8000_0000,
                ;
            }
            self.value = t & 0x7fff_ffff;
            proof {
                assert(self@ == before.renormalize_step());
            }
        }
    }
}

} // verus!
