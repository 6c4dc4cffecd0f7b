use opi::ec::RangeDecoder;

const BUFFER_LEN: usize = 32;
const DUMMY_DATA: &[u8] = &[0xFF, 0x7F, 0, 0x7F, 0xFF];
const DUMMY_ICDF: &[u8] = &[1, 0];
const ITERATIONS: usize = 48;

/// The range decoder of the RFC 6716 reference implementation (`entdec.c`), written
/// independently here as the oracle that the crate's decoder is compared against.
#[derive(Debug, Clone)]
struct EcDec<'a> {
    buf: &'a [u8],
    offs: usize,
    rng: u32,
    val: u32,
    ext: u32,
    rem: u32,
}

impl<'a> EcDec<'a> {
    fn new(buf: &'a [u8]) -> EcDec<'a> {
        let mut dec = EcDec { buf, offs: 0, rng: 1 << 7, val: 0, ext: 0, rem: 0 };
        dec.rem = dec.read_byte();
        dec.val = dec.rng - 1 - (dec.rem >> 1);
        dec.normalize();
        dec
    }

    fn read_byte(&mut self) -> u32 {
        if self.offs < self.buf.len() {
            self.offs += 1;
            u32::from(self.buf[self.offs - 1])
        } else {
            0
        }
    }

    fn normalize(&mut self) {
        while self.rng <= 1 << 23 {
            self.rng <<= 8;
            let mut sym = self.rem;
            self.rem = self.read_byte();
            sym = ((sym << 8) | self.rem) >> 1;
            self.val = (self.val.wrapping_shl(8).wrapping_add(255 & !sym)) & ((1 << 31) - 1);
        }
    }

    fn decode(&mut self, ft: u16) -> u16 {
        let ft = u32::from(ft);
        self.ext = self.rng / ft;
        let s = self.val / self.ext;
        (ft - std::cmp::min(s + 1, ft)) as u16
    }

    fn decode_bin(&mut self, bits: u8) -> u16 {
        self.ext = self.rng >> bits;
        let s = self.val / self.ext;
        ((1u32 << bits) - std::cmp::min(s + 1, 1u32 << bits)) as u16
    }

    fn decode_bit_logp(&mut self, logp: u8) -> bool {
        let r = self.rng;
        let d = self.val;
        let s = r >> logp;
        let ret = d < s;
        if !ret {
            self.val = d - s;
        }
        self.rng = if ret { s } else { r - s };
        self.normalize();
        ret
    }

    fn decode_icdf(&mut self, icdf: &[u8], ftb: u8) -> usize {
        let mut s = self.rng;
        let d = self.val;
        let r = s >> ftb;
        let mut ret = 0;
        let mut t;
        loop {
            t = s;
            s = r.wrapping_mul(u32::from(icdf[ret]));
            if d >= s {
                break;
            }
            ret += 1;
        }
        self.val = d - s;
        self.rng = t - s;
        self.normalize();
        ret
    }

    fn update(&mut self, fl: u16, fh: u16, ft: u16) {
        let s = self.ext * u32::from(ft - fh);
        self.val -= s;
        self.rng = if fl > 0 { self.ext * u32::from(fh - fl) } else { self.rng - s };
        self.normalize();
    }
}

/// A small deterministic generator standing in for a random source.
struct XorShift(u64);

impl XorShift {
    fn next(&mut self) -> u64 {
        self.0 ^= self.0 << 13;
        self.0 ^= self.0 >> 7;
        self.0 ^= self.0 << 17;
        self.0
    }

    /// A value in `[low, high)`.
    fn range(&mut self, low: u64, high: u64) -> u64 {
        low + self.next() % (high - low)
    }

    fn bytes(&mut self) -> [u8; BUFFER_LEN] {
        let mut buf = [0; BUFFER_LEN];
        for b in buf.iter_mut() {
            *b = self.next() as u8;
        }
        buf
    }
}

fn logp1gen(i: u8) -> u8 {
    (i % 15) + 1
}

fn decode_generic<T>(buf: &[u8], mut get_ft: T)
where
    T: FnMut(u16) -> u16,
{
    // initialize decoders
    let mut ref_dec = EcDec::new(&buf);
    let mut opi_dec = RangeDecoder::new(&buf);

    for i in 0..ITERATIONS as u16 {
        let ft = get_ft(i);

        // attempt decodes
        let ref_res = ref_dec.decode(ft);
        let opi_res = opi_dec.decode(ft);

        assert_eq!(ref_res, opi_res.unwrap()); // test decodes

        // finalize decodes
        ref_dec.update(ref_res, ref_res + 1, ft);
        if let Some(our_res) = opi_res {
            opi_dec.update(our_res, our_res + 1, ft);
        }
    }
}

#[test]
fn decode_random_bytes_randomly() {
    let mut rng = XorShift(0x9e37_79b9_7f4a_7c15);
    for _ in 0..ITERATIONS {
        let buf = rng.bytes();
        let mut ft_rng = XorShift(rng.next() | 1);
        decode_generic(&buf, |_| ft_rng.range(1, u64::from(u16::max_value())) as u16);
    }
}

#[test]
fn decode_random_bytes_iteratively() {
    let mut rng = XorShift(0x2545_f491_4f6c_dd1d);
    for _ in 0..ITERATIONS {
        let buf = rng.bytes();
        decode_generic(&buf, |i| i + 1);
    }
}

#[test]
fn decode_iterative_bytes_randomly() {
    let buf: Vec<_> = (0..ITERATIONS as u8).collect();
    let mut rng = XorShift(0x1234_5678_9abc_def1);

    for _ in 0..ITERATIONS {
        decode_generic(&buf[..], |_| rng.range(1, u64::from(u16::max_value())) as u16);
    }
}

#[test]
fn decode_iterative_bytes_iteratively() {
    decode_generic(&[], |i| i + 1);
}

#[test]
fn decode_empty_input() {
    decode_generic(&[], |i| i + 1);
}

#[test]
fn decode_fail_zero_ft() {
    assert_eq!(RangeDecoder::new(DUMMY_DATA).decode(0), None);
}

fn decode_bin_generic<T>(buf: &[u8], mut get_ftb: T)
where
    T: FnMut(u8) -> u8,
{
    // initialize decoders
    let mut ref_dec = EcDec::new(&buf);
    let mut opi_dec = RangeDecoder::new(&buf);

    for i in 0..ITERATIONS as u8 {
        let ftb = get_ftb(i);

        // attempt decodes
        let ref_res = ref_dec.decode_bin(ftb);
        let opi_res = opi_dec.decode_bin(ftb);

        assert_eq!(ref_res, opi_res.unwrap()); // test decodes

        // finalize decodes
        ref_dec.update(ref_res, ref_res + 1, 1 << ftb);
        if let Some(our_res) = opi_res {
            opi_dec.update(our_res, our_res + 1, 1 << ftb);
        }
    }
}

#[test]
fn decode_bin_random_bits_randomly() {
    let mut rng = XorShift(0x0dd_b1a5_e5ba_d5ee);
    for _ in 0..ITERATIONS {
        let buf = rng.bytes();
        let mut ftb_rng = XorShift(rng.next() | 1);
        decode_bin_generic(&buf, |_| ftb_rng.range(1, 16) as u8);
    }
}

#[test]
fn decode_bin_random_bits_iteratively() {
    let mut rng = XorShift(0xfeed_face_cafe_beef);
    for _ in 0..ITERATIONS {
        let buf = rng.bytes();
        decode_bin_generic(&buf, logp1gen);
    }
}

#[test]
fn decode_bin_iterative_bits_randomly() {
    let buf: Vec<_> = (0..ITERATIONS as u8).collect();
    let mut rng = XorShift(0x0123_4567_89ab_cdef);

    for _ in 0..ITERATIONS {
        decode_bin_generic(&buf[..], |_| rng.range(1, 16) as u8);
    }
}

#[test]
fn decode_bin_iterative_bits_iteratively() {
    let buf: Vec<_> = (0..ITERATIONS as u8).collect();
    decode_bin_generic(&buf[..], logp1gen);
}

#[test]
fn decode_bin_empty_input() {
    decode_bin_generic(&[], logp1gen);
}

#[test]
fn decode_bin_fail_large_ftb() {
    let opi_dec = RangeDecoder::new(DUMMY_DATA);
    for i in 16..u8::max_value() {
        assert_eq!(opi_dec.decode_bin(i), None);
    }
}

fn decode_bit_logp_generic<T>(buf: &[u8], mut get_logp: T)
where
    T: FnMut(u8) -> u8,
{
    // initialize decoders
    let mut ref_dec = EcDec::new(&buf);
    let mut opi_dec = RangeDecoder::new(&buf);

    for i in 0..ITERATIONS as u8 {
        let logp = get_logp(i);

        // attempt decodes
        let ref_res = ref_dec.decode_bit_logp(logp);
        let opi_res = opi_dec.decode_bit_logp(logp);

        assert_eq!(ref_res, opi_res.unwrap()); // test decodes
    }
}

#[test]
fn decode_bit_logp_random_bits_randomly() {
    let mut rng = XorShift(0x5555_aaaa_3333_cccc);
    for _ in 0..ITERATIONS {
        let buf = rng.bytes();
        let mut logp_rng = XorShift(rng.next() | 1);
        decode_bit_logp_generic(&buf, |_| logp_rng.range(1, 16) as u8);
    }
}

#[test]
fn decode_bit_logp_random_bits_iteratively() {
    let mut rng = XorShift(0x7777_1111_9999_2222);
    for _ in 0..ITERATIONS {
        let buf = rng.bytes();
        decode_bit_logp_generic(&buf, logp1gen);
    }
}

#[test]
fn decode_bit_logp_iterative_bits_randomly() {
    let buf: Vec<_> = (0..ITERATIONS as u8).collect();
    let mut rng = XorShift(0x4242_4242_4242_4243);

    for _ in 0..ITERATIONS {
        decode_bit_logp_generic(&buf[..], |_| rng.range(1, 16) as u8);
    }
}

#[test]
fn decode_bit_logp_iterative_bits_iteratively() {
    let buf: Vec<_> = (0..ITERATIONS as u8).collect();
    decode_bit_logp_generic(&buf[..], logp1gen);
}

#[test]
fn decode_bit_logp_empty_input() {
    decode_bit_logp_generic(&[], logp1gen);
}

#[test]
fn decode_bit_logp_fail_large_logp() {
    let mut opi_dec = RangeDecoder::new(DUMMY_DATA);
    for i in 32..u8::max_value() {
        assert_eq!(opi_dec.decode_bit_logp(i), None);
    }
}

fn decode_icdf_generic<'a, T, U>(buf: &[u8], mut get_icdf: T, mut get_ftb: U)
where
    T: FnMut(u8) -> &'a [u8],
    U: FnMut(u8) -> u8,
{
    // initialize decoders
    let mut ref_dec = EcDec::new(&buf);
    let mut opi_dec = RangeDecoder::new(&buf);

    for i in 0..ITERATIONS as u8 {
        let icdf = get_icdf(i);
        let ftb = get_ftb(i);

        // attempt decodes
        let ref_res = ref_dec.decode_icdf(icdf, ftb);
        let opi_res = opi_dec.decode_icdf(icdf, ftb);

        println!("{:?}; {}\n{:?}\n{:?}\n", icdf, ftb, ref_dec, opi_dec);
        assert_eq!(ref_res, opi_res.unwrap()); // test decodes
    }
}

fn generate_random_icdfs(rng: &mut XorShift) -> Vec<Vec<u8>> {
    (0..ITERATIONS)
        .map(|_| {
            let len = rng.range(0, ITERATIONS as u64) as usize;
            (0..len)
                .map(|_| rng.range(1, u64::from(u8::max_value())) as u8)
                .chain(std::iter::once(0))
                .collect()
        })
        .collect()
}

#[test]
fn decode_icdf_random_bits_randomly_with_random_icdfs() {
    let mut rng = XorShift(0x1111_2222_3333_4444);

    for _ in 0..ITERATIONS {
        let buf = rng.bytes();
        let icdfs = generate_random_icdfs(&mut rng);
        let mut ftb_rng = XorShift(rng.next() | 1);

        decode_icdf_generic(
            &buf,
            |i| &icdfs[usize::from(i) % icdfs.len()],
            |_| ftb_rng.range(1, 16) as u8,
        );
    }
}

#[test]
fn decode_icdf_random_bits_iteratively_with_random_icdfs() {
    let mut rng = XorShift(0x5555_6666_7777_8888);
    for _ in 0..ITERATIONS {
        let buf = rng.bytes();
        let icdfs = generate_random_icdfs(&mut rng);

        decode_icdf_generic(&buf, |i| &icdfs[usize::from(i) % icdfs.len()], logp1gen);
    }
}

#[test]
fn decode_icdf_iterative_bits_randomly_with_random_icdfs() {
    let buf: Vec<_> = (0..ITERATIONS as u8).collect();
    let mut rng = XorShift(0x9999_aaaa_bbbb_cccc);

    for _ in 0..ITERATIONS {
        let icdfs = generate_random_icdfs(&mut rng);
        let mut ftb_rng = XorShift(rng.next() | 1);
        decode_icdf_generic(
            &buf[..],
            |i| &icdfs[usize::from(i) % icdfs.len()],
            |_| ftb_rng.range(1, 16) as u8,
        );
    }
}

#[test]
fn decode_icdf_iterative_bits_iteratively_with_random_icdfs() {
    let buf: Vec<_> = (0..ITERATIONS as u8).collect();
    let mut rng = XorShift(0xdddd_eeee_ffff_0001);

    for _ in 0..ITERATIONS {
        let icdfs = generate_random_icdfs(&mut rng);
        decode_icdf_generic(&buf[..], |i| &icdfs[usize::from(i) % icdfs.len()], logp1gen);
    }
}

#[test]
fn decode_icdf_empty_input_with_random_icdfs() {
    let mut rng = XorShift(0x0f0f_0f0f_f0f0_f0f1);
    for _ in 0..ITERATIONS {
        let icdfs = generate_random_icdfs(&mut rng);
        decode_icdf_generic(&[], |i| &icdfs[usize::from(i) % icdfs.len()], logp1gen);
    }
}

#[test]
fn decode_icdf_random_bits_randomly_with_static_icdfs() {
    let mut rng = XorShift(0x1357_9bdf_2468_ace1);

    for _ in 0..ITERATIONS {
        let buf = rng.bytes();
        let mut ftb_rng = XorShift(rng.next() | 1);

        decode_icdf_generic(&buf, |_| DUMMY_ICDF, |_| ftb_rng.range(1, 16) as u8);
    }
}

#[test]
fn decode_icdf_random_bits_iteratively_with_static_icdfs() {
    let mut rng = XorShift(0x2468_ace1_3579_bdf1);
    for _ in 0..ITERATIONS {
        let buf = rng.bytes();
        decode_icdf_generic(&buf, |_| DUMMY_ICDF, logp1gen);
    }
}

#[test]
fn decode_icdf_iterative_bits_randomly_with_static_icdfs() {
    let buf: Vec<_> = (0..ITERATIONS as u8).collect();
    let mut rng = XorShift(0x3c3c_3c3c_c3c3_c3c3);

    for _ in 0..ITERATIONS {
        decode_icdf_generic(&buf[..], |_| DUMMY_ICDF, |_| rng.range(1, 16) as u8);
    }
}

#[test]
fn decode_icdf_iterative_bits_iteratively_with_static_icdfs() {
    let buf: Vec<_> = (0..ITERATIONS as u8).collect();
    decode_icdf_generic(&buf[..], |_| DUMMY_ICDF, logp1gen);
}

#[test]
fn decode_icdf_empty_input_with_static_icdfs() {
    decode_icdf_generic(&[], |_| DUMMY_ICDF, logp1gen);
}

#[test]
fn decode_icdf_empty_input_with_empty_icdfs() {
    decode_icdf_generic(&[], |_| &[0], logp1gen);
}

#[test]
fn decode_icdf_fail_large_logp_with_static_icdf() {
    let mut opi_dec = RangeDecoder::new(DUMMY_DATA);
    // FIXME this should probably be 16, but I'm not entirely sure
    for i in 32..u8::max_value() {
        assert_eq!(opi_dec.decode_icdf(DUMMY_ICDF, i), None);
    }
}

#[test]
fn ec_test_send() {
    fn assert_send<T: Send>() {}
    assert_send::<RangeDecoder<'_>>();
}

#[test]
fn ec_test_sync() {
    fn assert_sync<T: Sync>() {}
    assert_sync::<RangeDecoder<'_>>();
}

// Exact values of the reference decoder, and the laws of the decoder on concrete inputs.

#[test]
fn decode_bin_matches_reference_values() {
    let buf: Vec<u8> = (0..ITERATIONS as u8).collect();
    let expected: [u16; 48] = [
        0, 0, 0, 0, 0, 32, 32, 48, 128, 643, 28, 514, 2128, 5656, 3342, 0, 0, 3, 12, 8, 2, 17,
        33, 98, 522, 1112, 1478, 200, 13366, 7197, 0, 0, 7, 8, 15, 36, 2, 18, 68, 402, 148, 2441,
        6465, 4692, 11052, 0, 1, 3,
    ];
    let mut dec = RangeDecoder::new(&buf);
    for i in 0..ITERATIONS as u8 {
        let ftb = logp1gen(i);
        let fs = dec.decode_bin(ftb).unwrap();
        assert_eq!(fs, expected[usize::from(i)]);
        dec.update(fs, fs + 1, 1 << ftb);
    }
}

#[test]
fn decode_bin_equals_decode_of_power_of_two() {
    let dec = RangeDecoder::new(DUMMY_DATA);
    for ftb in 0..16u8 {
        assert_eq!(dec.decode_bin(ftb), dec.decode(1 << ftb));
    }
}

#[test]
fn decode_bit_logp_equals_decode_then_update() {
    let buf: Vec<u8> = (0..ITERATIONS as u8).map(|b| b.wrapping_mul(37).wrapping_add(11)).collect();
    let mut by_bits = RangeDecoder::new(&buf);
    let mut by_symbols = RangeDecoder::new(&buf);
    for i in 0..ITERATIONS as u8 {
        let logp = i % 16;
        let ft: u16 = 1 << logp;
        let bit = by_bits.decode_bit_logp(logp).unwrap();
        let fs = by_symbols.decode(ft).unwrap();
        assert_eq!(bit, fs == ft - 1);
        if fs == ft - 1 {
            by_symbols.update(ft - 1, ft, ft);
        } else {
            by_symbols.update(0, ft - 1, ft);
        }
        assert_eq!(by_bits, by_symbols);
    }
}

#[test]
fn decode_symbol_lies_below_ft() {
    let dec = RangeDecoder::new(DUMMY_DATA);
    for ft in 1..=u16::max_value() {
        assert!(dec.decode(ft).unwrap() < ft);
    }
}

#[test]
fn decode_icdf_without_zero_gives_none() {
    let mut dec = RangeDecoder::new(&[0xff, 0xff, 0xff, 0xff]);
    // the code value lies below every boundary of this table
    assert_eq!(dec.decode_icdf(&[255, 255], 8), None);
}

#[test]
fn decode_icdf_picks_first_boundary_at_or_below_value() {
    let buf = [0x80u8, 0x55, 0xaa, 0x0f];
    let icdf = [200u8, 150, 100, 50, 0];
    let mut opi = RangeDecoder::new(&buf);
    let mut reference = EcDec::new(&buf);
    for _ in 0..8 {
        assert_eq!(opi.decode_icdf(&icdf, 8), Some(reference.decode_icdf(&icdf, 8)));
    }
}

#[test]
fn decode_icdf_equals_decode_bin_then_update() {
    let buf: Vec<u8> = (0..64u8).map(|b| b.wrapping_mul(91).wrapping_add(5)).collect();
    let icdf = [200u8, 150, 100, 50, 0];
    let ftb = 8;
    let ft: u16 = 1 << ftb;
    let mut by_table = RangeDecoder::new(&buf);
    let mut by_symbols = RangeDecoder::new(&buf);
    for _ in 0..32 {
        let k = by_table.decode_icdf(&icdf, ftb).unwrap();
        let fs = by_symbols.decode_bin(ftb).unwrap();
        let fl = if k == 0 { 0 } else { ft - u16::from(icdf[k - 1]) };
        let fh = ft - u16::from(icdf[k]);
        assert!(fl <= fs && fs < fh);
        by_symbols.update(fl, fh, ft);
        assert_eq!(by_table, by_symbols);
    }
}
