//! The headers of Ogg-encapsulated Opus streams (RFC 7845, section 5).
use crate::channel::{ChannelMapping, channel_mapping_error};
use crate::error::Error;
use crate::read::{
    read_i16_le, read_u16_le, read_u32_le, spec_i16_le, spec_u16_le, spec_u32_le,
    str_from_utf8, string_from_utf8_lossy, utf8_lossy,
};
use crate::slice_ext::{BoundsError, SliceExt};
use vstd::prelude::*;
use vstd::string::StringSliceAdditionalSpecFns;
use vstd::utf8::{decode_utf8, is_char_boundary, valid_utf8};

verus! {

/// The error type returned when the Ogg Opus stream is malformed.
#[derive(Debug, PartialEq, Eq, PartialOrd, Ord, Clone, Copy, Hash)]
pub enum OggOpusError {
    /// Stream rejected due to a suspected denial-of-service attack.
    DenialOfService,
    /// The Ogg Header packets are incorrectly page-aligned.
    BadPaging,
    /// Either of the Identification Header or the Comment Header had the wrong magic number.
    BadMagic,
    /// The Identificaion Header indicated that this Ogg file conforms to an unsupported version of
    /// the specification.
    UnsupportedVersion,
}

impl OggOpusError {
    /// A description of the error.
    pub fn description(&self) -> (r: &'static str)
        ensures
            r@ == match self {
                OggOpusError::DenialOfService => "suspected denial-of-service attack"@,
                OggOpusError::BadPaging => "bad ogg paging alignment"@,
                OggOpusError::BadMagic => "invalid magic number"@,
                OggOpusError::UnsupportedVersion => "unsupported encapsulation specification version"@,
            },
    {
        match self {
            OggOpusError::DenialOfService => "suspected denial-of-service attack",
            OggOpusError::BadPaging => "bad ogg paging alignment",
            OggOpusError::BadMagic => "invalid magic number",
            OggOpusError::UnsupportedVersion => "unsupported encapsulation specification version",
        }
    }
}

/// The bytes of `"OpusHead"`, the identification header's magic number.
pub open spec fn id_header_magic() -> Seq<u8> {
    seq![0x4fu8, 0x70, 0x75, 0x73, 0x48, 0x65, 0x61, 0x64]
}

/// The bytes of `"OpusTags"`, the comment header's magic number.
pub open spec fn comment_header_magic() -> Seq<u8> {
    seq![0x4fu8, 0x70, 0x75, 0x73, 0x54, 0x61, 0x67, 0x73]
}

/// Whether two byte slices hold the same bytes.
fn bytes_eq(a: &[u8], b: &[u8]) -> (r: bool)
    ensures
        r == (a@ == b@),
{
    if a.len() != b.len() {
        return false;
    }
    let mut i: usize = 0;
    while i < a.len()
        invariant
            a@.len() == b@.len(),
            i <= a@.len(),
            forall|j: int| 0 <= j < i ==> a@[j] == b@[j],
        decreases a@.len() - i,
    {
        if a[i] != b[i] {
            return false;
        }
        i += 1;
    }
    proof {
        assert(a@ =~= b@);
    }
    true
}

/// The error, if any, that the identification header in `data` gives.
pub open spec fn id_header_error(data: Seq<u8>) -> Option<Error> {
    if data.len() < 8 {
        Some(Error::Bounds(BoundsError))
    } else if data.subrange(0, 8) != id_header_magic() {
        Some(Error::OggOpus(OggOpusError::BadMagic))
    } else if data.len() < 9 {
        Some(Error::Bounds(BoundsError))
    } else if data[8] >= 0x10 {
        Some(Error::OggOpus(OggOpusError::UnsupportedVersion))
    } else if data.len() < 19 {
        Some(Error::Bounds(BoundsError))
    } else {
        match channel_mapping_error(data[9], data[18], data.subrange(19, data.len() as int)) {
            Some(e) => Some(Error::ChannelLayout(e)),
            None => None,
        }
    }
}

/// An Ogg Opus identification header.
#[derive(Debug, PartialEq, Eq, Clone, Hash)]
pub struct IdHeader {
    /// Encapsulation specification version.
    version: u8,
    /// Output channel configuration.
    channels: ChannelMapping,
    /// Number of samples (at 48 kHz) to discard when beginning playback.
    pre_skip: u16,
    /// Sample rate of the original input (before encoding) in Hz, zero where unknown.
    ///
    /// This is _not_ the sample rate to use for playback.
    sample_rate: u32,
    /// 20*log_10 of the factor by which to scale the decoder output to
    /// receive the desired playback volume.
    output_gain: i16,
}

impl IdHeader {
    /// The encapsulation specification version.
    pub closed spec fn spec_version(&self) -> u8 {
        self.version
    }

    /// The output channel configuration.
    pub closed spec fn spec_channels(&self) -> ChannelMapping {
        self.channels
    }

    /// The number of samples to discard when beginning playback.
    pub closed spec fn spec_pre_skip(&self) -> u16 {
        self.pre_skip
    }

    /// The sample rate of the original input, zero where unknown.
    pub closed spec fn spec_sample_rate(&self) -> u32 {
        self.sample_rate
    }

    /// The output gain.
    pub closed spec fn spec_output_gain(&self) -> i16 {
        self.output_gain
    }

    /// This header is the one that `data` holds: version at byte 8, channel count at 9,
    /// pre-skip at 10, sample rate at 12, output gain at 16, mapping family at 18 and
    /// the mapping table from 19 on.
    pub open spec fn read_from(&self, data: Seq<u8>) -> bool {
        &&& self.spec_version() == data[8]
        &&& self.spec_channels().read_from(data[9], data[18], data.subrange(19, data.len() as int))
        &&& self.spec_pre_skip() == spec_u16_le(data.subrange(10, 12))
        &&& self.spec_sample_rate() == spec_u32_le(data.subrange(12, 16))
        &&& self.spec_output_gain() == spec_i16_le(data.subrange(16, 18))
    }

    /// Reads an identification header from `data`.
    pub fn new(data: &[u8]) -> (r: Result<Self, Error>)
        ensures
            r is Err <==> id_header_error(data@) is Some,
            r matches Err(e) ==> id_header_error(data@) == Some(e),
            r matches Ok(h) ==> h.read_from(data@),
    {
        let magic = match data.get_range_res(0, 8) {
            Ok(m) => m,
            Err(e) => return Err(Error::Bounds(e)),
        };
        let expected: [u8; 8] = [0x4f, 0x70, 0x75, 0x73, 0x48, 0x65, 0x61, 0x64];
        proof {
            assert(expected@ =~= id_header_magic());
        }
        if !bytes_eq(magic, expected.as_slice()) {
            return Err(Error::OggOpus(OggOpusError::BadMagic));
        }
        let version = match data.get_res(8) {
            Ok(v) => *v,
            Err(e) => return Err(Error::Bounds(e)),
        };
        proof {
            assert((version & 0xf0 == 0) == (version < 0x10)) by (bit_vector);
        }
        if version & 0xf0 != 0 {
            return Err(Error::OggOpus(OggOpusError::UnsupportedVersion));
        }
        let channel_count = match data.get_res(9) {
            Ok(v) => *v,
            Err(e) => return Err(Error::Bounds(e)),
        };
        let family = match data.get_res(18) {
            Ok(v) => *v,
            Err(e) => return Err(Error::Bounds(e)),
        };
        let table = match data.get_range_res(19, data.len()) {
            Ok(t) => t,
            Err(e) => return Err(Error::Bounds(e)),
        };
        let channels = match ChannelMapping::new(channel_count, family, table) {
            Ok(c) => c,
            Err(e) => return Err(Error::ChannelLayout(e)),
        };
        let pre_skip = read_u16_le(vstd::slice::slice_subrange(data, 10, 12));
        let sample_rate = read_u32_le(vstd::slice::slice_subrange(data, 12, 16));
        let output_gain = read_i16_le(vstd::slice::slice_subrange(data, 16, 18));
        Ok(IdHeader { version, channels, pre_skip, sample_rate, output_gain })
    }

    /// Returns the encapsulation specification version as (major, minor).
    pub fn version(&self) -> (r: (u8, u8))
        ensures
            r == (self.spec_version() / 16, self.spec_version() % 16),
    {
        let v = self.version;
        proof {
            assert((v & 0xf0) >> 4 == v / 16) by (bit_vector);
            assert(v & 0x0f == v % 16) by (bit_vector);
        }
        // the major subfield is the high nibble
        ((self.version & 0xf0) >> 4, self.version & 0x0f)
    }

    /// Returns the output channel configuration.
    pub fn channels(&self) -> (r: &ChannelMapping)
        ensures
            *r == self.spec_channels(),
    {
        &self.channels
    }

    /// Returns the number of samples (at 48 kHz) to discard when beginning playback.
    pub fn pre_skip(&self) -> (r: u16)
        ensures
            r == self.spec_pre_skip(),
    {
        self.pre_skip
    }

    /// Returns the encoding sample rate, `None` where it is unknown (zero).
    pub fn sample_rate(&self) -> (r: Option<u32>)
        ensures
            r == (if self.spec_sample_rate() == 0 {
                None
            } else {
                Some(self.spec_sample_rate())
            }),
    {
        if self.sample_rate == 0 {
            None
        } else {
            Some(self.sample_rate)
        }
    }

    /// Returns 20*log_10 of the factor by which to scale the decoder output to
    /// receive the desired playback volume.
    pub fn output_gain(&self) -> (r: i16)
        ensures
            r == self.spec_output_gain(),
    {
        self.output_gain
    }
}

/// The first index at or after `i` that holds byte `b`, or the length where there is none.
pub open spec fn first_index_of(bytes: Seq<u8>, b: u8, i: nat) -> nat
    decreases bytes.len() - i,
{
    if i >= bytes.len() {
        bytes.len()
    } else if bytes[i as int] == b {
        i
    } else {
        first_index_of(bytes, b, i + 1)
    }
}

/// A user comment `name=value`: its name and value where `text` is valid UTF-8 holding an
/// `=`, split at the first `=`.
pub open spec fn comment_entry(text: Seq<u8>) -> Option<(Seq<u8>, Seq<u8>)> {
    let k = first_index_of(text, 0x3d, 0) as int;
    if valid_utf8(text) && k < text.len() {
        Some((text.subrange(0, k), text.subrange(k + 1, text.len() as int)))
    } else {
        None
    }
}

/// The state of an iterator over user comments.
pub struct CommentsState {
    /// The comment data.
    pub comments: Seq<u8>,
    /// The number of comments that the header announces.
    pub comments_num: u32,
    /// The number of comments read so far.
    pub comments_read: u32,
    /// The position of the next comment's length field.
    pub pos: usize,
}

/// The result of `Comments::next` (as the bytes of the name and of the value) and the state
/// after it.
pub open spec fn comments_next(s: CommentsState) -> (Option<(Seq<u8>, Seq<u8>)>, CommentsState) {
    let len = s.comments.len();
    if s.pos < len && s.comments_read < s.comments_num {
        let start = s.pos + 4;
        if start > len {
            (None, s)
        } else {
            let cmt_len = spec_u32_le(s.comments.subrange(s.pos as int, start));
            let end = if start + cmt_len <= usize::MAX {
                start + cmt_len
            } else {
                usize::MAX as int
            };
            let next = CommentsState {
                pos: end as usize,
                comments_read: (s.comments_read + 1) as u32,
                ..s
            };
            if end > len {
                (None, next)
            } else {
                (comment_entry(s.comments.subrange(start, end)), next)
            }
        }
    } else {
        (None, s)
    }
}

/// The number of comments read by `n` calls of `Comments::next`, and the state after them.
pub open spec fn comments_read_by(s: CommentsState, n: nat) -> (nat, CommentsState)
    decreases n,
{
    if n == 0 {
        (0, s)
    } else {
        let (r, t) = comments_next(s);
        let (k, u) = comments_read_by(t, (n - 1) as nat);
        (k + if r is Some {
            1nat
        } else {
            0nat
        }, u)
    }
}

/// However many times `Comments::next` is called, it gives no more comments than the header
/// announces beyond those already read: the upper bound of `Comments::size_hint`.
pub proof fn lemma_comments_at_most_announced(s: CommentsState, n: nat)
    requires
        s.comments_read <= s.comments_num,
    ensures
        comments_read_by(s, n).0 <= s.comments_num - s.comments_read,
    decreases n,
{
    if n > 0 {
        let t = comments_next(s).1;
        assert(s.comments_read <= t.comments_read <= s.comments_num);
        assert(comments_next(s).0 is Some ==> t.comments_read == s.comments_read + 1);
        lemma_comments_at_most_announced(t, (n - 1) as nat);
    }
}

/// A header that reads successfully announces a stream of major version zero.
pub proof fn lemma_id_header_major_version_zero(data: Seq<u8>)
    requires
        id_header_error(data) is None,
    ensures
        data[8] / 16 == 0,
{
}

/// An iterator over user comments.
#[derive(Debug, PartialEq, Eq, Hash)]
pub struct Comments<'a> {
    comments: &'a [u8],
    comments_num: u32,
    comments_read: u32,
    pos: usize,
}

impl<'a> View for Comments<'a> {
    type V = CommentsState;

    closed spec fn view(&self) -> CommentsState {
        CommentsState {
            comments: self.comments@,
            comments_num: self.comments_num,
            comments_read: self.comments_read,
            pos: self.pos,
        }
    }
}

/// The first `=` in a valid UTF-8 text starts a one-byte character, so the text splits
/// into valid UTF-8 before it and after it.
proof fn lemma_split_at_equals(text: Seq<u8>, k: int)
    requires
        valid_utf8(text),
        0 <= k < text.len(),
        text[k] == 0x3d,
    ensures
        is_char_boundary(text, k),
        is_char_boundary(text.subrange(k, text.len() as int), 1),
        valid_utf8(text.subrange(k, text.len() as int)),
{
    vstd::utf8::is_char_boundary_iff_not_is_continuation_byte(text, k);
    vstd::utf8::valid_utf8_split(text, k);
    let rest = text.subrange(k, text.len() as int);
    assert(rest[0] == 0x3d);
    reveal_with_fuel(is_char_boundary, 2);
    reveal_with_fuel(vstd::utf8::valid_utf8, 2);
}

impl<'a> Clone for Comments<'a> {
    fn clone(&self) -> (r: Self)
        ensures
            r@ == self@,
    {
        proof {
            use_type_invariant(self);
        }
        Comments {
            comments: self.comments,
            comments_num: self.comments_num,
            comments_read: self.comments_read,
            pos: self.pos,
        }
    }
}

impl<'a> Comments<'a> {
    #[verifier::type_invariant]
    spec fn inv(self) -> bool {
        self.comments_read <= self.comments_num
    }

    /// Returns the next comment as its name and value. A comment that cannot be read (it is not
    /// UTF-8, or has no `=`, or runs past the data) gives `None`, and the comment after it
    /// comes on the next call; `None` with the count reached, or the data at its end, ends the
    /// comments.
    pub fn next(&mut self) -> (r: Option<(&'a str, &'a str)>)
        ensures
            final(self)@ == comments_next(old(self)@).1,
            r is Some <==> comments_next(old(self)@).0 is Some,
            r matches Some((name, value)) ==> comments_next(old(self)@).0 == Some(
                (name.spec_bytes(), value.spec_bytes()),
            ),
    {
        proof {
            use_type_invariant(&*self);
        }
        if self.pos < self.comments.len() && self.comments_read < self.comments_num {
            // get comment length
            if self.comments.len() - self.pos < 4 {
                return None;
            }
            let cmt_start = self.pos + 4;
            let len_field = match self.comments.get_range_res(self.pos, cmt_start) {
                Ok(f) => f,
                Err(_) => return None,
            };
            let cmt_len = read_u32_le(len_field) as usize;

            // bookkeeping
            // this is located here so that on comment parse failure, calling .next() again returns
            // the next comment
            self.pos = cmt_start.saturating_add(cmt_len);
            self.comments_read += 1;

            // parse comment
            let text = match self.comments.get_range_res(cmt_start, self.pos) {
                Ok(t) => t,
                Err(_) => return None,
            };
            let cmt = match str_from_utf8(text) {
                Some(c) => c,
                None => return None,
            };
            let mut k: usize = 0;
            while k < text.len() && text[k] != 0x3d
                invariant
                    k <= text@.len(),
                    first_index_of(text@, 0x3d, 0) == first_index_of(text@, 0x3d, k as nat),
                decreases text@.len() - k,
            {
                k += 1;
            }
            if k == text.len() {
                return None;
            }
            proof {
                assert(first_index_of(text@, 0x3d, k as nat) == k);
                lemma_split_at_equals(text@, k as int);
            }
            let (name, rest) = cmt.split_at(k);
            let (_equals, value) = rest.split_at(1);
            proof {
                assert(value.spec_bytes() =~= text@.subrange(k + 1, text@.len() as int));
            }
            Some((name, value))
        } else {
            None
        }
    }

    /// Bounds on the number of comments left: none may be readable, and at most as many as
    /// the header announces beyond those read.
    pub fn size_hint(&self) -> (r: (usize, Option<usize>))
        ensures
            r == (0usize, Some((self@.comments_num - self@.comments_read) as usize)),
    {
        proof {
            use_type_invariant(self);
        }
        // this has a lower-bound of zero as the next comment might be malformed
        (0, Some((self.comments_num - self.comments_read) as usize))
    }
}

/// The largest comment header accepted.
pub const PACKET_LEN_MAX: usize = 125_829_120;

/// The packet position after which comment data is ignored: a header longer than this keeps
/// only the comment data before it, none where the comment list begins past it.
pub const COMMENTS_IGNORE_LEN: usize = 61_440;

/// Where the comments begin in the comment header `data`: after the magic number, the
/// vendor string's length, the vendor string and the comment count.
pub open spec fn comments_start(data: Seq<u8>) -> int {
    12 + spec_u32_le(data.subrange(8, 12))
}

/// The error, if any, that the comment header in `data` gives.
pub open spec fn comment_header_error(data: Seq<u8>) -> Option<Error> {
    if data.len() > PACKET_LEN_MAX {
        Some(Error::OggOpus(OggOpusError::DenialOfService))
    } else if data.len() < 8 {
        Some(Error::Bounds(BoundsError))
    } else if data.subrange(0, 8) != comment_header_magic() {
        Some(Error::OggOpus(OggOpusError::BadMagic))
    } else if data.len() < 12 || comments_start(data) + 4 > data.len() {
        Some(Error::Bounds(BoundsError))
    } else {
        None
    }
}

/// An Ogg Opus comment header.
#[derive(Debug, PartialEq, Eq, Clone, Hash)]
pub struct CommentHeader {
    comments: Vec<u8>,
    comments_num: u32,
    vendor: String,
}

impl CommentHeader {
    /// The comment data kept for later reading.
    pub closed spec fn spec_comments(&self) -> Seq<u8> {
        self.comments@
    }

    /// The number of comments that the header announces.
    pub closed spec fn spec_comments_num(&self) -> u32 {
        self.comments_num
    }

    /// The vendor string.
    pub closed spec fn spec_vendor(&self) -> Seq<char> {
        self.vendor@
    }

    /// This header is the one that `data` holds: the vendor string after its length at byte 8,
    /// the comment count after it, and the comment data after that, up to
    /// `COMMENTS_IGNORE_LEN` where the header is longer (none where the comment list begins
    /// past it).
    pub open spec fn read_from(&self, data: Seq<u8>) -> bool {
        let start = comments_start(data);
        &&& self.spec_vendor() == utf8_lossy(data.subrange(12, start))
        &&& valid_utf8(data.subrange(12, start)) ==> self.spec_vendor() == decode_utf8(
            data.subrange(12, start),
        )
        &&& self.spec_comments_num() == spec_u32_le(data.subrange(start, start + 4))
        &&& self.spec_comments() == if data.len() <= COMMENTS_IGNORE_LEN {
            data.subrange(start + 4, data.len() as int)
        } else if start + 4 <= COMMENTS_IGNORE_LEN {
            data.subrange(start + 4, COMMENTS_IGNORE_LEN as int)
        } else {
            Seq::empty()
        }
    }

    /// Reads a comment header from `data`; only the vendor string is decoded, the comments
    /// are kept as bytes.
    pub fn new(data: &[u8]) -> (r: Result<Self, Error>)
        ensures
            r is Err <==> comment_header_error(data@) is Some,
            r matches Err(e) ==> comment_header_error(data@) == Some(e),
            r matches Ok(h) ==> h.read_from(data@),
    {
        // Denial-of-Service check
        if data.len() > PACKET_LEN_MAX {
            return Err(Error::OggOpus(OggOpusError::DenialOfService));
        }
        let magic = match data.get_range_res(0, 8) {
            Ok(m) => m,
            Err(e) => return Err(Error::Bounds(e)),
        };
        let expected: [u8; 8] = [0x4f, 0x70, 0x75, 0x73, 0x54, 0x61, 0x67, 0x73];
        proof {
            assert(expected@ =~= comment_header_magic());
        }
        if !bytes_eq(magic, expected.as_slice()) {
            return Err(Error::OggOpus(OggOpusError::BadMagic));
        }
        // only parses the vendor string (for debugging) at initialization
        let vendor_len_field = match data.get_range_res(8, 12) {
            Ok(f) => f,
            Err(e) => return Err(Error::Bounds(e)),
        };
        let vendor_len = read_u32_le(vendor_len_field) as usize;
        if vendor_len > data.len() - 12 {
            return Err(Error::Bounds(BoundsError));
        }
        let comments_start = 12 + vendor_len;
        let vendor = string_from_utf8_lossy(vstd::slice::slice_subrange(data, 12, comments_start));
        let num_field = match data.get_range_res(comments_start, comments_start + 4) {
            Ok(f) => f,
            Err(e) => return Err(Error::Bounds(e)),
        };
        let num_comments = read_u32_le(num_field);

        // we still save the comment data so that we can parse it later if necessary.
        // also, some more DOS checks
        let comments = if data.len() <= COMMENTS_IGNORE_LEN {
            vstd::slice::slice_subrange(data, comments_start + 4, data.len())
        } else if comments_start + 4 <= COMMENTS_IGNORE_LEN {
            vstd::slice::slice_subrange(data, comments_start + 4, COMMENTS_IGNORE_LEN)
        } else {
            // the comment list begins past the ignored length: no comment is kept
            let none = vstd::slice::slice_subrange(data, 0, 0);
            proof {
                assert(none@ =~= Seq::<u8>::empty());
            }
            none
        };

        Ok(CommentHeader {
            comments: vstd::slice::slice_to_vec(comments),
            comments_num: num_comments,
            vendor,
        })
    }

    /// Returns an iterator over the user comments.
    pub fn comments(&self) -> (r: Comments<'_>)
        ensures
            r@ == (CommentsState {
                comments: self.spec_comments(),
                comments_num: self.spec_comments_num(),
                comments_read: 0,
                pos: 0,
            }),
    {
        Comments {
            comments: self.comments.as_slice(),
            comments_num: self.comments_num,
            comments_read: 0,
            pos: 0,
        }
    }

    /// Returns the vendor string.
    pub fn vendor(&self) -> (r: &str)
        ensures
            r@ == self.spec_vendor(),
    {
        self.vendor.as_str()
    }
}

/// The error, if any, that an identification header packet with the given paging flags
/// gives: it must be the first packet of the stream and fill its page alone.
pub open spec fn id_packet_error(
    data: Seq<u8>,
    first_in_stream: bool,
    first_in_page: bool,
    last_in_page: bool,
) -> Option<Error> {
    if first_in_stream && first_in_page && last_in_page {
        id_header_error(data)
    } else {
        Some(Error::OggOpus(OggOpusError::BadPaging))
    }
}

/// The error, if any, that a comment header packet with the given paging flags gives: it
/// must fill its page alone.
pub open spec fn comment_packet_error(
    data: Seq<u8>,
    first_in_page: bool,
    last_in_page: bool,
) -> Option<Error> {
    if first_in_page && last_in_page {
        comment_header_error(data)
    } else {
        Some(Error::OggOpus(OggOpusError::BadPaging))
    }
}

/// A header packet that does not fill its page alone, or an identification header packet that
/// does not open the stream, is refused with `BadPaging`, whatever bytes it holds.
pub proof fn lemma_bad_paging_refused(
    data: Seq<u8>,
    first_in_stream: bool,
    first_in_page: bool,
    last_in_page: bool,
)
    ensures
        !(first_in_stream && first_in_page && last_in_page) ==> id_packet_error(
            data,
            first_in_stream,
            first_in_page,
            last_in_page,
        ) == Some(Error::OggOpus(OggOpusError::BadPaging)),
        !(first_in_page && last_in_page) ==> comment_packet_error(data, first_in_page, last_in_page)
            == Some(Error::OggOpus(OggOpusError::BadPaging)),
{
}

/// A reader for Ogg Opus files and/or streams: the packet reader `R`, positioned after the
/// headers, and the headers it read.
pub struct OggOpusReader<R> {
    reader: R,
    id_header: IdHeader,
    comments: CommentHeader,
}

impl<R> OggOpusReader<R> {
    /// The packet reader.
    pub closed spec fn spec_reader(&self) -> R {
        self.reader
    }

    /// The identification header.
    pub closed spec fn spec_id_header(&self) -> IdHeader {
        self.id_header
    }

    /// The comment header.
    pub closed spec fn spec_comments(&self) -> CommentHeader {
        self.comments
    }

    /// Reads the identification header from the first packet of a stream, whose paging flags
    /// are given.
    pub fn read_id_header(
        data: &[u8],
        first_in_stream: bool,
        first_in_page: bool,
        last_in_page: bool,
    ) -> (r: Result<IdHeader, Error>)
        ensures
            r is Err <==> id_packet_error(data@, first_in_stream, first_in_page, last_in_page) is Some,
            r matches Err(e) ==> id_packet_error(data@, first_in_stream, first_in_page, last_in_page)
                == Some(e),
            r matches Ok(h) ==> h.read_from(data@),
    {
        if first_in_stream && first_in_page && last_in_page {
            IdHeader::new(data)
        } else {
            Err(Error::OggOpus(OggOpusError::BadPaging))
        }
    }

    /// Completes a reader from the identification header already read and the comment header
    /// packet that followed it, whose paging flags are given.
    pub fn with_headers(
        reader: R,
        id_header: IdHeader,
        comments_first_in_page: bool,
        comments_last_in_page: bool,
        comments_packet: &[u8],
    ) -> (r: Result<Self, Error>)
        ensures
            r is Err <==> comment_packet_error(
                comments_packet@,
                comments_first_in_page,
                comments_last_in_page,
            ) is Some,
            r matches Err(e) ==> comment_packet_error(
                comments_packet@,
                comments_first_in_page,
                comments_last_in_page,
            ) == Some(e),
            r matches Ok(o) ==> (o.spec_reader() == reader && o.spec_id_header() == id_header
                && o.spec_comments().read_from(comments_packet@)),
    {
        let comments = if comments_first_in_page && comments_last_in_page {
            match CommentHeader::new(comments_packet) {
                Ok(c) => c,
                Err(e) => return Err(e),
            }
        } else {
            return Err(Error::OggOpus(OggOpusError::BadPaging));
        };

        Ok(OggOpusReader { reader, id_header, comments })
    }

    /// Returns an iterator over user comments contained in the Vorbis comments block.
    pub fn comments(&self) -> (r: Comments<'_>)
        ensures
            r@ == (CommentsState {
                comments: self.spec_comments().spec_comments(),
                comments_num: self.spec_comments().spec_comments_num(),
                comments_read: 0,
                pos: 0,
            }),
    {
        self.comments.comments()
    }

    /// Returns the number of samples (at 48 kHz) to discard when beginning playback.
    pub fn pre_skip(&self) -> (r: u16)
        ensures
            r == self.spec_id_header().spec_pre_skip(),
    {
        self.id_header.pre_skip()
    }

    /// Returns the sample rate of the media this file was encoded from, in Hz, `None` where it
    /// is unknown.
    ///
    /// Note that this is not necessarily the sample rate it will be played back at.
    pub fn sample_rate(&self) -> (r: Option<u32>)
        ensures
            r == (if self.spec_id_header().spec_sample_rate() == 0 {
                None
            } else {
                Some(self.spec_id_header().spec_sample_rate())
            }),
    {
        self.id_header.sample_rate()
    }

    /// Returns 20&thinsp;log<sub>10</sub> of the factor by which to scale the decoder output to
    /// receive the desired playback volume.
    pub fn output_gain(&self) -> (r: i16)
        ensures
            r == self.spec_id_header().spec_output_gain(),
    {
        self.id_header.output_gain()
    }

    /// Returns the encoder vendor string from the Vorbis comment block.
    pub fn vendor(&self) -> (r: &str)
        ensures
            r@ == self.spec_comments().spec_vendor(),
    {
        self.comments.vendor()
    }

    /// Returns the encapsulation specification version as (major, minor).
    pub fn version(&self) -> (r: (u8, u8))
        ensures
            r == (self.spec_id_header().spec_version() / 16, self.spec_id_header().spec_version() % 16),
    {
        self.id_header.version()
    }

    /// Returns the output channel configuration.
    pub fn channels(&self) -> (r: &ChannelMapping)
        ensures
            *r == self.spec_id_header().spec_channels(),
    {
        self.id_header.channels()
    }

    /// Returns the wrapped reader, consuming the `OggOpusReader`.
    pub fn into_inner(self) -> (r: R)
        ensures
            r == self.spec_reader(),
    {
        self.reader
    }
}

/// Two header packets that each fill their page alone, the first opening the stream, and that
/// each read without error are accepted; the reader completed from them reports the pre-skip,
/// the sample rate and the output gain at bytes 10, 12 and 16 of the identification header,
/// and the vendor string that follows its length at byte 8 of the comment header.
pub proof fn lemma_reader_reports_headers<R>(
    reader: OggOpusReader<R>,
    id_packet: Seq<u8>,
    comments_packet: Seq<u8>,
)
    requires
        id_header_error(id_packet) is None,
        comment_header_error(comments_packet) is None,
        reader.spec_id_header().read_from(id_packet),
        reader.spec_comments().read_from(comments_packet),
    ensures
        id_packet_error(id_packet, true, true, true) is None,
        comment_packet_error(comments_packet, true, true) is None,
        reader.spec_id_header().spec_pre_skip() == spec_u16_le(id_packet.subrange(10, 12)),
        reader.spec_id_header().spec_sample_rate() == spec_u32_le(id_packet.subrange(12, 16)),
        reader.spec_id_header().spec_output_gain() == spec_i16_le(id_packet.subrange(16, 18)),
        reader.spec_comments().spec_vendor() == utf8_lossy(
            comments_packet.subrange(12, comments_start(comments_packet)),
        ),
{
}

} // verus!
