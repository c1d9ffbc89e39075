//! H.264 framing: AVCC length-prefixed NAL units and Annex-B start-code streams.
use vstd::prelude::*;

verus! {

/// Length of an Annex-B start code.
pub const N_START_CODE_LENGTH: usize = 4;

/// Length of the big-endian size header in front of each AVCC NAL unit.
pub const AVCC_HEADER_LENGTH: usize = 4;

/// The Annex-B start code `00 00 00 01`.
pub open spec fn start_code() -> Seq<u8> {
    seq![0u8, 0u8, 0u8, 1u8]
}

/// The big-endian 32-bit integer stored at `data[at..at + 4]`.
pub open spec fn be_u32_at(data: Seq<u8>, at: int) -> int {
    data[at] * 0x100_0000 + data[at + 1] * 0x1_0000 + data[at + 2] * 0x100 + data[at + 3]
}

/// The walk over AVCC units from `offset` meets no empty unit and no unit that runs
/// past the end of the buffer; a unit header is read while `offset < len - 4`.
pub open spec fn avcc_walk_ok(data: Seq<u8>, offset: int) -> bool
    decreases data.len() - offset,
{
    if 0 <= offset && offset < data.len() - 4 {
        let n = be_u32_at(data, offset);
        &&& n > 0
        &&& offset + 4 + n <= data.len()
        &&& avcc_walk_ok(data, offset + 4 + n)
    } else {
        true
    }
}

/// The Annex-B stream made of the AVCC units found from `offset` on: each unit's
/// payload behind a start code, in order.
pub open spec fn avcc_units_as_annex_b(data: Seq<u8>, offset: int) -> Seq<u8>
    decreases data.len() - offset,
{
    if 0 <= offset && offset < data.len() - 4 {
        let n = be_u32_at(data, offset);
        if n > 0 && offset + 4 + n <= data.len() {
            start_code() + data.subrange(offset + 4, offset + 4 + n)
                + avcc_units_as_annex_b(data, offset + 4 + n)
        } else {
            Seq::empty()
        }
    } else {
        Seq::empty()
    }
}

/// What `avcc_to_annex_b` produces: nothing without a data buffer; otherwise the
/// format bytes (for key frames only) followed by every unit behind a start code.
pub open spec fn spec_avcc_to_annex_b(data: Option<Seq<u8>>, is_key_frame: bool, format_bytes: Seq<u8>) -> Seq<u8> {
    match data {
        None => Seq::empty(),
        Some(d) => (if is_key_frame { format_bytes } else { Seq::empty() })
            + avcc_units_as_annex_b(d, 0),
    }
}

/// An AVCC block buffer that can be walked to its end.
pub open spec fn avcc_block_ok(data: Seq<u8>) -> bool {
    data.len() >= 4 && avcc_walk_ok(data, 0)
}

fn push_range(out: &mut Vec<u8>, src: &[u8], from: usize, to: usize)
    requires
        from <= to <= src@.len(),
    ensures
        final(out)@ == old(out)@ + src@.subrange(from as int, to as int),
{
    let mut i = from;
    while i < to
        invariant
            from <= i <= to <= src@.len(),
            out@ == old(out)@ + src@.subrange(from as int, i as int),
        decreases to - i,
    {
        out.push(src[i]);
        assert(src@.subrange(from as int, i + 1) == src@.subrange(from as int, i as int).push(src@[i as int]));
        i = i + 1;
    }
}

fn push_start_code(out: &mut Vec<u8>)
    ensures
        final(out)@ == old(out)@ + start_code(),
{
    out.push(0u8);
    out.push(0u8);
    out.push(0u8);
    out.push(1u8);
}

/// Reads the big-endian 32-bit length at `data[at..at + 4]`.
fn read_be_u32(data: &[u8], at: usize) -> (n: u32)
    requires
        at + 4 <= data@.len(),
    ensures
        n == be_u32_at(data@, at as int),
{
    let b0 = data[at] as u32;
    let b1 = data[at + 1] as u32;
    let b2 = data[at + 2] as u32;
    let b3 = data[at + 3] as u32;
    b0 * 0x100_0000 + b1 * 0x1_0000 + b2 * 0x100 + b3
}

/// Whether an AVCC buffer can be walked to its end (the test a caller makes
/// before converting it: a unit running past the end would fail the conversion).
pub fn is_avcc_block_ok(data: &[u8]) -> (b: bool)
    ensures
        b == avcc_block_ok(data@),
{
    let len = data.len();
    if len < 4 {
        return false;
    }
    let mut offset: usize = 0;
    while offset < len - AVCC_HEADER_LENGTH
        invariant
            len == data@.len(),
            len >= 4,
            offset <= len,
            avcc_walk_ok(data@, 0) == avcc_walk_ok(data@, offset as int),
        decreases len - offset,
    {
        let n = read_be_u32(data, offset);
        if n == 0 || n as usize > len - offset - 4 {
            return false;
        }
        offset = offset + 4 + n as usize;
    }
    true
}

/// Converts an AVCC frame (length-prefixed NAL units) to an elementary Annex-B
/// stream: key frames start with `format_bytes`, and each unit's length header is
/// replaced by a start code.  Without a data buffer the result is empty.
pub fn avcc_to_annex_b(data: Option<&[u8]>, is_key_frame: bool, format_bytes: &[u8]) -> (out: Vec<u8>)
    requires
        data matches Some(d) ==> avcc_block_ok(d@),
    ensures
        out@ == spec_avcc_to_annex_b(
            match data { Some(d) => Some(d@), None => None },
            is_key_frame,
            format_bytes@,
        ),
{
    let mut out: Vec<u8> = Vec::new();
    let buffer_data = match data {
        Some(d) => d,
        None => return out,
    };
    if is_key_frame {
        push_range(&mut out, format_bytes, 0, format_bytes.len());
        assert(format_bytes@.subrange(0, format_bytes@.len() as int) == format_bytes@);
    }
    let ghost prefix = out@;
    assert(prefix == (if is_key_frame { format_bytes@ } else { Seq::<u8>::empty() }));
    let block_buffer_length = buffer_data.len();
    let mut buffer_offset: usize = 0;
    while buffer_offset < block_buffer_length - AVCC_HEADER_LENGTH
        invariant
            block_buffer_length == buffer_data@.len(),
            block_buffer_length >= 4,
            buffer_offset <= block_buffer_length,
            avcc_walk_ok(buffer_data@, buffer_offset as int),
            prefix + avcc_units_as_annex_b(buffer_data@, 0) == out@ + avcc_units_as_annex_b(
                buffer_data@,
                buffer_offset as int,
            ),
        decreases block_buffer_length - buffer_offset,
    {
        let nal_unit_length = read_be_u32(buffer_data, buffer_offset);
        let start = buffer_offset + AVCC_HEADER_LENGTH;
        let end = start + nal_unit_length as usize;
        let ghost before = out@;
        push_start_code(&mut out);
        push_range(&mut out, buffer_data, start, end);
        assert(out@ == before + (start_code() + buffer_data@.subrange(start as int, end as int)));
        buffer_offset = end;
    }
    assert(avcc_units_as_annex_b(buffer_data@, buffer_offset as int) == Seq::<u8>::empty());
    out
}

/// The Annex-B header of a format description: each parameter set behind a start code.
pub open spec fn spec_param_sets_annex_b(params: Seq<Seq<u8>>) -> Seq<u8>
    decreases params.len(),
{
    if params.len() == 0 {
        Seq::empty()
    } else {
        spec_param_sets_annex_b(params.drop_last()) + start_code() + params.last()
    }
}

/// Writes each H.264 parameter set (SPS, PPS) behind a start code, in order; this is
/// the header that precedes every key frame.
pub fn param_sets_to_annex_b(params: &Vec<Vec<u8>>) -> (out: Vec<u8>)
    ensures
        out@ == spec_param_sets_annex_b(params@.map_values(|p: Vec<u8>| p@)),
{
    let mut out: Vec<u8> = Vec::new();
    let ghost views = params@.map_values(|p: Vec<u8>| p@);
    let mut i: usize = 0;
    while i < params.len()
        invariant
            i <= params@.len(),
            views == params@.map_values(|p: Vec<u8>| p@),
            out@ == spec_param_sets_annex_b(views.take(i as int)),
        decreases params@.len() - i,
    {
        push_start_code(&mut out);
        let p = &params[i];
        push_range(&mut out, p.as_slice(), 0, p.len());
        assert(p@.subrange(0, p@.len() as int) == p@);
        assert(views.take(i + 1).drop_last() == views.take(i as int));
        i = i + 1;
    }
    assert(views.take(params@.len() as int) == views);
    out
}

} // verus!

verus! {

/// Result of probing `frame[i..]` for a start code, reading bytes left to right and
/// stopping at the first mismatch: `None` when a byte that must be read is missing.
pub open spec fn spec_probe_start_code(frame: Seq<u8>, i: int) -> Option<bool> {
    if i < 0 || i >= frame.len() {
        None
    } else if frame[i] != 0 {
        Some(false)
    } else if i + 1 >= frame.len() {
        None
    } else if frame[i + 1] != 0 {
        Some(false)
    } else if i + 2 >= frame.len() {
        None
    } else if frame[i + 2] != 0 {
        Some(false)
    } else if i + 3 >= frame.len() {
        None
    } else {
        Some(frame[i + 3] == 1)
    }
}

/// Scans positions `i..end` for the first start code.  `None`: a probe ran off the
/// frame; `Some(None)`: no start code in the window; `Some(Some(k))`: first one at `k`.
pub open spec fn spec_scan_start_code(frame: Seq<u8>, i: int, end: int) -> Option<Option<int>>
    decreases end - i,
{
    if i >= end {
        Some(None)
    } else {
        match spec_probe_start_code(frame, i) {
            None => None,
            Some(true) => Some(Some(i)),
            Some(false) => spec_scan_start_code(frame, i + 1, end),
        }
    }
}

/// NAL unit type of the unit whose start code begins at `at`.
pub open spec fn nalu_type_at(frame: Seq<u8>, at: int) -> u8 {
    (frame[at + 4] & 0x1Fu8) as u8
}

/// The four big-endian bytes of `n` (`0 <= n < 2^32`).
pub open spec fn be_bytes(n: int) -> Seq<u8> {
    seq![(n / 0x100_0000) as u8, ((n / 0x1_0000) % 0x100) as u8, ((n / 0x100) % 0x100) as u8, (n % 0x100) as u8]
}

/// The SPS and PPS parameter sets found in a key frame.
pub struct ParamSets {
    pub sps: Vec<u8>,
    pub pps: Vec<u8>,
}

/// A frame ready for the hardware decoder: AVCC data with a length header, and the
/// parameter sets when the frame carried new ones.
pub struct AvccFrame {
    pub param_sets: Option<ParamSets>,
    pub block: Vec<u8>,
}

/// What to do with an incoming Annex-B frame.
pub enum DecodePlan {
    /// Not a key frame and no format description yet: the frame is dropped.
    Skip,
    Decode(AvccFrame),
}

/// Sizes remembered between frames: the SPS unit size (start code included) and the
/// PPS unit size, as last seen in a key frame.
pub struct AnnexBState {
    pub sps_size: usize,
    pub pps_size: usize,
}

/// The intermediate values of the decode walk over one frame, in the order the
/// walk computes them.
pub struct DecodeWalk {
    pub sps_size: int,
    pub pps_size: int,
    pub params: Option<(Seq<u8>, Seq<u8>)>,
    pub last_nalu: u8,
}

/// Walks the SPS and PPS units of a frame: `None` when a read runs off the frame or
/// a size would go negative (the frame cannot be decoded without failing).
pub open spec fn spec_decode_walk(frame: Seq<u8>, sps_size: int, pps_size: int) -> Option<DecodeWalk> {
    let n0 = nalu_type_at(frame, 0);
    // SPS: the next start code between bytes 4 and 40 ends it.
    let step1: Option<(int, int)> = if n0 == 7 {
        match spec_scan_start_code(frame, 4, 40) {
            None => None,
            Some(found) => {
                let second = match found { Some(k) => k, None => 0 };
                let sps = match found { Some(k) => k, None => sps_size };
                Some((second, sps))
            },
        }
    } else {
        Some((-1, sps_size))
    };
    match step1 {
        None => None,
        Some((second, sps)) => {
            if second >= 0 && second + 4 >= frame.len() {
                None
            } else {
                let n1 = if second >= 0 { nalu_type_at(frame, second) } else { n0 };
                if n1 == 8 {
                    match spec_scan_start_code(frame, sps + 4, sps + 30) {
                        None => None,
                        Some(found) => {
                            let third = match found { Some(k) => k, None => 0 };
                            let pps = match found { Some(k) => k - sps, None => pps_size };
                            if sps < 4 || pps < 4 || sps > frame.len() || sps + pps > frame.len()
                                || third + 4 >= frame.len() {
                                None
                            } else {
                                Some(DecodeWalk {
                                    sps_size: sps,
                                    pps_size: pps,
                                    params: Some((frame.subrange(4, sps), frame.subrange(sps + 4, sps + pps))),
                                    last_nalu: nalu_type_at(frame, third),
                                })
                            }
                        },
                    }
                } else {
                    Some(DecodeWalk { sps_size: sps, pps_size: pps_size, params: None, last_nalu: n1 })
                }
            }
        },
    }
}

/// A frame the decode step accepts without failing: it has a first NAL unit, fits
/// the 32-bit length header, and its walk ends on an IDR (5) or non-IDR (1) slice
/// whose data (with its 4-byte header) lies inside the frame.
pub open spec fn decodable(frame: Seq<u8>, has_format: bool, sps_size: int, pps_size: int) -> bool {
    &&& frame.len() >= 5
    &&& frame.len() <= 0x7fff_ffff
    &&& (nalu_type_at(frame, 0) != 7 && !has_format) || match spec_decode_walk(frame, sps_size, pps_size) {
        None => false,
        Some(w) => {
            ||| (w.last_nalu == 5 && w.sps_size + w.pps_size + 4 <= frame.len())
            ||| (w.last_nalu == 1)
        },
    }
}

/// The AVCC block for a frame whose walk was `w`: the slice data with its first four
/// bytes replaced by the big-endian length of what follows them.
pub open spec fn spec_avcc_block(frame: Seq<u8>, w: DecodeWalk) -> Seq<u8> {
    let offset = if w.last_nalu == 5 { w.sps_size + w.pps_size } else { 0 };
    be_bytes(frame.len() - offset - 4) + frame.subrange(offset + 4, frame.len() as int)
}

fn probe_start_code(frame: &[u8], i: usize) -> (b: bool)
    requires
        spec_probe_start_code(frame@, i as int) is Some,
    ensures
        b == spec_probe_start_code(frame@, i as int)->0,
{
    frame[i] == 0x00 && frame[i + 1] == 0x00 && frame[i + 2] == 0x00 && frame[i + 3] == 0x01
}

fn scan_start_code(frame: &[u8], from: usize, end: usize) -> (found: Option<usize>)
    requires
        spec_scan_start_code(frame@, from as int, end as int) is Some,
    ensures
        spec_scan_start_code(frame@, from as int, end as int) == Some(
            match found { Some(k) => Some(k as int), None => None::<int> },
        ),
{
    let mut i = from;
    while i < end
        invariant
            from <= i,
            spec_scan_start_code(frame@, from as int, end as int) == spec_scan_start_code(
                frame@,
                i as int,
                end as int,
            ),
            spec_scan_start_code(frame@, i as int, end as int) is Some,
        decreases end - i,
    {
        if probe_start_code(frame, i) {
            return Some(i);
        }
        i = i + 1;
    }
    None
}

fn copy_range(src: &[u8], from: usize, to: usize) -> (out: Vec<u8>)
    requires
        from <= to <= src@.len(),
    ensures
        out@ == src@.subrange(from as int, to as int),
{
    let mut out: Vec<u8> = Vec::new();
    push_range(&mut out, src, from, to);
    out
}

fn avcc_block(frame: &[u8], offset: usize) -> (block: Vec<u8>)
    requires
        offset + 4 <= frame@.len() <= 0x7fff_ffff,
    ensures
        block@ == be_bytes(frame@.len() - offset - 4) + frame@.subrange(offset + 4, frame@.len() as int),
{
    let n: u32 = (frame.len() - offset - 4) as u32;
    let mut block: Vec<u8> = Vec::new();
    block.push((n / 0x100_0000) as u8);
    block.push(((n / 0x1_0000) % 0x100) as u8);
    block.push(((n / 0x100) % 0x100) as u8);
    block.push((n % 0x100) as u8);
    push_range(&mut block, frame, offset + 4, frame.len());
    block
}

fn try_probe_start_code(frame: &[u8], i: usize) -> (r: Option<bool>)
    ensures
        r == spec_probe_start_code(frame@, i as int),
{
    let n = frame.len();
    if i >= n {
        return None;
    }
    if frame[i] != 0 {
        return Some(false);
    }
    if i + 1 >= n {
        return None;
    }
    if frame[i + 1] != 0 {
        return Some(false);
    }
    if i + 2 >= n {
        return None;
    }
    if frame[i + 2] != 0 {
        return Some(false);
    }
    if i + 3 >= n {
        return None;
    }
    Some(frame[i + 3] == 1)
}

fn try_scan_start_code(frame: &[u8], from: usize, end: usize) -> (r: Option<Option<usize>>)
    ensures
        match r {
            None => spec_scan_start_code(frame@, from as int, end as int) is None,
            Some(found) => spec_scan_start_code(frame@, from as int, end as int) == Some(
                match found { Some(k) => Some(k as int), None => None::<int> },
            ),
        },
        r matches Some(Some(k)) ==> from <= k < end,
{
    let mut i = from;
    while i < end
        invariant
            from <= i,
            spec_scan_start_code(frame@, from as int, end as int) == spec_scan_start_code(
                frame@,
                i as int,
                end as int,
            ),
        decreases end - i,
    {
        match try_probe_start_code(frame, i) {
            None => return None,
            Some(true) => return Some(Some(i)),
            Some(false) => {},
        }
        i = i + 1;
    }
    Some(None)
}

/// Whether `annex_b_to_avcc` accepts `frame` with the remembered sizes
/// `sps_size` and `pps_size`: the test a caller makes before handing a frame
/// over (a frame that fails it would have made the decoder fail).
pub fn is_decodable(frame: &[u8], has_format: bool, sps_size: usize, pps_size: usize) -> (b: bool)
    ensures
        b == decodable(frame@, has_format, sps_size as int, pps_size as int),
{
    let ghost f = frame@;
    let len = frame.len();
    if len < 5 || len > 0x7fff_ffff {
        return false;
    }
    let n0 = frame[4] & 0x1F;
    if n0 != 7 && !has_format {
        return true;
    }
    let ghost walk = spec_decode_walk(f, sps_size as int, pps_size as int);
    // The SPS unit, ended by the next start code.
    let mut second: Option<usize> = None;
    let mut sps: usize = sps_size;
    if n0 == 7 {
        match try_scan_start_code(frame, 4, 40) {
            None => {
                assert(walk is None);
                return false;
            },
            Some(found) => {
                match found {
                    Some(k) => {
                        second = Some(k);
                        sps = k;
                    },
                    None => {
                        second = Some(0);
                    },
                }
            },
        }
    }
    let n1 = match second {
        Some(k) => {
            if k + 4 >= len {
                assert(walk is None);
                return false;
            }
            frame[k + 4] & 0x1F
        },
        None => n0,
    };
    if n1 != 8 {
        assert(walk == Some(DecodeWalk { sps_size: sps as int, pps_size: pps_size as int, params: None, last_nalu: n1 }));
        if n1 == 1 {
            return true;
        }
        return n1 == 5 && (sps as u128) + (pps_size as u128) + 4 <= len as u128;
    }
    // The PPS unit, ended by the start code of the slice.
    if sps >= len - 4 {
        assert(spec_probe_start_code(f, sps + 4) is None);
        assert(walk is None);
        return false;
    }
    let mut third: usize = 0;
    let mut pps: usize = pps_size;
    match try_scan_start_code(frame, sps + 4, sps + 30) {
        None => {
            assert(walk is None);
            return false;
        },
        Some(found) => {
            if let Some(k) = found {
                third = k;
                pps = k - sps;
            }
        },
    }
    if sps < 4 || pps < 4 || sps > len || (sps as u128) + (pps as u128) > len as u128 || (third as u128) + 4 >= len as u128 {
        assert(walk is None);
        return false;
    }
    let last = frame[third + 4] & 0x1F;
    assert(walk == Some(DecodeWalk {
        sps_size: sps as int,
        pps_size: pps as int,
        params: Some((f.subrange(4, sps as int), f.subrange(sps + 4, sps + pps))),
        last_nalu: last,
    }));
    if last == 1 {
        return true;
    }
    last == 5 && sps + pps + 4 <= len
}

impl AnnexBState {
    pub fn new() -> (s: Self)
        ensures
            s.sps_size == 0,
            s.pps_size == 0,
    {
        AnnexBState { sps_size: 0, pps_size: 0 }
    }

    /// Turns an Annex-B frame into an AVCC block for the decoder.  A key frame
    /// (first unit SPS, type 7) is split at the next start codes into SPS and PPS
    /// (type 8), whose sizes are remembered for later IDR frames; the slice that
    /// follows (type 5, or 1 for a non-IDR frame) becomes the block, its start code
    /// replaced by its big-endian length.  Without a format description, only a
    /// frame that starts with an SPS is accepted.
    pub fn annex_b_to_avcc(&mut self, frame: &[u8], has_format: bool) -> (plan: DecodePlan)
        requires
            decodable(frame@, has_format, old(self).sps_size as int, old(self).pps_size as int),
        ensures
            ({
                let f = frame@;
                let skip = nalu_type_at(f, 0) != 7 && !has_format;
                if skip {
                    &&& plan is Skip
                    &&& final(self).sps_size == old(self).sps_size
                    &&& final(self).pps_size == old(self).pps_size
                } else {
                    let w = spec_decode_walk(f, old(self).sps_size as int, old(self).pps_size as int)->0;
                    &&& plan matches DecodePlan::Decode(fr)
                    &&& final(self).sps_size == w.sps_size
                    &&& final(self).pps_size == w.pps_size
                    &&& fr.block@ == spec_avcc_block(f, w)
                    &&& match fr.param_sets {
                        Some(p) => w.params == Some((p.sps@, p.pps@)),
                        None => w.params is None,
                    }
                }
            }),
    {
        let ghost f = frame@;
        let mut nalu_type = frame[4] & 0x1F;
        if nalu_type != 7 && !has_format {
            return DecodePlan::Skip;
        }
        let ghost w = spec_decode_walk(f, self.sps_size as int, self.pps_size as int)->0;
        let mut second_start_code_index: usize = 0;
        let mut third_start_code_index: usize = 0;
        if nalu_type == 7 {
            if let Some(i) = scan_start_code(frame, 4, 40) {
                second_start_code_index = i;
                self.sps_size = i;
            }
            nalu_type = frame[second_start_code_index + 4] & 0x1F;
        }
        assert(self.sps_size == w.sps_size);
        let mut param_sets: Option<ParamSets> = None;
        if nalu_type == 8 {
            let sps_size = self.sps_size;
            if let Some(i) = scan_start_code(frame, sps_size + 4, sps_size + 30) {
                third_start_code_index = i;
                self.pps_size = i - sps_size;
            }
            let pps_size = self.pps_size;
            let sps = copy_range(frame, 4, sps_size);
            let pps = copy_range(frame, sps_size + 4, sps_size + pps_size);
            param_sets = Some(ParamSets { sps, pps });
            nalu_type = frame[third_start_code_index + 4] & 0x1F;
        }
        assert(self.pps_size == w.pps_size);
        assert(nalu_type == w.last_nalu);
        let block = if nalu_type == 5 {
            avcc_block(frame, self.sps_size + self.pps_size)
        } else {
            avcc_block(frame, 0)
        };
        DecodePlan::Decode(AvccFrame { param_sets, block })
    }
}

/// The four big-endian bytes of a 32-bit length read back as that length.
pub proof fn lemma_be_bytes_read_back(n: int, rest: Seq<u8>)
    requires
        0 <= n < 0x1_0000_0000,
    ensures
        be_u32_at(be_bytes(n) + rest, 0) == n,
{
    let b0 = n / 0x100_0000;
    let b1 = (n / 0x1_0000) % 0x100;
    let b2 = (n / 0x100) % 0x100;
    let b3 = n % 0x100;
    assert(0 <= b0 < 0x100) by (nonlinear_arith)
        requires 0 <= n < 0x1_0000_0000, b0 == n / 0x100_0000;
    assert(b0 * 0x100_0000 + b1 * 0x1_0000 + b2 * 0x100 + b3 == n) by (nonlinear_arith)
        requires
            0 <= n,
            b0 == n / 0x100_0000,
            b1 == (n / 0x1_0000) % 0x100,
            b2 == (n / 0x100) % 0x100,
            b3 == n % 0x100,
    ;
    let s = be_bytes(n) + rest;
    assert(s[0] == b0 && s[1] == b1 && s[2] == b2 && s[3] == b3);
}

/// The walk over a frame whose first unit is neither an SPS nor a PPS reads no
/// parameter sets and keeps the remembered sizes.
proof fn lemma_walk_without_param_sets(frame: Seq<u8>, sps_size: int, pps_size: int)
    requires
        frame.len() >= 5,
        nalu_type_at(frame, 0) != 7u8,
        nalu_type_at(frame, 0) != 8u8,
    ensures
        spec_decode_walk(frame, sps_size, pps_size) == Some(DecodeWalk {
            sps_size,
            pps_size,
            params: None,
            last_nalu: nalu_type_at(frame, 0),
        }),
{
}

/// The AVCC frame of one unit, read as Annex-B, is that unit behind a start code.
proof fn lemma_single_unit_annex_b(slice: Seq<u8>)
    requires
        1 <= slice.len() < 0x1_0000_0000,
    ensures
        avcc_block_ok(be_bytes(slice.len() as int) + slice),
        spec_avcc_to_annex_b(Some(be_bytes(slice.len() as int) + slice), false, Seq::empty())
            =~= start_code() + slice,
{
    let n = slice.len() as int;
    let avcc = be_bytes(n) + slice;
    lemma_be_bytes_read_back(n, slice);
    assert(avcc.len() == n + 4);
    assert(avcc.subrange(4, 4 + n) =~= slice);
    assert(avcc_walk_ok(avcc, 4 + n));
    assert(avcc_walk_ok(avcc, 0));
    assert(avcc_units_as_annex_b(avcc, 4 + n) == Seq::<u8>::empty());
    assert(avcc_units_as_annex_b(avcc, 0) =~= start_code() + slice);
}

/// A delta frame made of one non-IDR slice comes back unchanged from the trip
/// between the encoder and the decoder: written as Annex-B by `avcc_to_annex_b`,
/// it is accepted by `annex_b_to_avcc` (whatever sizes it remembers), and the AVCC
/// block it yields is the encoder's frame.
pub proof fn law_delta_frame_round_trip(slice: Seq<u8>, sps_size: int, pps_size: int)
    requires
        1 <= slice.len(),
        slice.len() + 4 <= 0x7fff_ffff,
        slice[0] & 0x1Fu8 == 1u8,
    ensures
        ({
            let avcc = be_bytes(slice.len() as int) + slice;
            let annex_b = spec_avcc_to_annex_b(Some(avcc), false, Seq::empty());
            &&& avcc_block_ok(avcc)
            &&& decodable(annex_b, true, sps_size, pps_size)
            &&& spec_avcc_block(annex_b, spec_decode_walk(annex_b, sps_size, pps_size)->0) == avcc
        }),
{
    let n = slice.len() as int;
    let avcc = be_bytes(n) + slice;
    lemma_single_unit_annex_b(slice);
    let annex_b = spec_avcc_to_annex_b(Some(avcc), false, Seq::empty());
    assert(annex_b[4] == slice[0]);
    assert(nalu_type_at(annex_b, 0) == 1u8);
    lemma_walk_without_param_sets(annex_b, sps_size, pps_size);
    let w = spec_decode_walk(annex_b, sps_size, pps_size)->0;
    assert(w.last_nalu == 1u8);
    assert(annex_b.subrange(4, annex_b.len() as int) =~= slice);
    assert(spec_avcc_block(annex_b, w) =~= avcc);
}

/// Whether the four bytes at `i` are a start code.
pub open spec fn start_code_at(s: Seq<u8>, i: int) -> bool {
    0 <= i && i + 4 <= s.len() && s.subrange(i, i + 4) == start_code()
}

proof fn lemma_probe_at(frame: Seq<u8>, i: int)
    requires
        0 <= i,
        i + 4 <= frame.len(),
    ensures
        spec_probe_start_code(frame, i) == Some(start_code_at(frame, i)),
{
    if frame[i] == 0 && frame[i + 1] == 0 && frame[i + 2] == 0 && frame[i + 3] == 1 {
        assert(frame.subrange(i, i + 4) =~= start_code());
    } else {
        if start_code_at(frame, i) {
            assert(frame.subrange(i, i + 4)[0] == frame[i]);
            assert(frame.subrange(i, i + 4)[3] == frame[i + 3]);
        }
    }
}

/// Scanning from `i` finds the start code at `k` when none starts in between.
proof fn lemma_scan_finds(frame: Seq<u8>, i: int, k: int, end: int)
    requires
        0 <= i <= k < end,
        k + 4 <= frame.len(),
        forall|j: int| i <= j < k ==> !#[trigger] start_code_at(frame, j),
        start_code_at(frame, k),
    ensures
        spec_scan_start_code(frame, i, end) == Some(Some(k)),
    decreases k - i,
{
    lemma_probe_at(frame, i);
    if i < k {
        lemma_scan_finds(frame, i + 1, k, end);
    }
}

/// The Annex-B stream the encoder sends for a key frame: SPS, PPS and the IDR
/// slice, each behind a start code.
pub open spec fn spec_key_frame_annex_b(sps: Seq<u8>, pps: Seq<u8>, idr: Seq<u8>) -> Seq<u8> {
    spec_avcc_to_annex_b(
        Some(be_bytes(idr.len() as int) + idr),
        true,
        spec_param_sets_annex_b(seq![sps, pps]),
    )
}

/// A key frame comes back from the trip between the encoder and the decoder: the
/// encoder's parameter sets (SPS, PPS) and its IDR slice, written as Annex-B by
/// `param_sets_to_annex_b` and `avcc_to_annex_b`, are accepted by
/// `annex_b_to_avcc` (whatever it remembered, with or without a format), which
/// hands back the same parameter sets and the slice as the encoder's AVCC frame.
/// This holds where the decoder's fixed scan windows reach the next start code (an
/// SPS of at most 35 bytes, a PPS of at most 25) and no start code pattern lies
/// inside the SPS or the PPS.
pub proof fn law_key_frame_round_trip(
    sps: Seq<u8>,
    pps: Seq<u8>,
    idr: Seq<u8>,
    has_format: bool,
    sps_size: int,
    pps_size: int,
)
    requires
        1 <= sps.len() <= 35,
        1 <= pps.len() <= 25,
        1 <= idr.len(),
        12 + sps.len() + pps.len() + idr.len() <= 0x7fff_ffff,
        sps[0] & 0x1Fu8 == 7u8,
        pps[0] & 0x1Fu8 == 8u8,
        idr[0] & 0x1Fu8 == 5u8,
        forall|i: int| 4 <= i < 4 + sps.len() ==> !#[trigger] start_code_at(spec_key_frame_annex_b(sps, pps, idr), i),
        forall|i: int|
            8 + sps.len() <= i < 8 + sps.len() + pps.len() ==> !#[trigger] start_code_at(
                spec_key_frame_annex_b(sps, pps, idr),
                i,
            ),
    ensures
        ({
            let f = spec_key_frame_annex_b(sps, pps, idr);
            let w = spec_decode_walk(f, sps_size, pps_size)->0;
            &&& avcc_block_ok(be_bytes(idr.len() as int) + idr)
            &&& decodable(f, has_format, sps_size, pps_size)
            &&& w.params == Some((sps, pps))
            &&& spec_avcc_block(f, w) == be_bytes(idr.len() as int) + idr
        }),
{
    let f = spec_key_frame_annex_b(sps, pps, idr);
    let a = sps.len() as int;
    let b = pps.len() as int;
    lemma_single_unit_annex_b(idr);
    reveal_with_fuel(spec_param_sets_annex_b, 3);
    assert(seq![sps, pps].drop_last() =~= seq![sps]);
    assert(seq![sps].drop_last() =~= Seq::<Seq<u8>>::empty());
    assert(spec_param_sets_annex_b(seq![sps, pps]) =~= start_code() + sps + start_code() + pps);
    assert(f =~= start_code() + sps + start_code() + pps + start_code() + idr);
    let len = f.len() as int;
    assert(len == 12 + a + b + idr.len());
    // The first unit is the SPS; the next start code ends it.
    assert(f[4] == sps[0]);
    let second = 4 + a;
    assert(f.subrange(second, second + 4) =~= start_code());
    assert(start_code_at(f, second));
    lemma_scan_finds(f, 4, second, 40);
    assert(f[second + 4] == pps[0]);
    // The second unit is the PPS; the start code of the slice ends it.
    let third = second + 4 + b;
    assert(f.subrange(third, third + 4) =~= start_code());
    assert(start_code_at(f, third));
    lemma_scan_finds(f, second + 4, third, second + 30);
    assert(f[third + 4] == idr[0]);
    assert(nalu_type_at(f, 0) == 7u8);
    assert(nalu_type_at(f, second) == 8u8);
    assert(nalu_type_at(f, third) == 5u8);
    let w = spec_decode_walk(f, sps_size, pps_size)->0;
    assert(spec_decode_walk(f, sps_size, pps_size) == Some(DecodeWalk {
        sps_size: second,
        pps_size: 4 + b,
        params: Some((f.subrange(4, second), f.subrange(second + 4, second + 4 + b))),
        last_nalu: 5u8,
    }));
    assert(f.subrange(4, second) =~= sps);
    assert(f.subrange(second + 4, second + 4 + b) =~= pps);
    assert(f.subrange(third + 4, len) =~= idr);
    assert(spec_avcc_block(f, w) =~= be_bytes(idr.len() as int) + idr);
}

} // verus!
