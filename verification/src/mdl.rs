//! Decoder for the model container format.
//!
//! The format stores its real payload out of line, addressed by 4-byte
//! big-endian signed offsets that are relative to the position of the offset
//! field itself, sometimes corrected by a fixed bias and sometimes chained
//! through several hops of indirection. Resolution of such a pointer is
//! tolerant: a negative offset, a target outside the stream, or a failed
//! nested decode degrade the one field to absent, and the cursor always ends
//! up exactly 4 bytes after the offset field. Fixed-width reads, by contrast,
//! fail the whole decode when the stream is too short.

use vstd::prelude::*;

use crate::stream::ByteStream;
use crate::stream::i32_be_at;
use crate::stream::u32_be_at;

verus! {

/// A structural failure: the decode as a whole cannot proceed.
#[derive(Debug, Clone, Copy, PartialEq, Eq, Structural)]
pub enum DecodeError {
    /// The stream ended inside a fixed-width field or record.
    Truncated,
    /// The element-table locator computed an address below zero.
    BadTableAddress,
}

/// The result of resolving one relative pointer: the decoded value, or
/// absent. It is a value, not a handle; it carries no identity of its own.
#[derive(Debug)]
pub struct RelPtr<T>(pub Option<T>);

/// A material name reached through three chained relative pointers.
#[derive(Debug)]
pub struct IndirectMaterial(pub Option<String>);

/// The bytes, or absence, behind an `Option<Vec<u8>>`.
pub open spec fn opt_bytes(o: Option<Vec<u8>>) -> Option<Seq<u8>> {
    match o {
        Some(v) => Some(v@),
        None => None,
    }
}

/// The characters, or absence, behind an `Option<String>`.
pub open spec fn opt_chars(o: Option<String>) -> Option<Seq<char>> {
    match o {
        Some(s) => Some(s@),
        None => None,
    }
}

/// The absolute target encoded by the offset field at position `p`: absent
/// when the offset is negative (the format's null sentinel) or when the
/// target `p + offset + bias` falls outside `[0, len)`.
pub open spec fn rel_target(d: Seq<u8>, p: int, bias: int) -> Option<int> {
    let off = i32_be_at(d, p);
    if off < 0 {
        None
    } else {
        let t = p + off + bias;
        if 0 <= t < d.len() {
            Some(t)
        } else {
            None
        }
    }
}

/// `rel_target`, absent also when the offset field itself does not fit in
/// the stream: the reading of a nested pointer fails as a nested decode.
pub open spec fn rel_target_checked(d: Seq<u8>, p: int, bias: int) -> Option<int> {
    if 0 <= p && p + 4 <= d.len() {
        rel_target(d, p, bias)
    } else {
        None
    }
}

/// `n` bytes at `t`, or absent when the stream is too short.
pub open spec fn bytes_at(d: Seq<u8>, t: int, n: int) -> Option<Seq<u8>> {
    if 0 <= t && 0 <= n && t + n <= d.len() {
        Some(d.subrange(t, t + n))
    } else {
        None
    }
}

/// What a relative pointer over an `n`-byte raw buffer resolves to.
pub open spec fn rel_bytes(d: Seq<u8>, p: int, bias: int, n: int) -> Option<Seq<u8>> {
    match rel_target(d, p, bias) {
        Some(t) => bytes_at(d, t, n),
        None => None,
    }
}

/// Position of the first zero byte at or after `t`, if any.
pub open spec fn first_nul(d: Seq<u8>, t: int) -> Option<int>
    decreases d.len() - t,
{
    if t < 0 || t >= d.len() {
        None
    } else if d[t] == 0 {
        Some(t)
    } else {
        first_nul(d, t + 1)
    }
}

/// The null-terminated byte run starting at `t`: absent when no terminator
/// follows before the end of the stream.
pub open spec fn nullterm_at(d: Seq<u8>, t: int) -> Option<Seq<u8>> {
    match first_nul(d, t) {
        Some(i) => Some(d.subrange(t, i)),
        None => None,
    }
}

/// The text that `String::from_utf8_lossy` derives from a byte sequence.
pub uninterp spec fn utf8_lossy_of(bytes: Seq<u8>) -> Seq<char>;

/// The last two hops of the material chain, from the position `t1` that the
/// first hop resolved to: another pointer, then a pointer to the text.
pub open spec fn hops_from(d: Seq<u8>, t1: int) -> Option<Seq<char>> {
    match rel_target_checked(d, t1, 0) {
        Some(t2) => match rel_target_checked(d, t2, 0) {
            Some(t3) => match nullterm_at(d, t3) {
                Some(b) => Some(utf8_lossy_of(b)),
                None => None,
            },
            None => None,
        },
        None => None,
    }
}

/// The material name encoded by the three-hop chain whose first offset field
/// sits at `p`; the first hop carries the format's fixed `+0x20` correction.
pub open spec fn material_at(d: Seq<u8>, p: int) -> Option<Seq<char>> {
    match rel_target(d, p, 0x20) {
        Some(t1) => hops_from(d, t1),
        None => None,
    }
}

/// Relies on `String::from_utf8_lossy`: the characters are a function of the
/// bytes alone, and bytes that are valid UTF-8 (ASCII in particular) come
/// through unchanged.
#[verifier::external_body]
fn utf8_lossy(bytes: &Vec<u8>) -> (r: String)
    ensures
        r@ == utf8_lossy_of(bytes@),
        (forall|i: int| 0 <= i < bytes@.len() ==> bytes@[i] < 0x80) ==> r@ == bytes@.map_values(
            |b: u8| b as char,
        ),
{
    String::from_utf8_lossy(bytes).into_owned()
}

/// Resolves the 4-byte offset field at the cursor into an absolute target.
/// Whatever the outcome, the cursor ends exactly 4 bytes after where it
/// began; only a stream too short for the field itself is an error.
pub fn resolve_target(s: &mut ByteStream, bias: i64) -> (r: Result<Option<usize>, DecodeError>)
    ensures
        final(s)@ == old(s)@,
        old(s).cursor() + 4 <= old(s)@.len() ==> {
            &&& final(s).cursor() == old(s).cursor() + 4
            &&& r matches Ok(t) && (match t {
                Some(u) => rel_target(old(s)@, old(s).cursor(), bias as int) == Some(u as int),
                None => rel_target(old(s)@, old(s).cursor(), bias as int) is None,
            })
        },
        old(s).cursor() + 4 > old(s)@.len() ==> {
            &&& r matches Err(e) && e == DecodeError::Truncated
            &&& final(s).cursor() == old(s).cursor()
        },
{
    let pos_before = s.tell();
    let off = match s.read_i32_be() {
        Some(v) => v,
        None => {
            return Err(DecodeError::Truncated);
        },
    };
    if off < 0 {
        return Ok(None);
    }
    let target_wide: i128 = pos_before as i128 + off as i128 + bias as i128;
    if target_wide < 0 {
        return Ok(None);
    }
    let len = s.total_length();
    if target_wide >= len as i128 {
        return Ok(None);
    }
    Ok(Some(target_wide as usize))
}

impl RelPtr<Vec<u8>> {
    /// Resolves a relative pointer over a raw buffer of `count` bytes: seeks
    /// to the target, reads, and restores the cursor to just after the
    /// offset field. Any failure past the offset field itself is absence.
    pub fn read_bytes(s: &mut ByteStream, bias: i64, count: u64) -> (r: Result<
        RelPtr<Vec<u8>>,
        DecodeError,
    >)
        ensures
            final(s)@ == old(s)@,
            old(s).cursor() + 4 <= old(s)@.len() ==> {
                &&& final(s).cursor() == old(s).cursor() + 4
                &&& r matches Ok(ptr) && opt_bytes(ptr.0) == rel_bytes(
                    old(s)@,
                    old(s).cursor(),
                    bias as int,
                    count as int,
                )
            },
            old(s).cursor() + 4 > old(s)@.len() ==> {
                &&& r matches Err(e) && e == DecodeError::Truncated
                &&& final(s).cursor() == old(s).cursor()
            },
    {
        let tgt = match resolve_target(s, bias) {
            Ok(t) => t,
            Err(e) => {
                return Err(e);
            },
        };
        let resume = s.tell();
        let got: Option<Vec<u8>> = match tgt {
            Some(t) => {
                let total = s.total_length();
                s.seek(t);
                let b = if count <= total as u64 {
                    s.read_exact(count as usize)
                } else {
                    None
                };
                s.seek(resume);
                b
            },
            None => None,
        };
        Ok(RelPtr(got))
    }
}

proof fn lemma_first_nul_found(d: Seq<u8>, t: int, i: int)
    requires
        0 <= t <= i < d.len(),
        forall|j: int| t <= j < i ==> d[j] != 0,
        d[i] == 0,
    ensures
        first_nul(d, t) == Some(i),
    decreases i - t,
{
    if t < i {
        lemma_first_nul_found(d, t + 1, i);
    }
}

proof fn lemma_first_nul_missing(d: Seq<u8>, t: int)
    requires
        0 <= t,
        forall|j: int| t <= j < d.len() ==> d[j] != 0,
    ensures
        first_nul(d, t) is None,
    decreases d.len() - t,
{
    if t < d.len() {
        lemma_first_nul_missing(d, t + 1);
    }
}

/// Reads bytes at the cursor up to, and not including, the first zero byte;
/// `None` when the stream ends first. The cursor is left where the scan
/// stopped: callers of the pointer protocol restore it themselves.
fn read_nullterm(s: &mut ByteStream) -> (r: Option<Vec<u8>>)
    ensures
        final(s)@ == old(s)@,
        opt_bytes(r) == nullterm_at(old(s)@, old(s).cursor()),
{
    let ghost d = s@;
    let ghost start = s.cursor();
    if s.tell() >= s.total_length() {
        assert(first_nul(d, start) is None);
        return None;
    }
    let mut acc: Vec<u8> = Vec::new();
    loop
        invariant
            s@ == d,
            d == old(s)@,
            start == old(s).cursor(),
            0 <= start <= s.cursor() <= d.len(),
            acc@.len() == s.cursor() - start,
            acc@ == d.subrange(start, s.cursor()),
            forall|j: int| start <= j < s.cursor() ==> d[j] != 0,
        decreases d.len() - s.cursor() + 1,
    {
        match s.read_u8() {
            None => {
                proof {
                    lemma_first_nul_missing(d, start);
                }
                return None;
            },
            Some(b) => {
                if b == 0 {
                    proof {
                        lemma_first_nul_found(d, start, s.cursor() - 1);
                        assert(acc@ == d.subrange(start, s.cursor() - 1));
                    }
                    return Some(acc);
                }
                acc.push(b);
            },
        }
    }
}

impl IndirectMaterial {
    /// Resolves the three-hop material chain whose first offset field sits
    /// at the cursor, leaving the cursor 4 bytes further whatever happened.
    /// A failure at any hop, or a missing terminator, is absence; only a
    /// stream too short for the first offset field is an error.
    pub fn decode(s: &mut ByteStream) -> (r: Result<IndirectMaterial, DecodeError>)
        ensures
            final(s)@ == old(s)@,
            old(s).cursor() + 4 <= old(s)@.len() ==> {
                &&& final(s).cursor() == old(s).cursor() + 4
                &&& r matches Ok(m) && opt_chars(m.0) == material_at(old(s)@, old(s).cursor())
            },
            old(s).cursor() + 4 > old(s)@.len() ==> {
                &&& r matches Err(e) && e == DecodeError::Truncated
                &&& final(s).cursor() == old(s).cursor()
            },
    {
        let t1 = match resolve_target(s, 0x20) {
            Ok(t) => t,
            Err(e) => {
                return Err(e);
            },
        };
        let resume = s.tell();
        let name: Option<String> = match t1 {
            Some(t1) => Self::read_hops(s, t1),
            None => None,
        };
        s.seek(resume);
        Ok(IndirectMaterial(name))
    }

    /// The second and third hop, and the text read: every failure in here is
    /// a nested decode failure, collapsed to absence.
    fn read_hops(s: &mut ByteStream, t1: usize) -> (r: Option<String>)
        ensures
            final(s)@ == old(s)@,
            opt_chars(r) == hops_from(old(s)@, t1 as int),
    {
        s.seek(t1);
        let t2 = match resolve_target(s, 0) {
            Ok(Some(t)) => t,
            Ok(None) => {
                return None;
            },
            Err(_) => {
                return None;
            },
        };
        s.seek(t2);
        let t3 = match resolve_target(s, 0) {
            Ok(Some(t)) => t,
            Ok(None) => {
                return None;
            },
            Err(_) => {
                return None;
            },
        };
        s.seek(t3);
        let bytes = match read_nullterm(s) {
            Some(b) => b,
            None => {
                return None;
            },
        };
        Some(utf8_lossy(&bytes))
    }
}

/// One mesh-element record: a 76-byte fixed layout whose index buffer,
/// vertex buffer and material name live out of line behind relative
/// pointers.
#[derive(Debug)]
pub struct Element {
    pub num_faces: i32,
    /// Raw snapshot of the encoded index-buffer offset, kept for export.
    pub f_offset: i32,
    pub indices: RelPtr<Vec<u8>>,
    pub num_vct: i32,
    pub vertex_stride: i32,
    /// Raw snapshot of the encoded vertex-buffer offset, kept for export.
    pub v_offset: i32,
    pub vertices: RelPtr<Vec<u8>>,
    pub flags: u32,
    pub stream_ofs: u32,
    /// Raw snapshot of the first material-chain offset, kept for export.
    pub m_offset1: u32,
    pub material_name: IndirectMaterial,
    pub vertex_ofs: u32,
    /// Reserved trailing region of the record, kept verbatim.
    pub extra: Vec<u8>,
}

/// What the index buffer of the element record at `p` resolves to: absent
/// outright, without any resolution, when the face count is not positive.
pub open spec fn indices_spec(d: Seq<u8>, p: int) -> Option<Seq<u8>> {
    let nf = i32_be_at(d, p);
    if nf > 0 {
        rel_bytes(d, p + 4, 0, 2 * nf)
    } else {
        None
    }
}

/// What the vertex buffer of the element record at `p` resolves to: absent
/// outright when the vertex count or the stride is not positive.
pub open spec fn vertices_spec(d: Seq<u8>, p: int) -> Option<Seq<u8>> {
    let nv = i32_be_at(d, p + 8);
    let st = i32_be_at(d, p + 12);
    if nv > 0 && st > 0 {
        rel_bytes(d, p + 16, 0, nv * st)
    } else {
        None
    }
}

/// The element decoded from the 76-byte record at `p`, field by field.
pub open spec fn element_wf(e: Element, d: Seq<u8>, p: int) -> bool {
    &&& e.num_faces == i32_be_at(d, p)
    &&& e.f_offset == i32_be_at(d, p + 4)
    &&& opt_bytes(e.indices.0) == indices_spec(d, p)
    &&& e.num_vct == i32_be_at(d, p + 8)
    &&& e.vertex_stride == i32_be_at(d, p + 12)
    &&& e.v_offset == i32_be_at(d, p + 16)
    &&& opt_bytes(e.vertices.0) == vertices_spec(d, p)
    &&& e.flags == u32_be_at(d, p + 20)
    &&& e.stream_ofs == u32_be_at(d, p + 24)
    &&& e.m_offset1 == u32_be_at(d, p + 28)
    &&& opt_chars(e.material_name.0) == material_at(d, p + 28)
    &&& e.vertex_ofs == u32_be_at(d, p + 32)
    &&& e.extra@ == d.subrange(p + 36, p + 76)
}

impl Element {
    /// Decodes one element record at the cursor and leaves the cursor at the
    /// start of the next record. Pointer-chased payloads degrade to absent
    /// on their own; a stream too short for any fixed-width field of the
    /// record is a structural failure.
    pub fn decode(s: &mut ByteStream) -> (r: Result<Element, DecodeError>)
        ensures
            final(s)@ == old(s)@,
            old(s).cursor() + 76 <= old(s)@.len() ==> {
                &&& r matches Ok(e) && element_wf(e, old(s)@, old(s).cursor())
                &&& final(s).cursor() == old(s).cursor() + 76
            },
            old(s).cursor() + 76 > old(s)@.len() ==> (r matches Err(e) && e
                == DecodeError::Truncated),
    {
        let num_faces = match s.read_i32_be() {
            Some(v) => v,
            None => {
                return Err(DecodeError::Truncated);
            },
        };
        let f_offset = match s.peek_i32_be() {
            Some(v) => v,
            None => {
                return Err(DecodeError::Truncated);
            },
        };
        let indices = if num_faces > 0 {
            match RelPtr::read_bytes(s, 0, (num_faces as u64) * 2) {
                Ok(p) => p,
                Err(e) => {
                    return Err(e);
                },
            }
        } else {
            // The offset field is still part of the fixed layout; a
            // non-positive count resolves to absent without touching the
            // buffer.
            match s.read_i32_be() {
                Some(_) => (),
                None => {
                    return Err(DecodeError::Truncated);
                },
            };
            RelPtr(None)
        };
        let num_vct = match s.read_i32_be() {
            Some(v) => v,
            None => {
                return Err(DecodeError::Truncated);
            },
        };
        let vertex_stride = match s.read_i32_be() {
            Some(v) => v,
            None => {
                return Err(DecodeError::Truncated);
            },
        };
        let v_offset = match s.peek_i32_be() {
            Some(v) => v,
            None => {
                return Err(DecodeError::Truncated);
            },
        };
        let vertices = if num_vct > 0 && vertex_stride > 0 {
            assert((num_vct as u64) * (vertex_stride as u64) <= 0x7fffffff * 0x7fffffff)
                by (nonlinear_arith)
                requires
                    0 < num_vct as u64 <= 0x7fffffff,
                    0 < vertex_stride as u64 <= 0x7fffffff,
            ;
            match RelPtr::read_bytes(s, 0, (num_vct as u64) * (vertex_stride as u64)) {
                Ok(p) => p,
                Err(e) => {
                    return Err(e);
                },
            }
        } else {
            match s.read_i32_be() {
                Some(_) => (),
                None => {
                    return Err(DecodeError::Truncated);
                },
            };
            RelPtr(None)
        };
        let flags = match s.read_u32_be() {
            Some(v) => v,
            None => {
                return Err(DecodeError::Truncated);
            },
        };
        let stream_ofs = match s.read_u32_be() {
            Some(v) => v,
            None => {
                return Err(DecodeError::Truncated);
            },
        };
        let m_offset1 = match s.peek_u32_be() {
            Some(v) => v,
            None => {
                return Err(DecodeError::Truncated);
            },
        };
        let material_name = match IndirectMaterial::decode(s) {
            Ok(m) => m,
            Err(e) => {
                return Err(e);
            },
        };
        let vertex_ofs = match s.read_u32_be() {
            Some(v) => v,
            None => {
                return Err(DecodeError::Truncated);
            },
        };
        let extra = match s.read_exact(40) {
            Some(b) => b,
            None => {
                return Err(DecodeError::Truncated);
            },
        };
        Ok(Element {
            num_faces,
            f_offset,
            indices,
            num_vct,
            vertex_stride,
            v_offset,
            vertices,
            flags,
            stream_ofs,
            m_offset1,
            material_name,
            vertex_ofs,
            extra,
        })
    }

    /// The index buffer as big-endian 16-bit values, two bytes each; a
    /// trailing odd byte is dropped. Absent exactly when the buffer is.
    pub fn get_indices(&self) -> (r: Option<Vec<u16>>)
        ensures
            r is Some <==> self.indices.0 is Some,
            r matches Some(v) ==> {
                let raw = self.indices.0->0@;
                &&& v@.len() == raw.len() / 2
                &&& forall|i: int|
                    0 <= i < v@.len() ==> v@[i] == raw[2 * i] * 0x100 + raw[2 * i + 1]
            },
    {
        match &self.indices.0 {
            None => None,
            Some(raw) => {
                let n = raw.len() / 2;
                let mut out: Vec<u16> = Vec::new();
                let mut k: usize = 0;
                while k < n
                    invariant
                        n == raw@.len() / 2,
                        raw@.len() <= usize::MAX,
                        k <= n,
                        out@.len() == k,
                        forall|i: int|
                            0 <= i < k ==> out@[i] == raw@[2 * i] * 0x100 + raw@[2 * i + 1],
                    decreases n - k,
                {
                    let hi = raw[2 * k] as u16;
                    let lo = raw[2 * k + 1] as u16;
                    out.push(hi * 0x100 + lo);
                    k = k + 1;
                }
                Some(out)
            },
        }
    }
}

/// The absolute base address of the element record table, as the header
/// encodes it: the signed offset stored at `0x10`, taken relative to its own
/// position, plus a fixed correction of 8.
pub open spec fn table_base(d: Seq<u8>) -> int {
    0x10 + i32_be_at(d, 0x10) + 8
}

/// Locates the element table's base address from the fixed header slot at
/// `0xC`, leaving the header's own sequential cursor where it was. The
/// address is not validated here: an unusable one must fail the subsequent
/// structural reads, fatally rather than silently.
pub fn locate_element_table(s: &mut ByteStream) -> (r: Result<i64, DecodeError>)
    ensures
        final(s)@ == old(s)@,
        final(s).cursor() == old(s).cursor(),
        old(s)@.len() >= 0x14 ==> (r matches Ok(b) && b == table_base(old(s)@)),
        old(s)@.len() < 0x14 ==> (r matches Err(e) && e == DecodeError::Truncated),
{
    let saved = s.tell();
    s.seek(0xC);
    // An alignment/placeholder word, read and discarded.
    match s.read_u32_be() {
        Some(_) => (),
        None => {
            s.seek(saved);
            return Err(DecodeError::Truncated);
        },
    };
    let dpos = s.tell();
    let pointer = match s.read_i32_be() {
        Some(v) => v,
        None => {
            s.seek(saved);
            return Err(DecodeError::Truncated);
        },
    };
    s.seek(saved);
    Ok(dpos as i64 + pointer as i64 + 8)
}

/// The whole decoded container: the fixed header and the element records.
/// `bounds` holds the big-endian bit patterns of the header's four 32-bit
/// floating-point bounds, kept raw so that no decoding is lost.
#[derive(Debug)]
pub struct Model {
    pub skeleton_key: u32,
    pub joint_count: u32,
    pub elements_count: u32,
    pub elements_offset: u32,
    pub material_count: u32,
    pub material_offset: u32,
    pub bounds: [u32; 4],
    pub elements: Vec<Element>,
}

/// The condition under which a whole-model decode succeeds: the fixed header
/// fits, the table address is not below zero, and the table of records fits.
pub open spec fn model_ok(d: Seq<u8>) -> bool {
    &&& d.len() >= 0x2C
    &&& table_base(d) >= 0
    &&& (u32_be_at(d, 0xC) == 0 || table_base(d) + 76 * u32_be_at(d, 0xC) <= d.len())
}

/// The model decoded from `d`, field by field.
pub open spec fn model_wf(m: Model, d: Seq<u8>) -> bool {
    &&& m.skeleton_key == u32_be_at(d, 0x4)
    &&& m.joint_count == u32_be_at(d, 0x8)
    &&& m.elements_count == u32_be_at(d, 0xC)
    &&& m.elements_offset == u32_be_at(d, 0x10)
    &&& m.material_count == u32_be_at(d, 0x14)
    &&& m.material_offset == u32_be_at(d, 0x18)
    &&& forall|i: int| 0 <= i < 4 ==> m.bounds@[i] == u32_be_at(d, 0x1C + 4 * i)
    &&& m.elements@.len() == m.elements_count
    &&& forall|i: int|
        0 <= i < m.elements@.len() ==> element_wf(
            #[trigger] m.elements@[i],
            d,
            table_base(d) + 76 * i,
        )
}

impl Model {
    /// Decodes a complete model from a stream positioned at byte 0: a 2-byte
    /// magic and 2-byte version (consumed, never validated), the fixed
    /// header fields, the element-table locator, then exactly
    /// `elements_count` element records, read sequentially from the table
    /// base. Any fixed-width read off the end of the stream aborts the whole
    /// decode; there is no partial result.
    pub fn decode(s: &mut ByteStream) -> (r: Result<Model, DecodeError>)
        requires
            old(s).cursor() == 0,
        ensures
            final(s)@ == old(s)@,
            r is Ok <==> model_ok(old(s)@),
            r matches Ok(m) ==> model_wf(m, old(s)@),
            r matches Ok(m) ==> m.elements@.len() == u32_be_at(old(s)@, 0xC),
            old(s)@.len() < 0x2C ==> (r matches Err(e) && e == DecodeError::Truncated),
            old(s)@.len() >= 0x2C && table_base(old(s)@) < 0 ==> (r matches Err(e) && e
                == DecodeError::BadTableAddress),
            old(s)@.len() >= 0x2C && table_base(old(s)@) >= 0 && !model_ok(old(s)@) ==> (
            r matches Err(e) && e == DecodeError::Truncated),
    {
        // Magic and version: four bytes consumed without validation.
        match s.read_u32_be() {
            Some(_) => (),
            None => {
                return Err(DecodeError::Truncated);
            },
        };
        let skeleton_key = match s.read_u32_be() {
            Some(v) => v,
            None => {
                return Err(DecodeError::Truncated);
            },
        };
        let joint_count = match s.read_u32_be() {
            Some(v) => v,
            None => {
                return Err(DecodeError::Truncated);
            },
        };
        let elements_count = match s.read_u32_be() {
            Some(v) => v,
            None => {
                return Err(DecodeError::Truncated);
            },
        };
        let elements_offset = match s.read_u32_be() {
            Some(v) => v,
            None => {
                return Err(DecodeError::Truncated);
            },
        };
        let material_count = match s.read_u32_be() {
            Some(v) => v,
            None => {
                return Err(DecodeError::Truncated);
            },
        };
        let material_offset = match s.read_u32_be() {
            Some(v) => v,
            None => {
                return Err(DecodeError::Truncated);
            },
        };
        let b0 = match s.read_u32_be() {
            Some(v) => v,
            None => {
                return Err(DecodeError::Truncated);
            },
        };
        let b1 = match s.read_u32_be() {
            Some(v) => v,
            None => {
                return Err(DecodeError::Truncated);
            },
        };
        let b2 = match s.read_u32_be() {
            Some(v) => v,
            None => {
                return Err(DecodeError::Truncated);
            },
        };
        let b3 = match s.read_u32_be() {
            Some(v) => v,
            None => {
                return Err(DecodeError::Truncated);
            },
        };
        let bounds: [u32; 4] = [b0, b1, b2, b3];
        let base = match locate_element_table(s) {
            Ok(b) => b,
            Err(e) => {
                return Err(e);
            },
        };
        if base < 0 {
            return Err(DecodeError::BadTableAddress);
        }
        let base_us = base as usize;
        s.seek(base_us);
        let mut elements: Vec<Element> = Vec::new();
        let mut i: u32 = 0;
        while i < elements_count
            invariant
                s@ == old(s)@,
                elements_count == u32_be_at(old(s)@, 0xC),
                base_us as int == table_base(old(s)@),
                old(s)@.len() >= 0x2C,
                i <= elements_count,
                elements@.len() == i as int,
                s.cursor() == base_us + 76 * (i as int),
                i > 0 ==> base_us + 76 * (i as int) <= old(s)@.len(),
                forall|j: int|
                    0 <= j < i as int ==> element_wf(
                        #[trigger] elements@[j],
                        old(s)@,
                        base_us + 76 * j,
                    ),
            decreases elements_count - i,
        {
            let e = match Element::decode(s) {
                Ok(e) => e,
                Err(er) => {
                    return Err(er);
                },
            };
            elements.push(e);
            i = i + 1;
        }
        Ok(
            Model {
                skeleton_key,
                joint_count,
                elements_count,
                elements_offset,
                material_count,
                material_offset,
                bounds,
                elements,
            },
        )
    }
}

/// A negative encoded offset is the format's null sentinel: resolution is
/// absent, whatever the bias, and (by the resolving functions' contracts)
/// the cursor still ends 4 bytes past the field.
pub proof fn lemma_negative_offset_absent(d: Seq<u8>, p: int, bias: int)
    requires
        i32_be_at(d, p) < 0,
    ensures
        rel_target(d, p, bias) is None,
{
}

/// A computed target at or past the end of the stream, or below zero,
/// resolves to absent.
pub proof fn lemma_out_of_range_absent(d: Seq<u8>, p: int, bias: int)
    requires
        i32_be_at(d, p) >= 0,
        p + i32_be_at(d, p) + bias >= d.len() || p + i32_be_at(d, p) + bias < 0,
    ensures
        rel_target(d, p, bias) is None,
{
}

/// A non-positive face count makes the index buffer absent, and a
/// non-positive vertex count or stride makes the vertex buffer absent,
/// without any resolution taking place.
pub proof fn lemma_nonpositive_counts_absent(d: Seq<u8>, p: int)
    ensures
        i32_be_at(d, p) <= 0 ==> indices_spec(d, p) is None,
        i32_be_at(d, p + 8) <= 0 || i32_be_at(d, p + 12) <= 0 ==> vertices_spec(d, p) is None,
{
}

/// The material chain resolves to a name exactly when all three hops resolve
/// and the text at the last target has its terminator: an absence anywhere
/// short-circuits to absence end to end.
pub proof fn lemma_material_iff_hops(d: Seq<u8>, p: int)
    ensures
        material_at(d, p) is Some <==> (rel_target(d, p, 0x20) matches Some(t1)
            && rel_target_checked(d, t1, 0) matches Some(t2) && rel_target_checked(d, t2, 0)
            matches Some(t3) && nullterm_at(d, t3) is Some),
{
}

/// A stream truncated inside the fixed header fields (before the bounds)
/// cannot decode to a model at all: the failure is structural, never a
/// partially populated result.
pub proof fn lemma_truncated_header_fails(d: Seq<u8>)
    requires
        d.len() < 0x1C,
    ensures
        !model_ok(d),
{
}

} // verus!
