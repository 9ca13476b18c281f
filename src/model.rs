//! The binary mesh format.
//!
//! A file starts with a 41-byte header, all integers little-endian:
//!
//! | offset | size | field                         |
//! |--------|------|-------------------------------|
//! | 0      | 4    | magic `nmdl`                  |
//! | 4      | 4    | version (ignored)             |
//! | 8      | 4    | vertex count                  |
//! | 12     | 4    | offset of positions (3 words per vertex) |
//! | 16     | 4    | offset of normals (3 words per vertex)   |
//! | 20     | 4    | offset of main texcoords (2 words per vertex) |
//! | 24     | 4    | offset of lightmap texcoords (ignored)   |
//! | 28     | 4    | index count                   |
//! | 32     | 4    | offset of indices (1 word each) |
//! | 36     | 1    | material count                |
//! | 37     | 4    | offset of the material records |
//!
//! Each material record is 23 bytes: index count (4), texture 1 name size (2)
//! and offset (4), texture 2 name size (2) and offset (4), light penetration
//! (1), subsurface scattering (1), emissive brightness (2), base color (3).
//! A texture name of size 0 is absent. Vertex attributes are kept as the raw
//! 32-bit little-endian words of their `f32` components.
use vstd::prelude::*;

verus! {

pub const HEADER_LEN: usize = 41;

pub const MATERIAL_RECORD_LEN: usize = 23;

/// Why a byte stream is not a mesh.
#[derive(Clone, Copy, Debug, PartialEq, Eq, Structural)]
pub enum DecodeError {
    /// The stream ends before a field or region it announces.
    Truncated,
    /// The stream does not start with `nmdl`.
    BadMagic,
    /// The materials claim more indices than the index region holds.
    MaterialRangeOutOfBounds,
}

pub open spec fn le16(b: Seq<u8>, o: int) -> int {
    b[o] as int + 256 * b[o + 1] as int
}

pub open spec fn le32(b: Seq<u8>, o: int) -> int {
    b[o] as int + 256 * b[o + 1] as int + 65536 * b[o + 2] as int + 16777216 * b[o + 3] as int
}

/// `n` consecutive little-endian words starting at `off`.
pub open spec fn words(b: Seq<u8>, off: int, n: int) -> Seq<u32> {
    Seq::new(n as nat, |i: int| le32(b, off + 4 * i) as u32)
}

pub open spec fn has_magic(b: Seq<u8>) -> bool {
    b[0] == 0x6e && b[1] == 0x6d && b[2] == 0x64 && b[3] == 0x6c
}

pub open spec fn vertex_count(b: Seq<u8>) -> int { le32(b, 8) }
pub open spec fn positions_offset(b: Seq<u8>) -> int { le32(b, 12) }
pub open spec fn normals_offset(b: Seq<u8>) -> int { le32(b, 16) }
pub open spec fn texcoords_offset(b: Seq<u8>) -> int { le32(b, 20) }
pub open spec fn index_count(b: Seq<u8>) -> int { le32(b, 28) }
pub open spec fn indices_offset(b: Seq<u8>) -> int { le32(b, 32) }
pub open spec fn material_count(b: Seq<u8>) -> int { b[36] as int }
pub open spec fn materials_offset(b: Seq<u8>) -> int { le32(b, 37) }

/// Start of the `i`-th material record.
pub open spec fn record_at(b: Seq<u8>, i: int) -> int {
    materials_offset(b) + 23 * i
}

pub open spec fn fits(b: Seq<u8>, off: int, len: int) -> bool {
    off + len <= b.len()
}

/// The vertex, index and material regions lie inside the stream.
pub open spec fn regions_fit(b: Seq<u8>) -> bool {
    &&& fits(b, positions_offset(b), 12 * vertex_count(b))
    &&& fits(b, normals_offset(b), 12 * vertex_count(b))
    &&& fits(b, texcoords_offset(b), 8 * vertex_count(b))
    &&& fits(b, indices_offset(b), 4 * index_count(b))
    &&& fits(b, materials_offset(b), 23 * material_count(b))
}

/// The texture names of the `i`-th material lie inside the stream.
pub open spec fn names_fit(b: Seq<u8>, i: int) -> bool {
    names_fit_at(b, record_at(b, i))
}

/// The texture names of the material record at `r` lie inside the stream.
pub open spec fn names_fit_at(b: Seq<u8>, r: int) -> bool {
    &&& (le16(b, r + 4) != 0 ==> fits(b, le32(b, r + 6), le16(b, r + 4)))
    &&& (le16(b, r + 10) != 0 ==> fits(b, le32(b, r + 12), le16(b, r + 10)))
}

pub open spec fn all_names_fit(b: Seq<u8>, n: int) -> bool {
    forall|i: int| 0 <= i < n ==> #[trigger] names_fit(b, i)
}

/// Sum of the index counts of the first `n` materials.
pub open spec fn material_indices(b: Seq<u8>, n: int) -> int
    decreases n,
{
    if n <= 0 {
        0
    } else {
        material_indices(b, n - 1) + le32(b, record_at(b, n - 1))
    }
}

/// What is wrong with `b`, checked in stream order; `None` for a mesh.
pub open spec fn decode_error(b: Seq<u8>) -> Option<DecodeError> {
    if b.len() < 4 {
        Some(DecodeError::Truncated)
    } else if !has_magic(b) {
        Some(DecodeError::BadMagic)
    } else if b.len() < 41 || !regions_fit(b) || !all_names_fit(b, material_count(b)) {
        Some(DecodeError::Truncated)
    } else if material_indices(b, material_count(b)) > index_count(b) {
        Some(DecodeError::MaterialRangeOutOfBounds)
    } else {
        None
    }
}

/// The texture name of size `size` at `off`; empty when the size is 0.
pub open spec fn name_at(b: Seq<u8>, size: int, off: int) -> Seq<u8> {
    if size == 0 {
        Seq::empty()
    } else {
        b.subrange(off, off + size)
    }
}

pub struct MaterialRecord {
    pub index_count: u32,
    pub texture1_name: Vec<u8>,
    pub texture2_name: Vec<u8>,
    pub light_penetration: u8,
    pub subsurface_scattering: u8,
    pub emissive_brightness: u16,
    pub base_color: (u8, u8, u8),
}

/// The material record at `r` of `b`, with its texture names.
pub open spec fn record_matches(m: MaterialRecord, b: Seq<u8>, r: int) -> bool {
    &&& m.index_count == le32(b, r)
    &&& m.texture1_name@ == name_at(b, le16(b, r + 4), le32(b, r + 6))
    &&& m.texture2_name@ == name_at(b, le16(b, r + 10), le32(b, r + 12))
    &&& m.light_penetration == b[r + 16]
    &&& m.subsurface_scattering == b[r + 17]
    &&& m.emissive_brightness == le16(b, r + 18)
    &&& m.base_color == (b[r + 20], b[r + 21], b[r + 22])
}

pub struct DecodedMesh {
    pub vertex_count: u32,
    pub positions: Vec<u32>,
    pub normals: Vec<u32>,
    pub texcoords: Vec<u32>,
    pub indices: Vec<u32>,
    pub materials: Vec<MaterialRecord>,
}

/// `m` holds exactly what the well-formed stream `b` describes.
pub open spec fn mesh_matches(m: DecodedMesh, b: Seq<u8>) -> bool {
    &&& m.vertex_count == vertex_count(b)
    &&& m.positions@ == words(b, positions_offset(b), 3 * vertex_count(b))
    &&& m.normals@ == words(b, normals_offset(b), 3 * vertex_count(b))
    &&& m.texcoords@ == words(b, texcoords_offset(b), 2 * vertex_count(b))
    &&& m.indices@ == words(b, indices_offset(b), index_count(b))
    &&& m.materials@.len() == material_count(b)
    &&& forall|i: int|
        0 <= i < material_count(b) ==> record_matches(#[trigger] m.materials@[i], b, record_at(b, i))
}

fn read_u16(b: &Vec<u8>, o: usize) -> (r: u16)
    requires
        o + 2 <= b@.len(),
    ensures
        r == le16(b@, o as int),
{
    let _len = b.len();
    b[o] as u16 + 256 * (b[o + 1] as u16)
}

fn read_u32(b: &Vec<u8>, o: usize) -> (r: u32)
    requires
        o + 4 <= b@.len(),
    ensures
        r == le32(b@, o as int),
{
    let _len = b.len();
    b[o] as u32 + 256 * (b[o + 1] as u32) + 65536 * (b[o + 2] as u32) + 16777216 * (b[o + 3] as u32)
}

fn read_words(b: &Vec<u8>, off: usize, n: usize) -> (r: Vec<u32>)
    requires
        off + 4 * n <= b@.len(),
    ensures
        r@ == words(b@, off as int, n as int),
{
    let len = b.len();
    let mut r: Vec<u32> = Vec::with_capacity(n);
    let mut i: usize = 0;
    while i < n
        invariant
            off + 4 * n <= b@.len(),
            len == b@.len(),
            i <= n,
            r@ =~= words(b@, off as int, i as int),
        decreases n - i,
    {
        let w = read_u32(b, off + 4 * i);
        r.push(w);
        i = i + 1;
    }
    r
}

fn read_bytes(b: &Vec<u8>, off: usize, n: usize) -> (r: Vec<u8>)
    requires
        off + n <= b@.len(),
    ensures
        r@ == b@.subrange(off as int, off + n),
{
    let len = b.len();
    let mut r: Vec<u8> = Vec::with_capacity(n);
    let mut i: usize = 0;
    while i < n
        invariant
            off + n <= b@.len(),
            len == b@.len(),
            i <= n,
            r@ =~= b@.subrange(off as int, off + i),
        decreases n - i,
    {
        r.push(b[off + i]);
        i = i + 1;
    }
    r
}

/// The texture name of size `size` at `off`, which lies inside `b`.
fn read_name(b: &Vec<u8>, size: u16, off: u32) -> (r: Vec<u8>)
    requires
        size != 0 ==> off + size <= b@.len(),
    ensures
        r@ == name_at(b@, size as int, off as int),
{
    if size == 0 {
        Vec::new()
    } else {
        read_bytes(b, off as usize, size as usize)
    }
}

/// Checks the texture names of every material and sums their index counts.
fn check_materials(b: &Vec<u8>) -> (r: Result<u64, DecodeError>)
    requires
        b@.len() >= 41,
        fits(b@, materials_offset(b@), 23 * material_count(b@)),
    ensures
        match r {
            Ok(total) => all_names_fit(b@, material_count(b@)) && total == material_indices(
                b@,
                material_count(b@),
            ),
            Err(e) => e == DecodeError::Truncated && !all_names_fit(b@, material_count(b@)),
        },
{
    let len = b.len() as u64;
    let count = b[36] as u64;
    let base = read_u32(b, 37) as u64;
    let mut total: u64 = 0;
    let mut i: u64 = 0;
    while i < count
        invariant
            len == b@.len(),
            b@.len() <= usize::MAX,
            count == material_count(b@),
            base == materials_offset(b@),
            b@.len() >= 41,
            fits(b@, base as int, 23 * count),
            i <= count,
            count <= 255,
            total == material_indices(b@, i as int),
            total <= i * 4294967295,
            all_names_fit(b@, i as int),
        decreases count - i,
    {
        let rec = (base + 23 * i) as usize;
        let size1 = read_u16(b, rec + 4) as u64;
        let off1 = read_u32(b, rec + 6) as u64;
        let size2 = read_u16(b, rec + 10) as u64;
        let off2 = read_u32(b, rec + 12) as u64;
        if (size1 != 0 && off1 + size1 > len) || (size2 != 0 && off2 + size2 > len) {
            assert(!names_fit(b@, i as int));
            return Err(DecodeError::Truncated);
        }
        let n = read_u32(b, rec) as u64;
        total = total + n;
        assert(all_names_fit(b@, i + 1)) by {
            assert forall|k: int| 0 <= k < i + 1 implies #[trigger] names_fit(b@, k) by {
                if k < i {
                    assert(names_fit(b@, k));
                }
            }
        }
        i = i + 1;
    }
    Ok(total)
}

fn read_material(b: &Vec<u8>, rec: usize) -> (r: MaterialRecord)
    requires
        rec + 23 <= b@.len(),
        names_fit_at(b@, rec as int),
    ensures
        record_matches(r, b@, rec as int),
{
    let _len = b.len();
    let index_count = read_u32(b, rec);
    let size1 = read_u16(b, rec + 4);
    let off1 = read_u32(b, rec + 6);
    let size2 = read_u16(b, rec + 10);
    let off2 = read_u32(b, rec + 12);
    MaterialRecord {
        index_count,
        texture1_name: read_name(b, size1, off1),
        texture2_name: read_name(b, size2, off2),
        light_penetration: b[rec + 16],
        subsurface_scattering: b[rec + 17],
        emissive_brightness: read_u16(b, rec + 18),
        base_color: (b[rec + 20], b[rec + 21], b[rec + 22]),
    }
}

/// Decodes a mesh from the bytes of a file: the result is `Ok` exactly when
/// `decode_error` finds nothing wrong, and then holds what the bytes describe.
pub fn decode_mesh(b: &Vec<u8>) -> (r: Result<DecodedMesh, DecodeError>)
    ensures
        match r {
            Ok(m) => decode_error(b@).is_none() && mesh_matches(m, b@),
            Err(e) => decode_error(b@) == Some(e),
        },
{
    let len = b.len();
    if len < 4 {
        return Err(DecodeError::Truncated);
    }
    if !(b[0] == 0x6e && b[1] == 0x6d && b[2] == 0x64 && b[3] == 0x6c) {
        return Err(DecodeError::BadMagic);
    }
    if len < HEADER_LEN {
        return Err(DecodeError::Truncated);
    }
    let len64 = len as u64;
    let vc = read_u32(b, 8) as u64;
    let pos_off = read_u32(b, 12) as u64;
    let nrm_off = read_u32(b, 16) as u64;
    let tc_off = read_u32(b, 20) as u64;
    let ic = read_u32(b, 28) as u64;
    let idx_off = read_u32(b, 32) as u64;
    let mc = b[36] as u64;
    let mat_off = read_u32(b, 37) as u64;
    if pos_off + 12 * vc > len64 || nrm_off + 12 * vc > len64 || tc_off + 8 * vc > len64
        || idx_off + 4 * ic > len64 || mat_off + 23 * mc > len64 {
        return Err(DecodeError::Truncated);
    }
    let total = match check_materials(b) {
        Ok(total) => total,
        Err(e) => {
            return Err(e);
        },
    };
    if total > ic {
        return Err(DecodeError::MaterialRangeOutOfBounds);
    }
    let positions = read_words(b, pos_off as usize, (3 * vc) as usize);
    let normals = read_words(b, nrm_off as usize, (3 * vc) as usize);
    let texcoords = read_words(b, tc_off as usize, (2 * vc) as usize);
    let indices = read_words(b, idx_off as usize, ic as usize);
    let mut materials: Vec<MaterialRecord> = Vec::with_capacity(mc as usize);
    let mut i: u64 = 0;
    while i < mc
        invariant
            len == b@.len(),
            mc == material_count(b@),
            mat_off == materials_offset(b@),
            mat_off + 23 * mc <= len,
            all_names_fit(b@, mc as int),
            i <= mc,
            materials@.len() == i,
            forall|k: int|
                0 <= k < i ==> record_matches(#[trigger] materials@[k], b@, record_at(b@, k)),
        decreases mc - i,
    {
        assert(names_fit(b@, i as int));
        let m = read_material(b, (mat_off + 23 * i) as usize);
        materials.push(m);
        i = i + 1;
    }
    Ok(DecodedMesh { vertex_count: vc as u32, positions, normals, texcoords, indices, materials })
}

/// Sum of the index counts of the first `n` materials of `ms`.
pub open spec fn index_prefix(ms: Seq<MaterialRecord>, n: int) -> int
    decreases n,
{
    if n <= 0 {
        0
    } else {
        index_prefix(ms, n - 1) + ms[n - 1].index_count
    }
}

proof fn lemma_prefix_monotonic(ms: Seq<MaterialRecord>, i: int, j: int)
    requires
        0 <= i <= j,
    ensures
        index_prefix(ms, i) <= index_prefix(ms, j),
    decreases j - i,
{
    if i < j {
        lemma_prefix_monotonic(ms, i, j - 1);
    }
}

proof fn lemma_prefix_matches_stream(m: DecodedMesh, b: Seq<u8>, n: int)
    requires
        mesh_matches(m, b),
        0 <= n <= material_count(b),
    ensures
        index_prefix(m.materials@, n) == material_indices(b, n),
    decreases n,
{
    if n > 0 {
        lemma_prefix_matches_stream(m, b, n - 1);
        assert(record_matches(m.materials@[n - 1], b, record_at(b, n - 1)));
    }
}

/// A mesh decoded from a stream has material ranges that fit its indices.
pub proof fn lemma_decoded_ranges_fit(m: DecodedMesh, b: Seq<u8>)
    requires
        decode_error(b).is_none(),
        mesh_matches(m, b),
    ensures
        index_prefix(m.materials@, m.materials@.len() as int) <= m.indices@.len(),
{
    lemma_prefix_matches_stream(m, b, material_count(b));
}

/// The range of the index list that each material draws: consecutive ranges,
/// in material order, starting at 0.
pub fn material_ranges(m: &DecodedMesh) -> (r: Vec<(usize, usize)>)
    requires
        index_prefix(m.materials@, m.materials@.len() as int) <= m.indices@.len(),
    ensures
        r@.len() == m.materials@.len(),
        forall|i: int|
            0 <= i < r@.len() ==> #[trigger] r@[i] == (
                index_prefix(m.materials@, i) as usize,
                index_prefix(m.materials@, i + 1) as usize,
            ),
{
    let n = m.materials.len();
    let index_len = m.indices.len();
    let mut r: Vec<(usize, usize)> = Vec::with_capacity(n);
    let mut start: usize = 0;
    let mut i: usize = 0;
    while i < n
        invariant
            n == m.materials@.len(),
            index_len == m.indices@.len(),
            i <= n,
            index_prefix(m.materials@, n as int) <= m.indices@.len(),
            start == index_prefix(m.materials@, i as int),
            r@.len() == i,
            forall|k: int|
                0 <= k < i ==> #[trigger] r@[k] == (
                    index_prefix(m.materials@, k) as usize,
                    index_prefix(m.materials@, k + 1) as usize,
                ),
        decreases n - i,
    {
        proof {
            lemma_prefix_monotonic(m.materials@, i + 1, n as int);
            assert(index_prefix(m.materials@, i + 1) == start + m.materials@[i as int].index_count);
        }
        let end = start + m.materials[i].index_count as usize;
        r.push((start, end));
        start = end;
        i = i + 1;
    }
    r
}

} // verus!
