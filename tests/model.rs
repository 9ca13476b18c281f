use gfx_core::model::{decode_mesh, material_ranges, DecodeError, HEADER_LEN, MATERIAL_RECORD_LEN};

fn put_u32(b: &mut Vec<u8>, v: u32) {
    b.extend_from_slice(&v.to_le_bytes());
}

fn put_u16(b: &mut Vec<u8>, v: u16) {
    b.extend_from_slice(&v.to_le_bytes());
}

/// A mesh of two triangles (six vertices) with one material drawing all six
/// indices, laid out header, positions, normals, texcoords, indices, materials.
fn two_triangles() -> Vec<u8> {
    let vc: u32 = 6;
    let pos = HEADER_LEN as u32;
    let nrm = pos + 12 * vc;
    let tc = nrm + 12 * vc;
    let idx = tc + 8 * vc;
    let mat = idx + 4 * vc;
    let mut b = b"nmdl".to_vec();
    put_u32(&mut b, 1);
    put_u32(&mut b, vc);
    put_u32(&mut b, pos);
    put_u32(&mut b, nrm);
    put_u32(&mut b, tc);
    put_u32(&mut b, 0);
    put_u32(&mut b, vc);
    put_u32(&mut b, idx);
    b.push(1);
    put_u32(&mut b, mat);
    assert_eq!(b.len(), HEADER_LEN);
    for i in 0..vc {
        for k in 0..3 {
            put_u32(&mut b, (i as f32 + k as f32).to_bits());
        }
    }
    for _ in 0..vc {
        put_u32(&mut b, 0.0f32.to_bits());
        put_u32(&mut b, 0.0f32.to_bits());
        put_u32(&mut b, 1.0f32.to_bits());
    }
    for i in 0..vc {
        put_u32(&mut b, (i as f32 * 0.5).to_bits());
        put_u32(&mut b, 0.25f32.to_bits());
    }
    for i in 0..vc {
        put_u32(&mut b, i);
    }
    put_u32(&mut b, 6);
    put_u16(&mut b, 0);
    put_u32(&mut b, 0);
    put_u16(&mut b, 0);
    put_u32(&mut b, 0);
    b.push(10);
    b.push(20);
    put_u16(&mut b, 300);
    b.extend_from_slice(&[255, 128, 0]);
    assert_eq!(b.len(), mat as usize + MATERIAL_RECORD_LEN);
    b
}

#[test]
fn decodes_two_triangle_mesh() {
    let m = decode_mesh(&two_triangles()).unwrap();
    assert_eq!(m.vertex_count, 6);
    assert_eq!(m.positions.len(), 18);
    assert_eq!(m.positions[0], 0.0f32.to_bits());
    assert_eq!(m.positions[5], 3.0f32.to_bits());
    assert_eq!(m.normals[2], 1.0f32.to_bits());
    assert_eq!(m.texcoords.len(), 12);
    assert_eq!(m.texcoords[2], 0.5f32.to_bits());
    assert_eq!(m.indices, vec![0, 1, 2, 3, 4, 5]);
    assert_eq!(m.materials.len(), 1);
    let mat = &m.materials[0];
    assert_eq!(mat.index_count, 6);
    assert!(mat.texture1_name.is_empty());
    assert!(mat.texture2_name.is_empty());
    assert_eq!(mat.light_penetration, 10);
    assert_eq!(mat.subsurface_scattering, 20);
    assert_eq!(mat.emissive_brightness, 300);
    assert_eq!(mat.base_color, (255, 128, 0));
}

#[test]
fn reads_little_endian_words() {
    let mut b = two_triangles();
    let pos = HEADER_LEN;
    b[pos..pos + 4].copy_from_slice(&[0x78, 0x56, 0x34, 0x12]);
    let m = decode_mesh(&b).unwrap();
    assert_eq!(m.positions[0], 0x1234_5678);
}

#[test]
fn truncated_stream_is_rejected() {
    let b = two_triangles();
    for cut in [0usize, 3, 4, 40, 41, 100, b.len() - 1] {
        let r = decode_mesh(&b[..cut].to_vec());
        assert!(matches!(r, Err(DecodeError::Truncated)), "cut at {}", cut);
    }
}

#[test]
fn bad_magic_is_rejected() {
    let mut b = two_triangles();
    b[0] = b'x';
    assert!(matches!(decode_mesh(&b), Err(DecodeError::BadMagic)));
    assert!(matches!(decode_mesh(&b"abcd".to_vec()), Err(DecodeError::BadMagic)));
}

#[test]
fn material_range_beyond_indices_is_rejected() {
    let mut b = two_triangles();
    let mat = b.len() - MATERIAL_RECORD_LEN;
    b[mat..mat + 4].copy_from_slice(&7u32.to_le_bytes());
    assert!(matches!(decode_mesh(&b), Err(DecodeError::MaterialRangeOutOfBounds)));
}

#[test]
fn texture_names_are_read() {
    let mut b = two_triangles();
    let name_off = b.len() as u32;
    b.extend_from_slice(b"albedo.tga");
    let mat = name_off as usize - MATERIAL_RECORD_LEN;
    b[mat + 4..mat + 6].copy_from_slice(&10u16.to_le_bytes());
    b[mat + 6..mat + 10].copy_from_slice(&name_off.to_le_bytes());
    let m = decode_mesh(&b).unwrap();
    assert_eq!(m.materials[0].texture1_name, b"albedo.tga".to_vec());
    assert!(m.materials[0].texture2_name.is_empty());

    b[mat + 10..mat + 12].copy_from_slice(&50u16.to_le_bytes());
    b[mat + 12..mat + 16].copy_from_slice(&name_off.to_le_bytes());
    assert!(matches!(decode_mesh(&b), Err(DecodeError::Truncated)));
}

#[test]
fn material_ranges_are_consecutive() {
    let mut m = decode_mesh(&two_triangles()).unwrap();
    assert_eq!(material_ranges(&m), vec![(0, 6)]);
    m.materials[0].index_count = 2;
    let mut second = decode_mesh(&two_triangles()).unwrap().materials.remove(0);
    second.index_count = 4;
    m.materials.push(second);
    assert_eq!(material_ranges(&m), vec![(0, 2), (2, 6)]);
}
