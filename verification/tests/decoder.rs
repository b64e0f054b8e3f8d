use hdk::mdl::{DecodeError, Element, IndirectMaterial, Model, RelPtr};
use hdk::ByteStream;

fn put_u32(d: &mut Vec<u8>, v: u32) {
    d.extend_from_slice(&v.to_be_bytes());
}

fn put_i32(d: &mut Vec<u8>, v: i32) {
    d.extend_from_slice(&v.to_be_bytes());
}

/// A complete synthetic container: header, one element at 0x2C, its index
/// buffer at 0x78, vertex buffer at 0x7E, and a three-hop material chain
/// ending in "steel".
fn full_stream() -> Vec<u8> {
    let mut d: Vec<u8> = Vec::new();
    d.extend_from_slice(b"MD");
    d.extend_from_slice(&[0, 1]);
    put_u32(&mut d, 0xAABBCCDD); // skeleton_key
    put_u32(&mut d, 7); // joint_count
    put_u32(&mut d, 1); // elements_count
    put_u32(&mut d, 0x14); // elements_offset; table base = 0x10 + 0x14 + 8 = 0x2C
    put_u32(&mut d, 5); // material_count
    put_u32(&mut d, 9); // material_offset
    put_u32(&mut d, 0x3F800000); // bounds
    put_u32(&mut d, 0x40000000);
    put_u32(&mut d, 0x40400000);
    put_u32(&mut d, 0x40800000);
    assert_eq!(d.len(), 0x2C);
    // element record
    put_i32(&mut d, 3); // num_faces
    put_i32(&mut d, 0x48); // indices offset: 0x30 + 0x48 = 0x78
    put_i32(&mut d, 4); // num_vct
    put_i32(&mut d, 12); // vertex_stride
    put_i32(&mut d, 0x42); // vertices offset: 0x3C + 0x42 = 0x7E
    put_u32(&mut d, 0x11); // flags
    put_u32(&mut d, 0x22); // stream_ofs
    put_i32(&mut d, 0x46); // material hop 1: 0x48 + 0x46 + 0x20 = 0xAE
    put_u32(&mut d, 0x33); // vertex_ofs
    d.extend_from_slice(&[0xEE; 40]); // extra
    assert_eq!(d.len(), 0x78);
    d.extend_from_slice(&[0, 1, 0, 2, 0, 3]); // index buffer, 6 bytes
    d.extend_from_slice(&[0xAB; 48]); // vertex buffer
    assert_eq!(d.len(), 0xAE);
    put_i32(&mut d, 4); // hop 2: 0xAE + 4 = 0xB2
    put_i32(&mut d, 4); // hop 3: 0xB2 + 4 = 0xB6
    d.extend_from_slice(b"steel\0");
    d
}

#[test]
fn full_model_round_trip() {
    let mut s = ByteStream::new(full_stream());
    let m = Model::decode(&mut s).unwrap();
    assert_eq!(m.skeleton_key, 0xAABBCCDD);
    assert_eq!(m.joint_count, 7);
    assert_eq!(m.elements_count, 1);
    assert_eq!(m.elements_offset, 0x14);
    assert_eq!(m.material_count, 5);
    assert_eq!(m.material_offset, 9);
    assert_eq!(m.bounds, [0x3F800000, 0x40000000, 0x40400000, 0x40800000]);
    assert_eq!(m.elements.len(), 1);
    let e = &m.elements[0];
    assert_eq!(e.num_faces, 3);
    assert_eq!(e.f_offset, 0x48);
    assert_eq!(e.indices.0.as_ref().unwrap(), &vec![0, 1, 0, 2, 0, 3]);
    assert_eq!(e.num_vct, 4);
    assert_eq!(e.vertex_stride, 12);
    assert_eq!(e.v_offset, 0x42);
    assert_eq!(e.vertices.0.as_ref().unwrap().len(), 48);
    assert!(e.vertices.0.as_ref().unwrap().iter().all(|b| *b == 0xAB));
    assert_eq!(e.flags, 0x11);
    assert_eq!(e.stream_ofs, 0x22);
    assert_eq!(e.m_offset1, 0x46);
    assert_eq!(e.material_name.0.as_deref(), Some("steel"));
    assert_eq!(e.vertex_ofs, 0x33);
    assert_eq!(e.extra, vec![0xEE; 40]);
}

#[test]
fn elements_len_matches_header_count() {
    let mut s = ByteStream::new(full_stream());
    let m = Model::decode(&mut s).unwrap();
    assert_eq!(m.elements.len() as u32, m.elements_count);
}

#[test]
fn get_indices_decodes_pairs() {
    let mut s = ByteStream::new(full_stream());
    let m = Model::decode(&mut s).unwrap();
    assert_eq!(m.elements[0].get_indices(), Some(vec![1, 2, 3]));
}

#[test]
fn get_indices_drops_odd_trailing_byte() {
    let e = Element {
        num_faces: 1,
        f_offset: 0,
        indices: RelPtr(Some(vec![0x12, 0x34, 0x56])),
        num_vct: 0,
        vertex_stride: 0,
        v_offset: 0,
        vertices: RelPtr(None),
        flags: 0,
        stream_ofs: 0,
        m_offset1: 0,
        material_name: IndirectMaterial(None),
        vertex_ofs: 0,
        extra: vec![0; 40],
    };
    assert_eq!(e.get_indices(), Some(vec![0x1234]));
}

#[test]
fn get_indices_absent_when_buffer_absent() {
    let e = Element {
        num_faces: 0,
        f_offset: 0,
        indices: RelPtr(None),
        num_vct: 0,
        vertex_stride: 0,
        v_offset: 0,
        vertices: RelPtr(None),
        flags: 0,
        stream_ofs: 0,
        m_offset1: 0,
        material_name: IndirectMaterial(None),
        vertex_ofs: 0,
        extra: vec![0; 40],
    };
    assert_eq!(e.get_indices(), None);
}

#[test]
fn truncated_header_is_structural_failure() {
    // Cut mid-way through the fixed header fields, before the bounds.
    let d = full_stream()[..0x1A].to_vec();
    let mut s = ByteStream::new(d);
    assert!(matches!(Model::decode(&mut s), Err(DecodeError::Truncated)));
}

#[test]
fn truncated_element_is_structural_failure() {
    // The header survives but the single element record is cut short.
    let d = full_stream()[..0x60].to_vec();
    let mut s = ByteStream::new(d);
    assert!(matches!(Model::decode(&mut s), Err(DecodeError::Truncated)));
}

#[test]
fn zero_elements_decode_to_empty_model() {
    let mut d = full_stream();
    d[0x0C..0x10].copy_from_slice(&0u32.to_be_bytes());
    let mut s = ByteStream::new(d);
    let m = Model::decode(&mut s).unwrap();
    assert_eq!(m.elements_count, 0);
    assert!(m.elements.is_empty());
}

#[test]
fn negative_table_offset_is_bad_address() {
    let mut d = full_stream();
    d[0x10..0x14].copy_from_slice(&(-0x100i32).to_be_bytes());
    let mut s = ByteStream::new(d);
    assert!(matches!(
        Model::decode(&mut s),
        Err(DecodeError::BadTableAddress)
    ));
}

#[test]
fn rel_ptr_negative_offset_is_absent_and_cursor_advances_4() {
    // An offset field encoding -1 at position 0.
    let d = (-1i32).to_be_bytes().to_vec();
    let mut s = ByteStream::new(d);
    let p = s.tell();
    let r = RelPtr::read_bytes(&mut s, 0, 4).unwrap();
    assert!(r.0.is_none());
    assert_eq!(s.tell(), p + 4);
}

#[test]
fn rel_ptr_out_of_range_target_is_absent_and_cursor_advances_4() {
    // Offset pointing at or past the end of the stream.
    let mut d = 0x40i32.to_be_bytes().to_vec();
    d.extend_from_slice(&[7; 4]);
    let mut s = ByteStream::new(d);
    let p = s.tell();
    let r = RelPtr::read_bytes(&mut s, 0, 1).unwrap();
    assert!(r.0.is_none());
    assert_eq!(s.tell(), p + 4);
}

#[test]
fn rel_ptr_nested_failure_is_absent_and_cursor_advances_4() {
    // Target is in range but fewer bytes remain there than asked for.
    let mut d = 4i32.to_be_bytes().to_vec();
    d.extend_from_slice(&[7, 7]);
    let mut s = ByteStream::new(d);
    let p = s.tell();
    let r = RelPtr::read_bytes(&mut s, 0, 3).unwrap();
    assert!(r.0.is_none());
    assert_eq!(s.tell(), p + 4);
}

#[test]
fn rel_ptr_success_reads_target_and_cursor_advances_4() {
    let mut d = 4i32.to_be_bytes().to_vec();
    d.extend_from_slice(&[7, 8, 9]);
    let mut s = ByteStream::new(d);
    let p = s.tell();
    let r = RelPtr::read_bytes(&mut s, 0, 3).unwrap();
    assert_eq!(r.0, Some(vec![7, 8, 9]));
    assert_eq!(s.tell(), p + 4);
}

#[test]
fn rel_ptr_bias_shifts_target() {
    // With bias 2, offset 2 at position 0 lands on the last two bytes.
    let mut d = 2i32.to_be_bytes().to_vec();
    d.extend_from_slice(&[5, 6]);
    let mut s = ByteStream::new(d);
    let r = RelPtr::read_bytes(&mut s, 2, 2).unwrap();
    assert_eq!(r.0, Some(vec![5, 6]));
}

#[test]
fn rel_ptr_truncated_offset_field_is_error() {
    let mut s = ByteStream::new(vec![0, 0]);
    assert!(matches!(
        RelPtr::read_bytes(&mut s, 0, 0),
        Err(DecodeError::Truncated)
    ));
}

#[test]
fn nonpositive_counts_resolve_absent_without_dereference() {
    // num_faces == 0 over an offset field that would resolve if followed;
    // num_vct negative likewise. Both buffers must still come out absent.
    let mut d: Vec<u8> = Vec::new();
    put_i32(&mut d, 0); // num_faces
    put_i32(&mut d, 4); // a perfectly resolvable offset, never followed
    put_i32(&mut d, -2); // num_vct
    put_i32(&mut d, 12); // vertex_stride
    put_i32(&mut d, 4); // vertices offset, never followed
    put_u32(&mut d, 0); // flags
    put_u32(&mut d, 0); // stream_ofs
    put_i32(&mut d, -1); // material hop 1: null
    put_u32(&mut d, 0); // vertex_ofs
    d.extend_from_slice(&[0; 40]);
    let mut s = ByteStream::new(d);
    let e = Element::decode(&mut s).unwrap();
    assert_eq!(e.num_faces, 0);
    assert_eq!(e.f_offset, 4);
    assert!(e.indices.0.is_none());
    assert_eq!(e.num_vct, -2);
    assert_eq!(e.v_offset, 4);
    assert!(e.vertices.0.is_none());
    assert!(e.material_name.0.is_none());
    assert_eq!(s.tell(), 76);
}

#[test]
fn zero_stride_resolves_vertices_absent() {
    let mut d: Vec<u8> = Vec::new();
    put_i32(&mut d, 0);
    put_i32(&mut d, 4);
    put_i32(&mut d, 3); // num_vct positive
    put_i32(&mut d, 0); // vertex_stride zero: still absent
    put_i32(&mut d, 4);
    put_u32(&mut d, 0);
    put_u32(&mut d, 0);
    put_i32(&mut d, -1);
    put_u32(&mut d, 0);
    d.extend_from_slice(&[0; 40]);
    let mut s = ByteStream::new(d);
    let e = Element::decode(&mut s).unwrap();
    assert!(e.vertices.0.is_none());
}

#[test]
fn material_chain_resolves_end_to_end() {
    let d = full_stream();
    let mut s = ByteStream::new(d);
    s.seek(0x48); // the material offset field of the element
    let p = s.tell();
    let m = IndirectMaterial::decode(&mut s).unwrap();
    assert_eq!(m.0.as_deref(), Some("steel"));
    assert_eq!(s.tell(), p + 4);
}

#[test]
fn corrupting_hop_one_loses_material_only() {
    let mut d = full_stream();
    d[0x48..0x4C].copy_from_slice(&(-1i32).to_be_bytes());
    let mut s = ByteStream::new(d);
    let m = Model::decode(&mut s).unwrap();
    let e = &m.elements[0];
    assert!(e.material_name.0.is_none());
    assert!(e.indices.0.is_some());
    assert!(e.vertices.0.is_some());
}

#[test]
fn corrupting_hop_two_loses_material_only() {
    let mut d = full_stream();
    d[0xAE..0xB2].copy_from_slice(&(-1i32).to_be_bytes());
    let mut s = ByteStream::new(d);
    let m = Model::decode(&mut s).unwrap();
    assert!(m.elements[0].material_name.0.is_none());
    assert!(m.elements[0].indices.0.is_some());
}

#[test]
fn corrupting_hop_three_loses_material_only() {
    let mut d = full_stream();
    d[0xB2..0xB6].copy_from_slice(&0x7FFFFFFFi32.to_be_bytes());
    let mut s = ByteStream::new(d);
    let m = Model::decode(&mut s).unwrap();
    assert!(m.elements[0].material_name.0.is_none());
}

#[test]
fn missing_terminator_loses_material_only() {
    let mut d = full_stream();
    let last = d.len() - 1;
    d[last] = b'x'; // the terminating zero byte is gone
    let mut s = ByteStream::new(d);
    let m = Model::decode(&mut s).unwrap();
    assert!(m.elements[0].material_name.0.is_none());
}

#[test]
fn stream_reads_and_seeks() {
    let mut s = ByteStream::new(vec![1, 2, 3, 4, 5]);
    assert_eq!(s.total_length(), 5);
    assert_eq!(s.read_u32_be(), Some(0x01020304));
    assert_eq!(s.tell(), 4);
    assert_eq!(s.read_u32_be(), None);
    assert_eq!(s.tell(), 4);
    s.seek(1);
    assert_eq!(s.peek_u32_be(), Some(0x02030405));
    assert_eq!(s.tell(), 1);
    assert_eq!(s.read_u8(), Some(2));
    assert_eq!(s.read_exact(3), Some(vec![3, 4, 5]));
    assert_eq!(s.read_exact(1), None);
    s.seek(100);
    assert_eq!(s.read_u8(), None);
}
