use boulder_dash::geometry::{
    buffer_size_bytes, sprite_quad, vertex_attributes, vertex_count, QuadVertex, VertexAttrib,
    FLOATS_PER_VERTEX, SPRITE_PIXELS,
};

#[test]
fn quad_is_two_triangles_over_the_first_sprite() {
    let q = sprite_quad();
    assert_eq!(q.len(), 6);
    assert_eq!(q[0], QuadVertex { x: -1, y: 1, u: 0, v: 0 });
    assert_eq!(q[1], QuadVertex { x: 1, y: -1, u: 32, v: 32 });
    assert_eq!(q[2], QuadVertex { x: -1, y: -1, u: 0, v: 32 });
    assert_eq!(q[3], q[0]);
    assert_eq!(q[4], QuadVertex { x: 1, y: 1, u: 32, v: 0 });
    assert_eq!(q[5], q[1]);
    assert_eq!(SPRITE_PIXELS, 32);
}

#[test]
fn attributes_are_interleaved() {
    let a = vertex_attributes();
    assert_eq!(
        a,
        vec![
            VertexAttrib { index: 0, components: 3, stride_bytes: 20, offset_bytes: 0 },
            VertexAttrib { index: 1, components: 2, stride_bytes: 20, offset_bytes: 12 },
        ]
    );
}

#[test]
fn quad_buffer_holds_six_vertices() {
    let floats = sprite_quad().len() * FLOATS_PER_VERTEX;
    assert_eq!(floats, 30);
    assert_eq!(vertex_count(floats), Some(6));
    assert_eq!(buffer_size_bytes(floats), Some(120));
}

#[test]
fn partial_vertex_is_rejected() {
    assert_eq!(vertex_count(31), None);
    assert_eq!(vertex_count(0), Some(0));
}

#[test]
fn too_many_vertices_are_rejected() {
    let most = i32::MAX as usize * FLOATS_PER_VERTEX;
    assert_eq!(vertex_count(most), Some(i32::MAX));
    assert_eq!(vertex_count(most + FLOATS_PER_VERTEX), None);
}

#[test]
fn buffer_size_limits() {
    assert_eq!(buffer_size_bytes(0), Some(0));
    let most = isize::MAX as usize / 4;
    assert_eq!(buffer_size_bytes(most), Some((most * 4) as isize));
    assert_eq!(buffer_size_bytes(most + 1), None);
}
