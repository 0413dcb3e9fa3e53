use spice_client::canvas::{
    texture_coord_bits, texture_upload, textured_vertex, vertices, viewport_size, viewport_upload,
    QuadVertex, FLOAT_ONE_BITS, FLOAT_ZERO_BITS,
};

fn qv(x_halves: i128, y_halves: i128, u: u8, v: u8) -> QuadVertex {
    QuadVertex { x_halves, y_halves, u, v }
}

#[test]
fn vertices_of_800_by_600() {
    let vs = vertices(800, 600);
    assert_eq!(
        vs,
        [
            qv(-800, -600, 0, 1),
            qv(800, -600, 1, 1),
            qv(800, 600, 1, 0),
            qv(-800, -600, 0, 1),
            qv(800, 600, 1, 0),
            qv(-800, 600, 0, 0),
        ]
    );
}

#[test]
fn vertices_positions_halve_to_the_shader_positions() {
    // The shader position of a vertex is half of its half-pixel coordinate.
    let vs = vertices(1023, 767);
    assert_eq!(vs[1].x_halves as f32 / 2.0, 1023f32 / 2.);
    assert_eq!(vs[0].y_halves as f32 / 2.0, -(767f32 / 2.));
}

#[test]
fn vertices_of_an_empty_image() {
    let vs = vertices(0, 0);
    for v in vs.iter() {
        assert_eq!(v.x_halves, 0);
        assert_eq!(v.y_halves, 0);
    }
    assert_eq!(vs[1].u, 1);
}

#[test]
fn vertices_of_the_largest_image() {
    let vs = vertices(u64::MAX, u64::MAX);
    assert_eq!(vs[0].x_halves, -(u64::MAX as i128));
    assert_eq!(vs[2].y_halves, u64::MAX as i128);
}

#[test]
fn quad_triangles_wind_counter_clockwise() {
    let vs = vertices(4, 3);
    let area = |a: &QuadVertex, b: &QuadVertex, c: &QuadVertex| {
        (b.x_halves - a.x_halves) * (c.y_halves - a.y_halves)
            - (b.y_halves - a.y_halves) * (c.x_halves - a.x_halves)
    };
    assert_eq!(area(&vs[0], &vs[1], &vs[2]), 4 * 4 * 3);
    assert_eq!(area(&vs[3], &vs[4], &vs[5]), 4 * 4 * 3);
    assert_eq!(vs[0], vs[3]);
    assert_eq!(vs[2], vs[4]);
}

#[test]
fn vertex_lanes_lie_as_float_pairs_do() {
    let position: [f32; 2] = [1.5, -2.0];
    let coord: [f32; 2] = [0.0, 1.0];
    let v = textured_vertex([position[0].to_bits(), position[1].to_bits()], [coord[0].to_bits(), coord[1].to_bits()]);
    assert_eq!(v.position, position.map(f32::to_bits));
    assert_eq!(v.texture_coord, [0, 0x3f80_0000]);
}

#[test]
fn float_bit_constants() {
    assert_eq!(FLOAT_ONE_BITS, 1.0f32.to_bits());
    assert_eq!(FLOAT_ZERO_BITS, 0.0f32.to_bits());
}

#[test]
fn texture_coords_of_corners() {
    let vs = vertices(10, 10);
    assert_eq!(texture_coord_bits(&vs[0]), [0, 0x3f80_0000]);
    assert_eq!(texture_coord_bits(&vs[2]), [0x3f80_0000, 0]);
    assert_eq!(texture_coord_bits(&vs[5]), [0, 0]);
}

#[test]
fn textured_vertex_keeps_both_pairs() {
    let v = textured_vertex([1, 2], [0, 0x3f80_0000]);
    assert_eq!(v.position, [1, 2]);
    assert_eq!(v.texture_coord, [0, 0x3f80_0000]);
}

#[test]
fn texture_coords_other_than_zero_read_as_one() {
    let q = QuadVertex { x_halves: 0, y_halves: 0, u: 7, v: 0 };
    assert_eq!(texture_coord_bits(&q), [0x3f80_0000, 0]);
}

#[test]
fn viewport_size_truncates() {
    assert_eq!(viewport_size(800, 600), (800, 600));
    assert_eq!(viewport_size((1u64 << 32) + 5, 7), (5, 7));
}

#[test]
fn viewport_upload_holds_width_then_height() {
    let up = viewport_upload((800, 600));
    assert_eq!(up.words, [800, 600]);
    assert_eq!(up.byte_count, 8);
    assert_eq!(up.byte_count, std::mem::size_of_val(&up.words));
    assert_eq!(viewport_upload(viewport_size((1u64 << 32) + 5, 7)).words, [5, 7]);
}

#[test]
fn texture_upload_of_a_frame() {
    let t = texture_upload(3200, 600, 800);
    assert_eq!(t.byte_len, 1_920_000);
    assert_eq!(t.bytes_per_row, 3200);
    assert_eq!((t.width, t.height, t.depth), (800, 600, 1));
    let e = texture_upload(0, 0, 0);
    assert_eq!(e.byte_len, 0);
}
