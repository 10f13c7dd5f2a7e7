use rotating_cube::shape::{create_vertices, cube_data};

#[test]
fn cube_positions_match_table() {
    let (positions, _, _, _) = cube_data();
    let expected: Vec<[i8; 3]> = vec![
        // front
        [-1, -1, 1], [1, -1, 1], [-1, 1, 1], [-1, 1, 1], [1, -1, 1], [1, 1, 1],
        // right
        [1, -1, 1], [1, -1, -1], [1, 1, 1], [1, 1, 1], [1, -1, -1], [1, 1, -1],
        // back
        [1, -1, -1], [-1, -1, -1], [1, 1, -1], [1, 1, -1], [-1, -1, -1], [-1, 1, -1],
        // left
        [-1, -1, -1], [-1, -1, 1], [-1, 1, -1], [-1, 1, -1], [-1, -1, 1], [-1, 1, 1],
        // top
        [-1, 1, 1], [1, 1, 1], [-1, 1, -1], [-1, 1, -1], [1, 1, 1], [1, 1, -1],
        // bottom
        [-1, -1, -1], [1, -1, -1], [-1, -1, 1], [-1, -1, 1], [1, -1, -1], [1, -1, 1],
    ];
    assert_eq!(positions, expected);
}

#[test]
fn cube_colors_match_table() {
    let (_, colors, _, _) = cube_data();
    assert_eq!(colors.len(), 36);
    let face_colors: [[i8; 3]; 6] =
        [[0, 0, 1], [1, 0, 0], [1, 1, 0], [0, 1, 1], [0, 1, 0], [1, 0, 1]];
    for (i, c) in colors.iter().enumerate() {
        assert_eq!(*c, face_colors[i / 6]);
    }
}

#[test]
fn cube_uvs_match_table() {
    let (_, _, uvs, _) = cube_data();
    assert_eq!(uvs.len(), 36);
    let pattern: [[i8; 2]; 6] = [[0, 0], [1, 0], [0, 1], [0, 1], [1, 0], [1, 1]];
    for (i, uv) in uvs.iter().enumerate() {
        assert_eq!(*uv, pattern[i % 6]);
    }
}

#[test]
fn cube_normals_match_table() {
    let (_, _, _, normals) = cube_data();
    assert_eq!(normals.len(), 36);
    let face_normals: [[i8; 3]; 6] =
        [[0, 0, 1], [1, 0, 0], [0, 0, -1], [-1, 0, 0], [0, 1, 0], [0, -1, 0]];
    for (i, n) in normals.iter().enumerate() {
        assert_eq!(*n, face_normals[i / 6]);
    }
}

#[test]
fn vertices_pair_positions_with_colors() {
    let (positions, colors, _, _) = cube_data();
    let vertices = create_vertices();
    assert_eq!(vertices.len(), 36);
    for i in 0..36 {
        let p = positions[i];
        let c = colors[i];
        assert_eq!(vertices[i].position, [p[0], p[1], p[2], 1]);
        assert_eq!(vertices[i].color, [c[0], c[1], c[2], 1]);
    }
}

#[test]
fn first_and_last_vertices() {
    let vertices = create_vertices();
    assert_eq!(vertices[0].position, [-1, -1, 1, 1]);
    assert_eq!(vertices[0].color, [0, 0, 1, 1]);
    assert_eq!(vertices[35].position, [1, -1, 1, 1]);
    assert_eq!(vertices[35].color, [1, 0, 1, 1]);
}

#[test]
fn every_vertex_on_its_face_plane() {
    // each vertex of face f has dot product 1 with the face's normal
    let (positions, _, _, normals) = cube_data();
    for i in 0..36 {
        let p = positions[i];
        let n = normals[i];
        let dot: i32 =
            p[0] as i32 * n[0] as i32 + p[1] as i32 * n[1] as i32 + p[2] as i32 * n[2] as i32;
        assert_eq!(dot, 1, "vertex {} off its face plane", i);
    }
}

#[test]
fn every_position_is_a_corner() {
    let (positions, _, _, _) = cube_data();
    for p in &positions {
        for k in 0..3 {
            assert!(p[k] == 1 || p[k] == -1);
        }
    }
}

#[test]
fn triangles_share_their_diagonal() {
    let (positions, _, _, _) = cube_data();
    for f in 0..6 {
        assert_eq!(positions[6 * f + 3], positions[6 * f + 2]);
        assert_eq!(positions[6 * f + 4], positions[6 * f + 1]);
    }
}
