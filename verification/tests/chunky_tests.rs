use voxel_client::chunky::{build_chunk, gen_face, Face, Vertex, CHUNK_CELLS};

fn v(x: usize, y: usize, z: usize) -> Vertex {
    Vertex { x, y, z }
}

fn idx(x: usize, y: usize, z: usize) -> usize {
    y * 1024 + z * 32 + x
}

fn chunk_with(cells: &[(usize, usize, usize)]) -> Box<[bool; CHUNK_CELLS]> {
    let mut c = Box::new([false; CHUNK_CELLS]);
    for &(x, y, z) in cells {
        c[idx(x, y, z)] = true;
    }
    c
}

#[test]
fn gen_face_front_appends_two_triangles() {
    let mut out = vec![v(9, 9, 9)];
    gen_face(Face::Front, (1, 2, 3), &mut out);
    assert_eq!(
        out,
        vec![v(9, 9, 9), v(1, 2, 4), v(2, 2, 4), v(2, 3, 4), v(1, 2, 4), v(2, 3, 4), v(1, 3, 4)]
    );
}

#[test]
fn gen_face_every_side() {
    let p = (4, 5, 6);
    let cases = [
        (Face::Back, [v(5, 5, 6), v(4, 5, 6), v(4, 6, 6), v(5, 6, 6)]),
        (Face::Left, [v(4, 5, 6), v(4, 5, 7), v(4, 6, 7), v(4, 6, 6)]),
        (Face::Right, [v(5, 5, 7), v(5, 5, 6), v(5, 6, 6), v(5, 6, 7)]),
        (Face::Up, [v(4, 6, 7), v(5, 6, 7), v(5, 6, 6), v(4, 6, 6)]),
        (Face::Down, [v(4, 5, 6), v(5, 5, 6), v(5, 5, 7), v(4, 5, 7)]),
    ];
    for (face, q) in cases {
        let mut out = Vec::new();
        gen_face(face, p, &mut out);
        assert_eq!(out, vec![q[0], q[1], q[2], q[0], q[2], q[3]]);
    }
}

#[test]
fn empty_chunk_has_no_mesh() {
    let c = chunk_with(&[]);
    assert!(build_chunk(&c).is_empty());
}

#[test]
fn lone_cell_shows_six_faces() {
    let c = chunk_with(&[(7, 8, 9)]);
    let mesh = build_chunk(&c);
    assert_eq!(mesh.len(), 36);
    let mut expected = Vec::new();
    for face in [Face::Down, Face::Up, Face::Front, Face::Back, Face::Left, Face::Right] {
        gen_face(face, (7, 8, 9), &mut expected);
    }
    assert_eq!(mesh, expected);
}

#[test]
fn corner_cell_shows_six_faces() {
    let c = chunk_with(&[(31, 31, 31)]);
    assert_eq!(build_chunk(&c).len(), 36);
}

#[test]
fn touching_cells_hide_shared_faces() {
    // Along x: the Right face of the first and the Left face of the second vanish.
    let c = chunk_with(&[(3, 3, 3), (4, 3, 3)]);
    assert_eq!(build_chunk(&c).len(), 60);
    // Along y.
    let c = chunk_with(&[(3, 3, 3), (3, 4, 3)]);
    assert_eq!(build_chunk(&c).len(), 60);
    // Along z.
    let c = chunk_with(&[(3, 3, 3), (3, 3, 4)]);
    assert_eq!(build_chunk(&c).len(), 60);
}

#[test]
fn front_face_is_decided_by_the_lower_z_neighbour() {
    // Cells at z = 3 and z = 4: the cell at z = 3 keeps its Front face (placed on
    // its z + 1 side) since its z - 1 neighbour is empty.
    let c = chunk_with(&[(3, 3, 3), (3, 3, 4)]);
    let mesh = build_chunk(&c);
    let mut front = Vec::new();
    gen_face(Face::Front, (3, 3, 3), &mut front);
    assert!(mesh.windows(6).any(|w| w == front.as_slice()));
}

#[test]
fn buried_cell_is_hidden() {
    let mut cells = Vec::new();
    for x in 4..7 {
        for y in 4..7 {
            for z in 4..7 {
                cells.push((x, y, z));
            }
        }
    }
    let c = chunk_with(&cells);
    let mesh = build_chunk(&c);
    // A 3x3x3 block shows 9 faces on each of its 6 sides.
    assert_eq!(mesh.len(), 6 * 9 * 6);
}

#[test]
fn full_chunk_mesh_is_bounded_and_whole() {
    let c = Box::new([true; CHUNK_CELLS]);
    let mesh = build_chunk(&c);
    assert_eq!(mesh.len() % 6, 0);
    assert_eq!(mesh.len(), 6 * 32 * 32 * 6);
    assert!(mesh.iter().all(|p| p.x <= 32 && p.y <= 32 && p.z <= 32));
}

fn edge(a: Vertex, b: Vertex) -> (i64, i64, i64) {
    (a.x as i64 - b.x as i64, a.y as i64 - b.y as i64, a.z as i64 - b.z as i64)
}

fn cross(a: (i64, i64, i64), b: (i64, i64, i64)) -> (i64, i64, i64) {
    (a.1 * b.2 - a.2 * b.1, a.2 * b.0 - a.0 * b.2, a.0 * b.1 - a.1 * b.0)
}

#[test]
fn faces_wind_counter_clockwise_from_outside() {
    let cases = [
        (Face::Front, (0, 0, 1)),
        (Face::Back, (0, 0, -1)),
        (Face::Left, (-1, 0, 0)),
        (Face::Right, (1, 0, 0)),
        (Face::Up, (0, 1, 0)),
        (Face::Down, (0, -1, 0)),
    ];
    for (face, normal) in cases {
        let mut m = Vec::new();
        gen_face(face, (10, 20, 30), &mut m);
        assert_eq!(cross(edge(m[1], m[0]), edge(m[2], m[0])), normal);
        assert_eq!(cross(edge(m[4], m[3]), edge(m[5], m[3])), normal);
    }
}
