//! Meshing of a chunk: every face of a solid cell that is not covered by a
//! solid neighbour becomes a quad of two triangles.
use vstd::prelude::*;

verus! {

/// Cells along each edge of a chunk.
pub const CHUNK_SIDE: usize = 32;

/// Cells in a chunk: a cube of `CHUNK_SIDE` cells along each edge.
pub const CHUNK_CELLS: usize = 32768;

/// The six sides of a cell.
#[derive(Clone, Copy, Debug, PartialEq, Eq, Structural)]
pub enum Face {
    Left,
    Right,
    Up,
    Down,
    Front,
    Back,
}

/// A mesh vertex on the lattice of cell corners. The vertex of cell
/// `(x, y, z)` at offset `±0.5` along an axis has lattice coordinate `x` for
/// `-0.5` and `x + 1` for `+0.5`; its position in space is each lattice
/// coordinate minus one half.
#[derive(Clone, Copy, Debug, PartialEq, Eq, Structural)]
pub struct Vertex {
    pub x: usize,
    pub y: usize,
    pub z: usize,
}

/// The lattice vertex at offset `(dx, dy, dz)` (each 0 or 1) from the lowest
/// corner of the cell at `p`.
pub open spec fn corner(p: (usize, usize, usize), dx: int, dy: int, dz: int) -> Vertex {
    Vertex { x: (p.0 + dx) as usize, y: (p.1 + dy) as usize, z: (p.2 + dz) as usize }
}

/// The four corners of a face of the cell at `p`, in drawing order.
pub open spec fn quad(face: Face, p: (usize, usize, usize)) -> Seq<Vertex> {
    match face {
        Face::Front => seq![corner(p, 0, 0, 1), corner(p, 1, 0, 1), corner(p, 1, 1, 1), corner(p, 0, 1, 1)],
        Face::Back => seq![corner(p, 1, 0, 0), corner(p, 0, 0, 0), corner(p, 0, 1, 0), corner(p, 1, 1, 0)],
        Face::Left => seq![corner(p, 0, 0, 0), corner(p, 0, 0, 1), corner(p, 0, 1, 1), corner(p, 0, 1, 0)],
        Face::Right => seq![corner(p, 1, 0, 1), corner(p, 1, 0, 0), corner(p, 1, 1, 0), corner(p, 1, 1, 1)],
        Face::Up => seq![corner(p, 0, 1, 1), corner(p, 1, 1, 1), corner(p, 1, 1, 0), corner(p, 0, 1, 0)],
        Face::Down => seq![corner(p, 0, 0, 0), corner(p, 1, 0, 0), corner(p, 1, 0, 1), corner(p, 0, 0, 1)],
    }
}

/// The six vertices that draw a face as the triangles `(v0, v1, v2)` and `(v0, v2, v3)`.
pub open spec fn face_mesh(face: Face, p: (usize, usize, usize)) -> Seq<Vertex> {
    let q = quad(face, p);
    seq![q[0], q[1], q[2], q[0], q[2], q[3]]
}

/// The position of a cell in a chunk's cell array.
pub open spec fn cell_index(x: int, y: int, z: int) -> int {
    y * 1024 + z * 32 + x
}

/// Whether a cell lies in the chunk.
pub open spec fn in_chunk(x: int, y: int, z: int) -> bool {
    &&& 0 <= x < 32
    &&& 0 <= y < 32
    &&& 0 <= z < 32
}

/// The offset of the cell whose solidity decides whether a face is drawn:
/// Down checks `y - 1`, Up `y + 1`, Front `z - 1`, Back `z + 1`, Left `x - 1`
/// and Right `x + 1`.
pub open spec fn neighbour_offset(face: Face) -> (int, int, int) {
    match face {
        Face::Down => (0, -1, 0),
        Face::Up => (0, 1, 0),
        Face::Front => (0, 0, -1),
        Face::Back => (0, 0, 1),
        Face::Left => (-1, 0, 0),
        Face::Right => (1, 0, 0),
    }
}

/// Whether the face of the solid cell `(x, y, z)` is drawn: it is drawn unless
/// the cell at its neighbour offset lies in the chunk and is solid.
pub open spec fn exposed(chunk: Seq<bool>, x: int, y: int, z: int, face: Face) -> bool {
    let (dx, dy, dz) = neighbour_offset(face);
    !in_chunk(x + dx, y + dy, z + dz) || !chunk[cell_index(x + dx, y + dy, z + dz)]
}

/// The vertices of one face of the cell at array position `i`, if drawn.
pub open spec fn face_if_exposed(chunk: Seq<bool>, i: int, face: Face) -> Seq<Vertex> {
    let x = i % 32;
    let z = (i / 32) % 32;
    let y = i / 1024;
    if exposed(chunk, x, y, z, face) {
        face_mesh(face, (x as usize, y as usize, z as usize))
    } else {
        Seq::empty()
    }
}

/// The vertices of the cell at array position `i`: nothing for an empty cell;
/// for a solid one its drawn faces in the order Down, Up, Front, Back, Left, Right.
pub open spec fn cell_mesh(chunk: Seq<bool>, i: int) -> Seq<Vertex> {
    if !chunk[i] {
        Seq::empty()
    } else {
        face_if_exposed(chunk, i, Face::Down) + face_if_exposed(chunk, i, Face::Up)
            + face_if_exposed(chunk, i, Face::Front) + face_if_exposed(chunk, i, Face::Back)
            + face_if_exposed(chunk, i, Face::Left) + face_if_exposed(chunk, i, Face::Right)
    }
}

/// The vertices of the first `n` cells, in array order.
pub open spec fn mesh_upto(chunk: Seq<bool>, n: nat) -> Seq<Vertex>
    decreases n,
{
    if n == 0 {
        Seq::empty()
    } else {
        mesh_upto(chunk, (n - 1) as nat) + cell_mesh(chunk, n - 1)
    }
}

/// The mesh of a whole chunk.
pub open spec fn chunk_mesh(chunk: Seq<bool>) -> Seq<Vertex> {
    mesh_upto(chunk, 32768)
}

/// Appends the two triangles of `face` of the cell at `position` to `out`.
pub fn gen_face(face: Face, position: (usize, usize, usize), out: &mut Vec<Vertex>)
    requires
        position.0 < usize::MAX,
        position.1 < usize::MAX,
        position.2 < usize::MAX,
    ensures
        final(out)@ == old(out)@ + face_mesh(face, position),
{
    let (px, py, pz) = position;
    let (lo_x, hi_x) = (px, px + 1);
    let (lo_y, hi_y) = (py, py + 1);
    let (lo_z, hi_z) = (pz, pz + 1);
    let (v0, v1, v2, v3) = match face {
        Face::Front => (
            Vertex { x: lo_x, y: lo_y, z: hi_z },
            Vertex { x: hi_x, y: lo_y, z: hi_z },
            Vertex { x: hi_x, y: hi_y, z: hi_z },
            Vertex { x: lo_x, y: hi_y, z: hi_z },
        ),
        Face::Back => (
            Vertex { x: hi_x, y: lo_y, z: lo_z },
            Vertex { x: lo_x, y: lo_y, z: lo_z },
            Vertex { x: lo_x, y: hi_y, z: lo_z },
            Vertex { x: hi_x, y: hi_y, z: lo_z },
        ),
        Face::Left => (
            Vertex { x: lo_x, y: lo_y, z: lo_z },
            Vertex { x: lo_x, y: lo_y, z: hi_z },
            Vertex { x: lo_x, y: hi_y, z: hi_z },
            Vertex { x: lo_x, y: hi_y, z: lo_z },
        ),
        Face::Right => (
            Vertex { x: hi_x, y: lo_y, z: hi_z },
            Vertex { x: hi_x, y: lo_y, z: lo_z },
            Vertex { x: hi_x, y: hi_y, z: lo_z },
            Vertex { x: hi_x, y: hi_y, z: hi_z },
        ),
        Face::Up => (
            Vertex { x: lo_x, y: hi_y, z: hi_z },
            Vertex { x: hi_x, y: hi_y, z: hi_z },
            Vertex { x: hi_x, y: hi_y, z: lo_z },
            Vertex { x: lo_x, y: hi_y, z: lo_z },
        ),
        Face::Down => (
            Vertex { x: lo_x, y: lo_y, z: lo_z },
            Vertex { x: hi_x, y: lo_y, z: lo_z },
            Vertex { x: hi_x, y: lo_y, z: hi_z },
            Vertex { x: lo_x, y: lo_y, z: hi_z },
        ),
    };
    out.push(v0);
    out.push(v1);
    out.push(v2);
    out.push(v0);
    out.push(v2);
    out.push(v3);
    assert(out@ =~= old(out)@ + face_mesh(face, position));
}

/// The coordinates of the cell at array position `i`, and that they index it back.
proof fn lemma_cell_coordinates(i: int)
    requires
        0 <= i < 32768,
    ensures
        0 <= i % 32 < 32,
        0 <= (i / 32) % 32 < 32,
        0 <= i / 1024 < 32,
        cell_index(i % 32, i / 1024, (i / 32) % 32) == i,
{
    assert(0 <= i / 1024 < 32) by (nonlinear_arith)
        requires
            0 <= i < 32768,
    ;
    assert(cell_index(i % 32, i / 1024, (i / 32) % 32) == i) by (nonlinear_arith)
        requires
            0 <= i < 32768,
    ;
}

/// The array position of the cell `(x, y, z)`.
fn index_of(x: usize, y: usize, z: usize) -> (r: usize)
    requires
        x < CHUNK_SIDE,
        y < CHUNK_SIDE,
        z < CHUNK_SIDE,
    ensures
        r == cell_index(x as int, y as int, z as int),
        r < CHUNK_CELLS,
{
    assert(CHUNK_SIDE * CHUNK_SIDE == 1024);
    assert(y * 1024 <= 31 * 1024) by (nonlinear_arith)
        requires
            y < 32,
    ;
    assert(z * 32 <= 31 * 32) by (nonlinear_arith)
        requires
            z < 32,
    ;
    y * (CHUNK_SIDE * CHUNK_SIDE) + z * CHUNK_SIDE + x
}

/// Appending six pieces one after another appends their concatenation.
proof fn lemma_append_six(
    start: Seq<Vertex>,
    a: Seq<Vertex>,
    b: Seq<Vertex>,
    c: Seq<Vertex>,
    d: Seq<Vertex>,
    e: Seq<Vertex>,
    f: Seq<Vertex>,
)
    ensures
        start + a + b + c + d + e + f == start + (a + b + c + d + e + f),
{
    assert(start + a + b =~= start + (a + b));
    assert(start + a + b + c =~= start + (a + b + c));
    assert(start + a + b + c + d =~= start + (a + b + c + d));
    assert(start + a + b + c + d + e =~= start + (a + b + c + d + e));
    assert(start + a + b + c + d + e + f =~= start + (a + b + c + d + e + f));
}

/// Whether `face` of the solid cell `(x, y, z)` is drawn.
fn face_drawn(chunk: &[bool; 32768], x: usize, y: usize, z: usize, face: Face) -> (d: bool)
    requires
        x < CHUNK_SIDE,
        y < CHUNK_SIDE,
        z < CHUNK_SIDE,
    ensures
        d == exposed(chunk@, x as int, y as int, z as int, face),
{
    match face {
        Face::Down => y == 0 || !chunk[index_of(x, y - 1, z)],
        Face::Up => y == CHUNK_SIDE - 1 || !chunk[index_of(x, y + 1, z)],
        Face::Front => z == 0 || !chunk[index_of(x, y, z - 1)],
        Face::Back => z == CHUNK_SIDE - 1 || !chunk[index_of(x, y, z + 1)],
        Face::Left => x == 0 || !chunk[index_of(x - 1, y, z)],
        Face::Right => x == CHUNK_SIDE - 1 || !chunk[index_of(x + 1, y, z)],
    }
}

/// Appends `face` of the solid cell at array position `i`, whose coordinates
/// are `(x, y, z)`, to `out` when it is drawn.
fn emit_face(chunk: &[bool; 32768], i: usize, x: usize, y: usize, z: usize, face: Face, out: &mut Vec<Vertex>)
    requires
        i < CHUNK_CELLS,
        x == i % 32,
        z == (i / 32) % 32,
        y == i / 1024,
        x < CHUNK_SIDE,
        y < CHUNK_SIDE,
        z < CHUNK_SIDE,
    ensures
        final(out)@ == old(out)@ + face_if_exposed(chunk@, i as int, face),
{
    let drawn = face_drawn(chunk, x, y, z, face);
    if drawn {
        gen_face(face, (x, y, z), out);
    } else {
        assert(out@ =~= old(out)@ + Seq::<Vertex>::empty());
    }
}

/// Appends the drawn faces of the cell at array position `i` to `out`.
fn mesh_cell(chunk: &[bool; 32768], i: usize, out: &mut Vec<Vertex>)
    requires
        i < CHUNK_CELLS,
    ensures
        final(out)@ == old(out)@ + cell_mesh(chunk@, i as int),
{
    if !chunk[i] {
        assert(out@ =~= old(out)@ + cell_mesh(chunk@, i as int));
        return;
    }
    assert(CHUNK_SIDE * CHUNK_SIDE == 1024);
    let x = i % CHUNK_SIDE;
    let z = (i / CHUNK_SIDE) % CHUNK_SIDE;
    let y = i / (CHUNK_SIDE * CHUNK_SIDE);
    proof {
        lemma_cell_coordinates(i as int);
    }
    let ghost c = chunk@;
    let ghost ii = i as int;
    let ghost start = out@;
    emit_face(chunk, i, x, y, z, Face::Down, out);
    emit_face(chunk, i, x, y, z, Face::Up, out);
    emit_face(chunk, i, x, y, z, Face::Front, out);
    emit_face(chunk, i, x, y, z, Face::Back, out);
    emit_face(chunk, i, x, y, z, Face::Left, out);
    emit_face(chunk, i, x, y, z, Face::Right, out);
    proof {
        lemma_append_six(
            start,
            face_if_exposed(c, ii, Face::Down),
            face_if_exposed(c, ii, Face::Up),
            face_if_exposed(c, ii, Face::Front),
            face_if_exposed(c, ii, Face::Back),
            face_if_exposed(c, ii, Face::Left),
            face_if_exposed(c, ii, Face::Right),
        );
    }
}

/// The mesh of a chunk given by which of its cells are solid (cell `(x, y, z)`
/// at array position `y * 1024 + z * 32 + x`): the drawn faces of every
/// solid cell, cell by cell in array order.
pub fn build_chunk(chunk: &[bool; 32768]) -> (mesh: Vec<Vertex>)
    ensures
        mesh@ == chunk_mesh(chunk@),
{
    let mut render_chunk: Vec<Vertex> = Vec::new();
    for i in 0..CHUNK_CELLS
        invariant
            render_chunk@ == mesh_upto(chunk@, i as nat),
    {
        mesh_cell(chunk, i, &mut render_chunk);
    }
    render_chunk
}

/// The outward normal of a face of a cell.
pub open spec fn normal(face: Face) -> (int, int, int) {
    match face {
        Face::Front => (0, 0, 1),
        Face::Back => (0, 0, -1),
        Face::Left => (-1, 0, 0),
        Face::Right => (1, 0, 0),
        Face::Up => (0, 1, 0),
        Face::Down => (0, -1, 0),
    }
}

/// The vector from `b` to `a`.
pub open spec fn edge(a: Vertex, b: Vertex) -> (int, int, int) {
    (a.x - b.x, a.y - b.y, a.z - b.z)
}

/// The cross product of two vectors.
pub open spec fn cross(a: (int, int, int), b: (int, int, int)) -> (int, int, int) {
    (a.1 * b.2 - a.2 * b.1, a.2 * b.0 - a.0 * b.2, a.0 * b.1 - a.1 * b.0)
}

/// Both triangles of every face wind counter-clockwise seen from outside the
/// cell: the cross product of their edges is the face's outward unit normal.
pub proof fn lemma_faces_wind_outward(face: Face, p: (usize, usize, usize))
    requires
        p.0 < usize::MAX,
        p.1 < usize::MAX,
        p.2 < usize::MAX,
    ensures
        ({
            let m = face_mesh(face, p);
            &&& cross(edge(m[1], m[0]), edge(m[2], m[0])) == normal(face)
            &&& cross(edge(m[4], m[3]), edge(m[5], m[3])) == normal(face)
        }),
{
    let m = face_mesh(face, p);
    let e1 = edge(m[1], m[0]);
    let e2 = edge(m[2], m[0]);
    let e3 = edge(m[5], m[3]);
    match face {
        Face::Front => {
            assert(e1 == (1int, 0int, 0int) && e2 == (1int, 1int, 0int) && e3 == (0int, 1int, 0int));
            assert(cross(e1, e2) == normal(face) && cross(e2, e3) == normal(face)) by (nonlinear_arith)
                requires
                    face == Face::Front,
                    e1 == (1int, 0int, 0int),
                    e2 == (1int, 1int, 0int),
                    e3 == (0int, 1int, 0int),
            ;
        },
        Face::Back => {
            assert(e1 == (-1int, 0int, 0int) && e2 == (-1int, 1int, 0int) && e3 == (0int, 1int, 0int));
            assert(cross(e1, e2) == normal(face) && cross(e2, e3) == normal(face)) by (nonlinear_arith)
                requires
                    face == Face::Back,
                    e1 == (-1int, 0int, 0int),
                    e2 == (-1int, 1int, 0int),
                    e3 == (0int, 1int, 0int),
            ;
        },
        Face::Left => {
            assert(e1 == (0int, 0int, 1int) && e2 == (0int, 1int, 1int) && e3 == (0int, 1int, 0int));
            assert(cross(e1, e2) == normal(face) && cross(e2, e3) == normal(face)) by (nonlinear_arith)
                requires
                    face == Face::Left,
                    e1 == (0int, 0int, 1int),
                    e2 == (0int, 1int, 1int),
                    e3 == (0int, 1int, 0int),
            ;
        },
        Face::Right => {
            assert(e1 == (0int, 0int, -1int) && e2 == (0int, 1int, -1int) && e3 == (0int, 1int, 0int));
            assert(cross(e1, e2) == normal(face) && cross(e2, e3) == normal(face)) by (nonlinear_arith)
                requires
                    face == Face::Right,
                    e1 == (0int, 0int, -1int),
                    e2 == (0int, 1int, -1int),
                    e3 == (0int, 1int, 0int),
            ;
        },
        Face::Up => {
            assert(e1 == (1int, 0int, 0int) && e2 == (1int, 0int, -1int) && e3 == (0int, 0int, -1int));
            assert(cross(e1, e2) == normal(face) && cross(e2, e3) == normal(face)) by (nonlinear_arith)
                requires
                    face == Face::Up,
                    e1 == (1int, 0int, 0int),
                    e2 == (1int, 0int, -1int),
                    e3 == (0int, 0int, -1int),
            ;
        },
        Face::Down => {
            assert(e1 == (1int, 0int, 0int) && e2 == (1int, 0int, 1int) && e3 == (0int, 0int, 1int));
            assert(cross(e1, e2) == normal(face) && cross(e2, e3) == normal(face)) by (nonlinear_arith)
                requires
                    face == Face::Down,
                    e1 == (1int, 0int, 0int),
                    e2 == (1int, 0int, 1int),
                    e3 == (0int, 0int, 1int),
            ;
        },
    }
    assert(edge(m[4], m[3]) == e2);
}

/// Every vertex of a face is a corner of its cell, and lies on the side of
/// the cell that the face's outward normal points to.
pub proof fn lemma_face_on_its_side(face: Face, p: (usize, usize, usize), k: int)
    requires
        p.0 < usize::MAX,
        p.1 < usize::MAX,
        p.2 < usize::MAX,
        0 <= k < 6,
    ensures
        ({
            let v = face_mesh(face, p)[k];
            let n = normal(face);
            &&& p.0 <= v.x <= p.0 + 1
            &&& p.1 <= v.y <= p.1 + 1
            &&& p.2 <= v.z <= p.2 + 1
            &&& n.0 != 0 ==> v.x == p.0 + (if n.0 > 0 { 1int } else { 0 })
            &&& n.1 != 0 ==> v.y == p.1 + (if n.1 > 0 { 1int } else { 0 })
            &&& n.2 != 0 ==> v.z == p.2 + (if n.2 > 0 { 1int } else { 0 })
        }),
{
}

/// For the Down, Up, Left and Right faces, the cell whose solidity decides
/// whether the face is drawn is the one the face looks at: the neighbour
/// offset is the outward normal. (For Front and Back it is the opposite one.)
pub proof fn lemma_checked_neighbour_is_faced(face: Face)
    requires
        face != Face::Front,
        face != Face::Back,
    ensures
        neighbour_offset(face) == normal(face),
{
}

/// The array position of a cell gives back its coordinates.
proof fn lemma_index_coordinates(x: int, y: int, z: int)
    requires
        in_chunk(x, y, z),
    ensures
        0 <= cell_index(x, y, z) < 32768,
        cell_index(x, y, z) % 32 == x,
        (cell_index(x, y, z) / 32) % 32 == z,
        cell_index(x, y, z) / 1024 == y,
{
    assert(0 <= cell_index(x, y, z) < 32768) by (nonlinear_arith)
        requires
            in_chunk(x, y, z),
    ;
    assert(cell_index(x, y, z) % 32 == x && (cell_index(x, y, z) / 32) % 32 == z
        && cell_index(x, y, z) / 1024 == y) by (nonlinear_arith)
        requires
            in_chunk(x, y, z),
    ;
}

/// A solid cell whose six neighbours all lie in the chunk and are solid
/// contributes no vertex to the mesh.
pub proof fn lemma_buried_cell_is_hidden(chunk: Seq<bool>, x: int, y: int, z: int)
    requires
        chunk.len() == 32768,
        0 < x < 31,
        0 < y < 31,
        0 < z < 31,
        chunk[cell_index(x - 1, y, z)],
        chunk[cell_index(x + 1, y, z)],
        chunk[cell_index(x, y - 1, z)],
        chunk[cell_index(x, y + 1, z)],
        chunk[cell_index(x, y, z - 1)],
        chunk[cell_index(x, y, z + 1)],
    ensures
        cell_mesh(chunk, cell_index(x, y, z)) == Seq::<Vertex>::empty(),
{
    lemma_index_coordinates(x, y, z);
    let i = cell_index(x, y, z);
    assert(face_if_exposed(chunk, i, Face::Down) =~= Seq::<Vertex>::empty());
    assert(face_if_exposed(chunk, i, Face::Up) =~= Seq::<Vertex>::empty());
    assert(face_if_exposed(chunk, i, Face::Front) =~= Seq::<Vertex>::empty());
    assert(face_if_exposed(chunk, i, Face::Back) =~= Seq::<Vertex>::empty());
    assert(face_if_exposed(chunk, i, Face::Left) =~= Seq::<Vertex>::empty());
    assert(face_if_exposed(chunk, i, Face::Right) =~= Seq::<Vertex>::empty());
    if chunk[i] {
        assert(cell_mesh(chunk, i) =~= Seq::<Vertex>::empty());
    }
}

/// A chunk without solid cells has an empty mesh.
pub proof fn lemma_empty_chunk_has_no_mesh(chunk: Seq<bool>)
    requires
        chunk.len() == 32768,
        forall|i: int| 0 <= i < 32768 ==> !chunk[i],
    ensures
        chunk_mesh(chunk) == Seq::<Vertex>::empty(),
{
    lemma_empty_prefix_has_no_mesh(chunk, 32768);
}

proof fn lemma_empty_prefix_has_no_mesh(chunk: Seq<bool>, n: nat)
    requires
        n <= chunk.len(),
        forall|i: int| 0 <= i < n ==> !chunk[i],
    ensures
        mesh_upto(chunk, n) == Seq::<Vertex>::empty(),
    decreases n,
{
    if n > 0 {
        lemma_empty_prefix_has_no_mesh(chunk, (n - 1) as nat);
        assert(mesh_upto(chunk, n) =~= Seq::<Vertex>::empty());
    }
}

/// Whether a vertex lies in the chunk's bounding box `[0, 32]` along every axis.
pub open spec fn within_chunk(v: Vertex) -> bool {
    v.x <= 32 && v.y <= 32 && v.z <= 32
}

/// The mesh consists of whole faces (its length is a multiple of six), and
/// every vertex lies within the chunk's bounding box.
pub proof fn lemma_mesh_whole_and_bounded(chunk: Seq<bool>)
    requires
        chunk.len() == 32768,
    ensures
        chunk_mesh(chunk).len() % 6 == 0,
        forall|k: int| 0 <= k < chunk_mesh(chunk).len() ==> within_chunk(#[trigger] chunk_mesh(chunk)[k]),
{
    lemma_prefix_whole_and_bounded(chunk, 32768);
}

proof fn lemma_face_if_exposed_bounded(chunk: Seq<bool>, i: int, face: Face)
    requires
        0 <= i < 32768,
    ensures
        face_if_exposed(chunk, i, face).len() % 6 == 0,
        forall|k: int|
            0 <= k < face_if_exposed(chunk, i, face).len() ==> within_chunk(
                #[trigger] face_if_exposed(chunk, i, face)[k],
            ),
{
    lemma_cell_coordinates(i);
    let p = ((i % 32) as usize, (i / 1024) as usize, ((i / 32) % 32) as usize);
    assert forall|k: int| 0 <= k < face_if_exposed(chunk, i, face).len() implies within_chunk(
        #[trigger] face_if_exposed(chunk, i, face)[k],
    ) by {
        lemma_face_on_its_side(face, p, k);
    }
}

proof fn lemma_cell_mesh_bounded(chunk: Seq<bool>, i: int)
    requires
        0 <= i < 32768,
    ensures
        cell_mesh(chunk, i).len() % 6 == 0,
        forall|k: int| 0 <= k < cell_mesh(chunk, i).len() ==> within_chunk(#[trigger] cell_mesh(chunk, i)[k]),
{
    if chunk[i] {
        let d = face_if_exposed(chunk, i, Face::Down);
        let u = face_if_exposed(chunk, i, Face::Up);
        let f = face_if_exposed(chunk, i, Face::Front);
        let b = face_if_exposed(chunk, i, Face::Back);
        let l = face_if_exposed(chunk, i, Face::Left);
        let r = face_if_exposed(chunk, i, Face::Right);
        lemma_face_if_exposed_bounded(chunk, i, Face::Down);
        lemma_face_if_exposed_bounded(chunk, i, Face::Up);
        lemma_face_if_exposed_bounded(chunk, i, Face::Front);
        lemma_face_if_exposed_bounded(chunk, i, Face::Back);
        lemma_face_if_exposed_bounded(chunk, i, Face::Left);
        lemma_face_if_exposed_bounded(chunk, i, Face::Right);
        lemma_concat_bounded(d, u);
        lemma_concat_bounded(d + u, f);
        lemma_concat_bounded(d + u + f, b);
        lemma_concat_bounded(d + u + f + b, l);
        lemma_concat_bounded(d + u + f + b + l, r);
    }
}

proof fn lemma_concat_bounded(a: Seq<Vertex>, b: Seq<Vertex>)
    requires
        a.len() % 6 == 0,
        b.len() % 6 == 0,
        forall|k: int| 0 <= k < a.len() ==> within_chunk(#[trigger] a[k]),
        forall|k: int| 0 <= k < b.len() ==> within_chunk(#[trigger] b[k]),
    ensures
        (a + b).len() % 6 == 0,
        forall|k: int| 0 <= k < (a + b).len() ==> within_chunk(#[trigger] (a + b)[k]),
{
    assert forall|k: int| 0 <= k < (a + b).len() implies within_chunk(#[trigger] (a + b)[k]) by {
        if k < a.len() {
            assert((a + b)[k] == a[k]);
        } else {
            assert((a + b)[k] == b[k - a.len()]);
        }
    }
}

proof fn lemma_prefix_whole_and_bounded(chunk: Seq<bool>, n: nat)
    requires
        n <= 32768,
    ensures
        mesh_upto(chunk, n).len() % 6 == 0,
        forall|k: int| 0 <= k < mesh_upto(chunk, n).len() ==> within_chunk(#[trigger] mesh_upto(chunk, n)[k]),
    decreases n,
{
    if n > 0 {
        lemma_prefix_whole_and_bounded(chunk, (n - 1) as nat);
        lemma_cell_mesh_bounded(chunk, n - 1);
        lemma_concat_bounded(mesh_upto(chunk, (n - 1) as nat), cell_mesh(chunk, n - 1));
    }
}

/// A face of the cell `(x, y, z)` is drawn exactly when the one cell across
/// its checked side lies outside the chunk or is empty: Down looks at
/// `y - 1`, Up at `y + 1`, Front at `z - 1`, Back at `z + 1`, Left at `x - 1`
/// and Right at `x + 1`.
pub proof fn lemma_face_drawn_iff_neighbour_open(chunk: Seq<bool>, x: int, y: int, z: int)
    requires
        chunk.len() == 32768,
        in_chunk(x, y, z),
    ensures
        ({
            let i = cell_index(x, y, z);
            let p = (x as usize, y as usize, z as usize);
            &&& face_if_exposed(chunk, i, Face::Down) == if y == 0 || !chunk[cell_index(x, y - 1, z)] {
                face_mesh(Face::Down, p)
            } else {
                Seq::empty()
            }
            &&& face_if_exposed(chunk, i, Face::Up) == if y == 31 || !chunk[cell_index(x, y + 1, z)] {
                face_mesh(Face::Up, p)
            } else {
                Seq::empty()
            }
            &&& face_if_exposed(chunk, i, Face::Front) == if z == 0 || !chunk[cell_index(x, y, z - 1)] {
                face_mesh(Face::Front, p)
            } else {
                Seq::empty()
            }
            &&& face_if_exposed(chunk, i, Face::Back) == if z == 31 || !chunk[cell_index(x, y, z + 1)] {
                face_mesh(Face::Back, p)
            } else {
                Seq::empty()
            }
            &&& face_if_exposed(chunk, i, Face::Left) == if x == 0 || !chunk[cell_index(x - 1, y, z)] {
                face_mesh(Face::Left, p)
            } else {
                Seq::empty()
            }
            &&& face_if_exposed(chunk, i, Face::Right) == if x == 31 || !chunk[cell_index(x + 1, y, z)] {
                face_mesh(Face::Right, p)
            } else {
                Seq::empty()
            }
        }),
{
    lemma_index_coordinates(x, y, z);
}

/// What a cell contributes to the mesh depends only on the cell itself and
/// its six face neighbours in the chunk: two chunks that agree there give the
/// cell the same vertices, whatever the other cells hold.
pub proof fn lemma_cell_mesh_is_local(c1: Seq<bool>, c2: Seq<bool>, x: int, y: int, z: int)
    requires
        c1.len() == 32768,
        c2.len() == 32768,
        in_chunk(x, y, z),
        c1[cell_index(x, y, z)] == c2[cell_index(x, y, z)],
        in_chunk(x - 1, y, z) ==> c1[cell_index(x - 1, y, z)] == c2[cell_index(x - 1, y, z)],
        in_chunk(x + 1, y, z) ==> c1[cell_index(x + 1, y, z)] == c2[cell_index(x + 1, y, z)],
        in_chunk(x, y - 1, z) ==> c1[cell_index(x, y - 1, z)] == c2[cell_index(x, y - 1, z)],
        in_chunk(x, y + 1, z) ==> c1[cell_index(x, y + 1, z)] == c2[cell_index(x, y + 1, z)],
        in_chunk(x, y, z - 1) ==> c1[cell_index(x, y, z - 1)] == c2[cell_index(x, y, z - 1)],
        in_chunk(x, y, z + 1) ==> c1[cell_index(x, y, z + 1)] == c2[cell_index(x, y, z + 1)],
    ensures
        cell_mesh(c1, cell_index(x, y, z)) == cell_mesh(c2, cell_index(x, y, z)),
{
    lemma_face_drawn_iff_neighbour_open(c1, x, y, z);
    lemma_face_drawn_iff_neighbour_open(c2, x, y, z);
}

} // verus!
