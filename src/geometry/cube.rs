use vstd::prelude::*;

verus! {

/// One face of a box: the axes that its grid runs along (`u`, `v`), the axis
/// that it faces (`w`), the sign of each grid axis, the face's extent along
/// `u` and `v`, and its signed distance along `w` (twice the half-depth).
#[derive(Clone, Copy, Debug, PartialEq, Eq, Structural)]
pub struct CubeFace {
    pub u: usize,
    pub v: usize,
    pub w: usize,
    pub udir: i32,
    pub vdir: i32,
    pub width: i32,
    pub height: i32,
    pub depth: i32,
}

pub open spec fn negated_if(x: int, negate: bool) -> int {
    if negate {
        -x
    } else {
        x
    }
}

impl CubeFace {
    /// The axes are a permutation of x, y, z and each direction is a sign.
    pub open spec fn wf(self) -> bool {
        &&& self.u < 3 && self.v < 3 && self.w < 3
        &&& self.u != self.v && self.v != self.w && self.u != self.w
        &&& (self.udir == 1 || self.udir == -1)
        &&& (self.vdir == 1 || self.vdir == -1)
    }

    /// Axis `axis` of the corner at grid point (ix, iy), in half units:
    /// along `u` and `v` the corner lies at minus or plus half the extent,
    /// along `w` at half the depth.
    pub open spec fn corner_coordinate(self, ix: int, iy: int, axis: int) -> int {
        if axis == self.u {
            negated_if(negated_if(self.width as int, ix == 0), self.udir == -1)
        } else if axis == self.v {
            negated_if(negated_if(self.height as int, iy == 0), self.vdir == -1)
        } else {
            self.depth as int
        }
    }

    /// Axis `axis` of the face's outward normal.
    pub open spec fn normal_coordinate(self, axis: int) -> int {
        if axis == self.w {
            if self.depth > 0 { 1 } else { -1 }
        } else {
            0
        }
    }

    /// The `k`-th corner (row by row: ix runs fastest) as three coordinates.
    pub open spec fn corner(self, k: int) -> Seq<i64> {
        seq![
            self.corner_coordinate(k % 2, k / 2, 0) as i64,
            self.corner_coordinate(k % 2, k / 2, 1) as i64,
            self.corner_coordinate(k % 2, k / 2, 2) as i64,
        ]
    }

    pub open spec fn normal(self) -> Seq<i8> {
        seq![
            self.normal_coordinate(0) as i8,
            self.normal_coordinate(1) as i8,
            self.normal_coordinate(2) as i8,
        ]
    }

    /// The first `n` corners, flattened.
    pub open spec fn corners(self, n: nat) -> Seq<i64>
        decreases n,
    {
        if n == 0 {
            seq![]
        } else {
            self.corners((n - 1) as nat) + self.corner(n - 1)
        }
    }

    /// The normal repeated for `n` corners.
    pub open spec fn normals(self, n: nat) -> Seq<i8>
        decreases n,
    {
        if n == 0 {
            seq![]
        } else {
            self.normals((n - 1) as nat) + self.normal()
        }
    }
}

/// The two counter-clockwise triangles of a face whose first corner has
/// index `n`: corners a = n, b = n + 2, c = n + 3, d = n + 1 as (a, b, d)
/// and (b, c, d).
pub open spec fn spec_face_indices(n: int) -> Seq<u16> {
    seq![n as u16, (n + 2) as u16, (n + 1) as u16, (n + 2) as u16, (n + 3) as u16, (n + 1) as u16]
}

/// A box mesh: 4 corners for each of its 6 faces, each with the face's
/// normal, and 2 triangles per face.
pub struct Cube {
    pub indices: Vec<u16>,
    /// Corner positions, three per corner, in half units: each value is
    /// twice the coordinate.
    pub vertices: Vec<i64>,
    /// Outward normals, three per corner, each coordinate -1, 0 or 1.
    pub normals: Vec<i8>,
}

/// The six faces of a box `w` wide, `h` high and `d` deep, centred on the
/// origin, in the order +x, -x, +y, -y, +z, -z.
pub open spec fn spec_cube_faces(w: i32, h: i32, d: i32) -> Seq<CubeFace> {
    seq![
        CubeFace { u: 2, v: 1, w: 0, udir: (-1) as i32, vdir: (-1) as i32, width: d, height: h, depth: w },
        CubeFace { u: 2, v: 1, w: 0, udir: 1, vdir: (-1) as i32, width: d, height: h, depth: (-w) as i32 },
        CubeFace { u: 0, v: 2, w: 1, udir: 1, vdir: 1, width: w, height: d, depth: h },
        CubeFace { u: 0, v: 2, w: 1, udir: 1, vdir: (-1) as i32, width: w, height: d, depth: (-h) as i32 },
        CubeFace { u: 0, v: 1, w: 2, udir: 1, vdir: (-1) as i32, width: w, height: h, depth: d },
        CubeFace { u: 0, v: 1, w: 2, udir: (-1) as i32, vdir: (-1) as i32, width: w, height: h, depth: (-d) as i32 },
    ]
}

/// The corners of the first `n` faces, flattened.
pub open spec fn spec_cube_vertices(faces: Seq<CubeFace>, n: nat) -> Seq<i64>
    decreases n,
{
    if n == 0 {
        seq![]
    } else {
        spec_cube_vertices(faces, (n - 1) as nat) + faces[n - 1].corners(4)
    }
}

pub open spec fn spec_cube_normals(faces: Seq<CubeFace>, n: nat) -> Seq<i8>
    decreases n,
{
    if n == 0 {
        seq![]
    } else {
        spec_cube_normals(faces, (n - 1) as nat) + faces[n - 1].normals(4)
    }
}

pub open spec fn spec_cube_indices(n: nat) -> Seq<u16>
    decreases n,
{
    if n == 0 {
        seq![]
    } else {
        spec_cube_indices((n - 1) as nat) + spec_face_indices(4 * (n - 1))
    }
}

impl Cube {
    /// A box `w` wide, `h` high and `d` deep, centred on the origin, with
    /// one segment along each axis of each face.
    pub fn new(w: i32, h: i32, d: i32) -> (r: Cube)
        requires
            w > i32::MIN,
            h > i32::MIN,
            d > i32::MIN,
        ensures
            r.vertices@ == spec_cube_vertices(spec_cube_faces(w, h, d), 6),
            r.normals@ == spec_cube_normals(spec_cube_faces(w, h, d), 6),
            r.indices@ == spec_cube_indices(6),
            r.vertices@.len() == 3 * 24,
            r.normals@.len() == 3 * 24,
            r.indices@.len() == 36,
            forall|i: int| 0 <= i < r.indices@.len() ==> r.indices@[i] < 24,
    {
        let mut indices: Vec<u16> = Vec::new();
        let mut vertices: Vec<i64> = Vec::new();
        let mut normals: Vec<i8> = Vec::new();
        let mut ns: i32 = 0;
        let faces: [CubeFace; 6] = [
            CubeFace { u: 2, v: 1, w: 0, udir: -1, vdir: -1, width: d, height: h, depth: w },
            CubeFace { u: 2, v: 1, w: 0, udir: 1, vdir: -1, width: d, height: h, depth: -w },
            CubeFace { u: 0, v: 2, w: 1, udir: 1, vdir: 1, width: w, height: d, depth: h },
            CubeFace { u: 0, v: 2, w: 1, udir: 1, vdir: -1, width: w, height: d, depth: -h },
            CubeFace { u: 0, v: 1, w: 2, udir: 1, vdir: -1, width: w, height: h, depth: d },
            CubeFace { u: 0, v: 1, w: 2, udir: -1, vdir: -1, width: w, height: h, depth: -d },
        ];
        assert(faces@ =~= spec_cube_faces(w, h, d));
        for f in 0..6
            invariant
                faces@ == spec_cube_faces(w, h, d),
                ns == 4 * f,
                vertices@ == spec_cube_vertices(faces@, f as nat),
                normals@ == spec_cube_normals(faces@, f as nat),
                indices@ == spec_cube_indices(f as nat),
        {
            Cube::build(&mut indices, &mut vertices, &mut normals, &mut ns, faces[f]);
        }
        proof {
            lemma_cube_lengths(faces@, 6);
            lemma_cube_indices_bound(6);
        }
        Cube { indices, vertices, normals }
    }

    /// Appends the corner at grid point (ix, iy) and its normal.
    fn push_corner(vertices: &mut Vec<i64>, normals: &mut Vec<i8>, face: CubeFace, ix: i64, iy: i64)
        requires
            face.wf(),
            0 <= ix < 2,
            0 <= iy < 2,
        ensures
            final(vertices)@ == old(vertices)@ + face.corner(2 * iy + ix),
            final(normals)@ == old(normals)@ + face.normal(),
    {
        let width = face.width as i64;
        let height = face.height as i64;
        let x = if ix == 0 { -width } else { width };
        let y = if iy == 0 { -height } else { height };
        let mut vector: [i64; 3] = [0; 3];
        vector[face.u] = if face.udir == 1 { x } else { -x };
        vector[face.v] = if face.vdir == 1 { y } else { -y };
        vector[face.w] = face.depth as i64;
        vertices.push(vector[0]);
        vertices.push(vector[1]);
        vertices.push(vector[2]);
        let mut normal: [i8; 3] = [0; 3];
        normal[face.w] = if face.depth > 0 { 1 } else { -1 };
        normals.push(normal[0]);
        normals.push(normal[1]);
        normals.push(normal[2]);
        proof {
            let k = 2 * iy + ix;
            assert(k % 2 == ix && k / 2 == iy) by {
                if iy == 0 {
                    if ix == 0 {
                        assert(k == 0);
                    } else {
                        assert(k == 1);
                    }
                } else {
                    if ix == 0 {
                        assert(k == 2);
                    } else {
                        assert(k == 3);
                    }
                }
            }
            assert(face.corner(k) =~= seq![vector[0], vector[1], vector[2]]);
            assert(face.normal() =~= seq![normal[0], normal[1], normal[2]]);
        }
        assert(vertices@ =~= old(vertices)@ + face.corner(2 * iy + ix));
        assert(normals@ =~= old(normals)@ + face.normal());
    }

    /// Appends one face: its 4 corners and normals, and its 2 triangles
    /// numbered from `*num_of_vertices`, which then moves past the corners.
    fn build(
        indices: &mut Vec<u16>,
        vertices: &mut Vec<i64>,
        normals: &mut Vec<i8>,
        num_of_vertices: &mut i32,
        face: CubeFace,
    )
        requires
            face.wf(),
            0 <= *old(num_of_vertices) <= u16::MAX - 3,
        ensures
            final(vertices)@ == old(vertices)@ + face.corners(4),
            final(normals)@ == old(normals)@ + face.normals(4),
            final(indices)@ == old(indices)@ + spec_face_indices(*old(num_of_vertices) as int),
            *final(num_of_vertices) == *old(num_of_vertices) + 4,
    {
        let ghost start_vertices = vertices@;
        let ghost start_normals = normals@;
        let mut vertex_counter: i32 = 0;
        for iy in 0i64..2
            invariant
                face.wf(),
                vertex_counter == 2 * iy,
                vertices@ == start_vertices + face.corners(2 * iy as nat),
                normals@ == start_normals + face.normals(2 * iy as nat),
        {
            for ix in 0i64..2
                invariant
                    face.wf(),
                    0 <= iy < 2,
                    vertex_counter == 2 * iy + ix,
                    vertices@ == start_vertices + face.corners((2 * iy + ix) as nat),
                    normals@ == start_normals + face.normals((2 * iy + ix) as nat),
            {
                Cube::push_corner(vertices, normals, face, ix, iy);
                assert(vertices@ =~= start_vertices + face.corners((2 * iy + ix + 1) as nat));
                assert(normals@ =~= start_normals + face.normals((2 * iy + ix + 1) as nat));
                vertex_counter += 1;
            }
        }
        let n = *num_of_vertices;
        let a = n as u16;
        let b = (n + 2) as u16;
        let c = (n + 3) as u16;
        let d = (n + 1) as u16;
        indices.push(a);
        indices.push(b);
        indices.push(d);
        indices.push(b);
        indices.push(c);
        indices.push(d);
        assert(indices@ =~= old(indices)@ + spec_face_indices(n as int));
        *num_of_vertices = n + vertex_counter;
    }
}

proof fn lemma_face_lengths(face: CubeFace, n: nat)
    ensures
        face.corners(n).len() == 3 * n,
        face.normals(n).len() == 3 * n,
    decreases n,
{
    if n > 0 {
        lemma_face_lengths(face, (n - 1) as nat);
    }
}

proof fn lemma_cube_lengths(faces: Seq<CubeFace>, n: nat)
    requires
        n <= faces.len(),
    ensures
        spec_cube_vertices(faces, n).len() == 12 * n,
        spec_cube_normals(faces, n).len() == 12 * n,
        spec_cube_indices(n).len() == 6 * n,
    decreases n,
{
    if n > 0 {
        lemma_cube_lengths(faces, (n - 1) as nat);
        lemma_face_lengths(faces[n - 1], 4);
    }
}

proof fn lemma_cube_indices_bound(n: nat)
    requires
        n <= 6,
    ensures
        forall|i: int| 0 <= i < spec_cube_indices(n).len() ==> spec_cube_indices(n)[i] < 4 * n,
    decreases n,
{
    if n > 0 {
        lemma_cube_indices_bound((n - 1) as nat);
        let prev = spec_cube_indices((n - 1) as nat);
        let all = spec_cube_indices(n);
        assert forall|i: int| 0 <= i < all.len() implies all[i] < 4 * n by {
            if i >= prev.len() {
                let k = 4 * (n - 1);
                assert(spec_face_indices(k)[i - prev.len()] < 4 * n);
            }
        }
    }
}

} // verus!
