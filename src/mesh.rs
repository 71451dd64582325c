//! Geometry decoding: fan triangulation of indexed polygon faces into flat,
//! per-corner attribute streams.
use vstd::prelude::*;
use crate::error::DecodeError;

verus! {

/// One polygon corner: an index into the position table and, when given, into the
/// texture-coordinate and normal tables.
#[derive(Clone, Copy, Debug, PartialEq, Eq, Structural)]
pub struct Corner {
    pub position: usize,
    pub uv: Option<usize>,
    pub normal: Option<usize>,
}

/// A parsed mesh: three attribute tables and a list of polygon faces.
/// `T` is the scalar type of the attributes; this module only moves values of it.
pub struct MeshDescription<T> {
    pub positions: Vec<[T; 3]>,
    pub normals: Vec<[T; 3]>,
    pub uvs: Vec<[T; 2]>,
    pub faces: Vec<Vec<Corner>>,
}

/// Per-vertex attribute streams: entry `i` of each stream (three, three and two
/// scalars wide) describes the same emitted vertex.
#[derive(Clone, Debug, PartialEq)]
pub struct MeshBuffers<T> {
    pub positions: Vec<T>,
    pub normals: Vec<T>,
    pub uvs: Vec<T>,
}

impl<T> MeshDescription<T> {
    pub open spec fn face_seqs(&self) -> Seq<Seq<Corner>> {
        self.faces@.map_values(|f: Vec<Corner>| f@)
    }

    /// Every index a corner carries lies inside its table.
    pub open spec fn corner_in_range(&self, c: Corner) -> bool {
        &&& c.position < self.positions@.len()
        &&& (c.uv matches Some(u) ==> u < self.uvs@.len())
        &&& (c.normal matches Some(n) ==> n < self.normals@.len())
    }

    pub open spec fn position_of(&self, c: Corner) -> Seq<T> {
        self.positions@[c.position as int]@
    }

    pub open spec fn normal_of(&self, c: Corner) -> Seq<T> {
        self.normals@[c.normal.unwrap() as int]@
    }

    pub open spec fn uv_of(&self, c: Corner) -> Seq<T> {
        self.uvs@[c.uv.unwrap() as int]@
    }
}

/// A corner that names both a normal and a texture coordinate.
pub open spec fn corner_complete(c: Corner) -> bool {
    c.uv.is_some() && c.normal.is_some()
}

pub open spec fn faces_shaped(faces: Seq<Seq<Corner>>) -> bool {
    forall|i: int| 0 <= i < faces.len() ==> #[trigger] faces[i].len() >= 3
}

pub open spec fn faces_complete(faces: Seq<Seq<Corner>>) -> bool {
    forall|i: int, j: int|
        0 <= i < faces.len() && 0 <= j < faces[i].len() ==> corner_complete(#[trigger] faces[i][j])
}

pub open spec fn faces_in_range<T>(d: MeshDescription<T>) -> bool {
    let faces = d.face_seqs();
    forall|i: int, j: int|
        0 <= i < faces.len() && 0 <= j < faces[i].len() ==> d.corner_in_range(#[trigger] faces[i][j])
}

/// The triangle fan of a face `[c0, c1, ..., c(k-1)]`, three corners per triangle:
/// `(c0, c1, c2), (c0, c2, c3), ..., (c0, c(k-2), c(k-1))`.
pub open spec fn fan(face: Seq<Corner>) -> Seq<Corner> {
    Seq::new(
        (3 * (face.len() - 2)) as nat,
        |j: int|
            if j % 3 == 0 {
                face[0]
            } else if j % 3 == 1 {
                face[j / 3 + 1]
            } else {
                face[j / 3 + 2]
            },
    )
}

/// The corners emitted for a list of faces: each face's fan, in face order.
pub open spec fn mesh_corners(faces: Seq<Seq<Corner>>) -> Seq<Corner>
    decreases faces.len(),
{
    if faces.len() == 0 {
        seq![]
    } else {
        mesh_corners(faces.drop_last()) + fan(faces.last())
    }
}

/// Concatenation of per-corner attribute rows.
pub open spec fn flat<T>(rows: Seq<Seq<T>>) -> Seq<T> {
    rows.flatten_alt()
}

pub open spec fn position_stream<T>(d: MeshDescription<T>, cs: Seq<Corner>) -> Seq<T> {
    flat(cs.map_values(|c: Corner| d.position_of(c)))
}

pub open spec fn normal_stream<T>(d: MeshDescription<T>, cs: Seq<Corner>) -> Seq<T> {
    flat(cs.map_values(|c: Corner| d.normal_of(c)))
}

pub open spec fn uv_stream<T>(d: MeshDescription<T>, cs: Seq<Corner>) -> Seq<T> {
    flat(cs.map_values(|c: Corner| d.uv_of(c)))
}

/// Fan triangulation produces `k - 2` triangles for a face of `k >= 3` corners, each
/// anchored at the first corner and keeping the face's winding: triangle `t` is
/// `(c0, c(t+1), c(t+2))`.
pub proof fn lemma_fan_triangulation(face: Seq<Corner>)
    requires
        face.len() >= 3,
    ensures
        fan(face).len() == 3 * (face.len() - 2),
        forall|t: int|
            0 <= t < face.len() - 2 ==> {
                &&& #[trigger] fan(face)[3 * t] == face[0]
                &&& fan(face)[3 * t + 1] == face[t + 1]
                &&& fan(face)[3 * t + 2] == face[t + 2]
            },
{
    assert forall|t: int| 0 <= t < face.len() - 2 implies {
        &&& #[trigger] fan(face)[3 * t] == face[0]
        &&& fan(face)[3 * t + 1] == face[t + 1]
        &&& fan(face)[3 * t + 2] == face[t + 2]
    } by {
        assert((3 * t) % 3 == 0 && (3 * t) / 3 == t) by (nonlinear_arith);
        assert((3 * t + 1) % 3 == 1 && (3 * t + 1) / 3 == t) by (nonlinear_arith);
        assert((3 * t + 2) % 3 == 2 && (3 * t + 2) / 3 == t) by (nonlinear_arith);
    }
}


/// Emitted vertex `i` takes its position, normal and texture coordinate from the same
/// corner `cs[i]`: scalars `3i..3i+3` of the position and normal streams and `2i..2i+2` of
/// the uv stream.
pub proof fn lemma_streams_align<T>(d: MeshDescription<T>, cs: Seq<Corner>)
    ensures
        position_stream(d, cs).len() == 3 * cs.len(),
        normal_stream(d, cs).len() == 3 * cs.len(),
        uv_stream(d, cs).len() == 2 * cs.len(),
        forall|i: int|
            0 <= i < cs.len() ==> {
                &&& position_stream(d, cs).subrange(3 * i, 3 * i + 3) == d.position_of(#[trigger] cs[i])
                &&& normal_stream(d, cs).subrange(3 * i, 3 * i + 3) == d.normal_of(cs[i])
                &&& uv_stream(d, cs).subrange(2 * i, 2 * i + 2) == d.uv_of(cs[i])
            },
    decreases cs.len(),
{
    if cs.len() > 0 {
        let prev = cs.drop_last();
        let c = cs.last();
        lemma_streams_align(d, prev);
        assert(prev.push(c) =~= cs);
        lemma_streams_push(d, prev, c);
        let (ps, ns, us) = (position_stream(d, prev), normal_stream(d, prev), uv_stream(d, prev));
        assert forall|i: int| 0 <= i < cs.len() implies {
            &&& position_stream(d, cs).subrange(3 * i, 3 * i + 3) == d.position_of(#[trigger] cs[i])
            &&& normal_stream(d, cs).subrange(3 * i, 3 * i + 3) == d.normal_of(cs[i])
            &&& uv_stream(d, cs).subrange(2 * i, 2 * i + 2) == d.uv_of(cs[i])
        } by {
            if i < prev.len() {
                assert(cs[i] == prev[i]);
                assert(position_stream(d, cs).subrange(3 * i, 3 * i + 3) =~= ps.subrange(3 * i, 3 * i + 3));
                assert(normal_stream(d, cs).subrange(3 * i, 3 * i + 3) =~= ns.subrange(3 * i, 3 * i + 3));
                assert(uv_stream(d, cs).subrange(2 * i, 2 * i + 2) =~= us.subrange(2 * i, 2 * i + 2));
            } else {
                assert(position_stream(d, cs).subrange(3 * i, 3 * i + 3) =~= d.position_of(c));
                assert(normal_stream(d, cs).subrange(3 * i, 3 * i + 3) =~= d.normal_of(c));
                assert(uv_stream(d, cs).subrange(2 * i, 2 * i + 2) =~= d.uv_of(c));
            }
        }
    } else {
        assert(cs.map_values(|c: Corner| d.position_of(c)) =~= Seq::<Seq<T>>::empty());
        assert(cs.map_values(|c: Corner| d.normal_of(c)) =~= Seq::<Seq<T>>::empty());
        assert(cs.map_values(|c: Corner| d.uv_of(c)) =~= Seq::<Seq<T>>::empty());
    }
}

proof fn lemma_flat_push<T>(rows: Seq<Seq<T>>, row: Seq<T>)
    ensures
        flat(rows.push(row)) == flat(rows) + row,
{
    assert(rows.push(row).drop_last() =~= rows);
}

proof fn lemma_streams_push<T>(d: MeshDescription<T>, cs: Seq<Corner>, c: Corner)
    ensures
        position_stream(d, cs.push(c)) == position_stream(d, cs) + d.position_of(c),
        normal_stream(d, cs.push(c)) == normal_stream(d, cs) + d.normal_of(c),
        uv_stream(d, cs.push(c)) == uv_stream(d, cs) + d.uv_of(c),
{
    assert(cs.push(c).map_values(|c: Corner| d.position_of(c)) =~= cs.map_values(
        |c: Corner| d.position_of(c),
    ).push(d.position_of(c)));
    assert(cs.push(c).map_values(|c: Corner| d.normal_of(c)) =~= cs.map_values(
        |c: Corner| d.normal_of(c),
    ).push(d.normal_of(c)));
    assert(cs.push(c).map_values(|c: Corner| d.uv_of(c)) =~= cs.map_values(|c: Corner| d.uv_of(c)).push(
        d.uv_of(c),
    ));
    lemma_flat_push(cs.map_values(|c: Corner| d.position_of(c)), d.position_of(c));
    lemma_flat_push(cs.map_values(|c: Corner| d.normal_of(c)), d.normal_of(c));
    lemma_flat_push(cs.map_values(|c: Corner| d.uv_of(c)), d.uv_of(c));
}

/// Appends the attributes of one corner to the three streams.
fn emit_corner<T: Copy>(d: &MeshDescription<T>, c: Corner, out: &mut MeshBuffers<T>)
    requires
        d.corner_in_range(c),
        corner_complete(c),
    ensures
        final(out).positions@ == old(out).positions@ + d.position_of(c),
        final(out).normals@ == old(out).normals@ + d.normal_of(c),
        final(out).uvs@ == old(out).uvs@ + d.uv_of(c),
{
    let p: [T; 3] = d.positions[c.position];
    let n: [T; 3] = d.normals[c.normal.unwrap()];
    let t: [T; 2] = d.uvs[c.uv.unwrap()];
    out.positions.push(p[0]);
    out.positions.push(p[1]);
    out.positions.push(p[2]);
    out.normals.push(n[0]);
    out.normals.push(n[1]);
    out.normals.push(n[2]);
    out.uvs.push(t[0]);
    out.uvs.push(t[1]);
    assert(out.positions@ =~= old(out).positions@ + d.position_of(c));
    assert(out.normals@ =~= old(out).normals@ + d.normal_of(c));
    assert(out.uvs@ =~= old(out).uvs@ + d.uv_of(c));
}


fn check_shapes(faces: &Vec<Vec<Corner>>) -> (r: bool)
    ensures
        r == faces_shaped(faces@.map_values(|f: Vec<Corner>| f@)),
{
    let ghost fs = faces@.map_values(|f: Vec<Corner>| f@);
    let mut i: usize = 0;
    while i < faces.len()
        invariant
            i <= faces.len(),
            fs == faces@.map_values(|f: Vec<Corner>| f@),
            forall|a: int| 0 <= a < i ==> #[trigger] fs[a].len() >= 3,
        decreases faces.len() - i,
    {
        if faces[i].len() < 3 {
            assert(fs[i as int].len() < 3);
            return false;
        }
        i += 1;
    }
    true
}

fn check_complete(faces: &Vec<Vec<Corner>>) -> (r: bool)
    ensures
        r == faces_complete(faces@.map_values(|f: Vec<Corner>| f@)),
{
    let ghost fs = faces@.map_values(|f: Vec<Corner>| f@);
    let mut i: usize = 0;
    while i < faces.len()
        invariant
            i <= faces.len(),
            fs == faces@.map_values(|f: Vec<Corner>| f@),
            forall|a: int, b: int|
                0 <= a < i && 0 <= b < fs[a].len() ==> corner_complete(#[trigger] fs[a][b]),
        decreases faces.len() - i,
    {
        let face = &faces[i];
        let mut j: usize = 0;
        while j < face.len()
            invariant
                i < faces.len(),
                j <= face.len(),
                *face == faces@[i as int],
                fs == faces@.map_values(|f: Vec<Corner>| f@),
                forall|a: int, b: int|
                    0 <= a < i && 0 <= b < fs[a].len() ==> corner_complete(#[trigger] fs[a][b]),
                forall|b: int| 0 <= b < j ==> corner_complete(#[trigger] fs[i as int][b]),
            decreases face.len() - j,
        {
            if face[j].uv.is_none() || face[j].normal.is_none() {
                assert(!corner_complete(fs[i as int][j as int]));
                return false;
            }
            j += 1;
        }
        i += 1;
    }
    true
}

fn check_ranges<T>(d: &MeshDescription<T>) -> (r: bool)
    ensures
        r == faces_in_range(*d),
{
    let ghost fs = d.face_seqs();
    let mut i: usize = 0;
    while i < d.faces.len()
        invariant
            i <= d.faces.len(),
            fs == d.face_seqs(),
            forall|a: int, b: int|
                0 <= a < i && 0 <= b < fs[a].len() ==> d.corner_in_range(#[trigger] fs[a][b]),
        decreases d.faces.len() - i,
    {
        let face = &d.faces[i];
        let mut j: usize = 0;
        while j < face.len()
            invariant
                i < d.faces.len(),
                j <= face.len(),
                *face == d.faces@[i as int],
                fs == d.face_seqs(),
                forall|a: int, b: int|
                    0 <= a < i && 0 <= b < fs[a].len() ==> d.corner_in_range(#[trigger] fs[a][b]),
                forall|b: int| 0 <= b < j ==> d.corner_in_range(#[trigger] fs[i as int][b]),
            decreases face.len() - j,
        {
            let c = face[j];
            let bad_uv = match c.uv {
                Some(u) => u >= d.uvs.len(),
                None => false,
            };
            let bad_normal = match c.normal {
                Some(n) => n >= d.normals.len(),
                None => false,
            };
            if c.position >= d.positions.len() || bad_uv || bad_normal {
                assert(!d.corner_in_range(fs[i as int][j as int]));
                return false;
            }
            j += 1;
        }
        i += 1;
    }
    true
}


/// Emits the fan of one face after the corners already emitted.
fn emit_fan<T: Copy>(
    d: &MeshDescription<T>,
    face: &Vec<Corner>,
    out: &mut MeshBuffers<T>,
    Ghost(emitted): Ghost<Seq<Corner>>,
)
    requires
        face@.len() >= 3,
        forall|b: int|
            0 <= b < face@.len() ==> d.corner_in_range(#[trigger] face@[b]) && corner_complete(
                face@[b],
            ),
        old(out).positions@ == position_stream(*d, emitted),
        old(out).normals@ == normal_stream(*d, emitted),
        old(out).uvs@ == uv_stream(*d, emitted),
    ensures
        final(out).positions@ == position_stream(*d, emitted + fan(face@)),
        final(out).normals@ == normal_stream(*d, emitted + fan(face@)),
        final(out).uvs@ == uv_stream(*d, emitted + fan(face@)),
{
    let ghost f = face@;
    let ghost mut cur = emitted;
    proof {
        lemma_fan_triangulation(f);
        assert(cur =~= emitted + fan(f).take(0));
    }
    let mut t: usize = 0;
    while t < face.len() - 2
        invariant
            f == face@,
            f.len() >= 3,
            forall|b: int|
                0 <= b < f.len() ==> d.corner_in_range(#[trigger] f[b]) && corner_complete(f[b]),
            t <= f.len() - 2,
            fan(f).len() == 3 * (f.len() - 2),
            forall|u: int|
                0 <= u < f.len() - 2 ==> {
                    &&& #[trigger] fan(f)[3 * u] == f[0]
                    &&& fan(f)[3 * u + 1] == f[u + 1]
                    &&& fan(f)[3 * u + 2] == f[u + 2]
                },
            cur == emitted + fan(f).take(3 * t),
            out.positions@ == position_stream(*d, cur),
            out.normals@ == normal_stream(*d, cur),
            out.uvs@ == uv_stream(*d, cur),
        decreases face.len() - 2 - t,
    {
        let c0 = face[0];
        let c1 = face[t + 1];
        let c2 = face[t + 2];
        proof {
            assert(d.corner_in_range(f[0]) && corner_complete(f[0]));
            assert(d.corner_in_range(f[t + 1]) && corner_complete(f[t + 1]));
            assert(d.corner_in_range(f[t + 2]) && corner_complete(f[t + 2]));
            lemma_streams_push(*d, cur, c0);
            lemma_streams_push(*d, cur.push(c0), c1);
            lemma_streams_push(*d, cur.push(c0).push(c1), c2);
            assert(fan(f)[3 * t] == c0);
            assert(fan(f).take(3 * t + 3) =~= fan(f).take(3 * t).push(c0).push(c1).push(c2));
            cur = cur.push(c0).push(c1).push(c2);
            assert(cur =~= emitted + fan(f).take(3 * t + 3));
        }
        emit_corner(d, c0, out);
        emit_corner(d, c1, out);
        emit_corner(d, c2, out);
        t += 1;
    }
    assert(fan(f).take(3 * (f.len() - 2)) =~= fan(f));
}

/// Emits the fan of every face, in face order.
fn triangulate<T: Copy>(d: &MeshDescription<T>) -> (r: MeshBuffers<T>)
    requires
        faces_shaped(d.face_seqs()),
        faces_complete(d.face_seqs()),
        faces_in_range(*d),
    ensures
        r.positions@ == position_stream(*d, mesh_corners(d.face_seqs())),
        r.normals@ == normal_stream(*d, mesh_corners(d.face_seqs())),
        r.uvs@ == uv_stream(*d, mesh_corners(d.face_seqs())),
{
    let ghost fs = d.face_seqs();
    let mut out = MeshBuffers { positions: Vec::new(), normals: Vec::new(), uvs: Vec::new() };
    proof {
        assert(fs.take(0) =~= Seq::<Seq<Corner>>::empty());
        assert(out.positions@ =~= position_stream(*d, seq![]));
        assert(out.normals@ =~= normal_stream(*d, seq![]));
        assert(out.uvs@ =~= uv_stream(*d, seq![]));
    }
    let mut i: usize = 0;
    while i < d.faces.len()
        invariant
            i <= d.faces.len(),
            fs == d.face_seqs(),
            faces_shaped(fs),
            faces_complete(fs),
            faces_in_range(*d),
            out.positions@ == position_stream(*d, mesh_corners(fs.take(i as int))),
            out.normals@ == normal_stream(*d, mesh_corners(fs.take(i as int))),
            out.uvs@ == uv_stream(*d, mesh_corners(fs.take(i as int))),
        decreases d.faces.len() - i,
    {
        let face = &d.faces[i];
        proof {
            assert(fs[i as int] == face@);
            assert forall|b: int| 0 <= b < face@.len() implies d.corner_in_range(
                #[trigger] face@[b],
            ) && corner_complete(face@[b]) by {
                assert(fs[i as int][b] == face@[b]);
            }
            assert(fs.take(i + 1).drop_last() =~= fs.take(i as int));
            assert(fs.take(i + 1).last() == face@);
        }
        emit_fan(d, face, &mut out, Ghost(mesh_corners(fs.take(i as int))));
        i += 1;
    }
    assert(fs.take(fs.len() as int) =~= fs);
    out
}

/// Decodes a parsed mesh into per-vertex streams by fan-triangulating every face.
/// `parsed` is `None` when the mesh bytes could not be parsed at all. On success the
/// three streams come from one corner sequence, so entry `i` of each describes the
/// same source corner.
pub fn decode_mesh<T: Copy>(parsed: Option<MeshDescription<T>>) -> (r: Result<MeshBuffers<T>, DecodeError>)
    ensures
        match parsed {
            None => r == Err::<MeshBuffers<T>, DecodeError>(DecodeError::Malformed),
            Some(d) => {
                let fs = d.face_seqs();
                if !faces_shaped(fs) {
                    r == Err::<MeshBuffers<T>, DecodeError>(DecodeError::Malformed)
                } else if !faces_complete(fs) {
                    r == Err::<MeshBuffers<T>, DecodeError>(DecodeError::MissingAttribute)
                } else if !faces_in_range(d) {
                    r == Err::<MeshBuffers<T>, DecodeError>(DecodeError::IndexOutOfRange)
                } else {
                    &&& r is Ok
                    &&& r->Ok_0.positions@ == position_stream(d, mesh_corners(fs))
                    &&& r->Ok_0.normals@ == normal_stream(d, mesh_corners(fs))
                    &&& r->Ok_0.uvs@ == uv_stream(d, mesh_corners(fs))
                }
            },
        },
{
    match parsed {
        None => Err(DecodeError::Malformed),
        Some(d) => {
            if !check_shapes(&d.faces) {
                Err(DecodeError::Malformed)
            } else if !check_complete(&d.faces) {
                Err(DecodeError::MissingAttribute)
            } else if !check_ranges(&d) {
                Err(DecodeError::IndexOutOfRange)
            } else {
                Ok(triangulate(&d))
            }
        },
    }
}


/// The unit square in the `z = 0` plane facing `+z`, as two triangles, with texture
/// coordinates spanning the whole texture. Coordinates are exact small integers.
pub fn make_plane() -> (r: MeshBuffers<i8>)
    ensures
        r.positions@.map_values(|x: i8| x as int) == seq![
            -1int, 1, 0, -1, -1, 0, 1, 1, 0, 1, 1, 0, -1, -1, 0, 1, -1, 0,
        ],
        r.normals@.map_values(|x: i8| x as int) == seq![
            0int, 0, 1, 0, 0, 1, 0, 0, 1, 0, 0, 1, 0, 0, 1, 0, 0, 1,
        ],
        r.uvs@.map_values(|x: i8| x as int) == seq![0int, 1, 0, 0, 1, 1, 1, 1, 0, 0, 1, 0],
{
    let positions: Vec<i8> = vec![-1, 1, 0, -1, -1, 0, 1, 1, 0, 1, 1, 0, -1, -1, 0, 1, -1, 0];
    let normals: Vec<i8> = vec![0, 0, 1, 0, 0, 1, 0, 0, 1, 0, 0, 1, 0, 0, 1, 0, 0, 1];
    let uvs: Vec<i8> = vec![0, 1, 0, 0, 1, 1, 1, 1, 0, 0, 1, 0];
    assert(positions@.map_values(|x: i8| x as int) =~= seq![
        -1int, 1, 0, -1, -1, 0, 1, 1, 0, 1, 1, 0, -1, -1, 0, 1, -1, 0,
    ]);
    assert(normals@.map_values(|x: i8| x as int) =~= seq![
        0int, 0, 1, 0, 0, 1, 0, 0, 1, 0, 0, 1, 0, 0, 1, 0, 0, 1,
    ]);
    assert(uvs@.map_values(|x: i8| x as int) =~= seq![0int, 1, 0, 0, 1, 1, 1, 1, 0, 0, 1, 0]);
    MeshBuffers { positions, normals, uvs }
}

} // verus!
