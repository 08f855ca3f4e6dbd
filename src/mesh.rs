use vstd::prelude::*;

verus! {

/// `[f]` once for each corner of `face` that is vertex `v`.
pub open spec fn corner_hits(face: [usize; 3], v: usize, f: usize) -> Seq<usize> {
    (if face[0] == v { seq![f] } else { Seq::empty() })
        + (if face[1] == v { seq![f] } else { Seq::empty() })
        + (if face[2] == v { seq![f] } else { Seq::empty() })
}

/// The faces that meet vertex `v`, in face order, a face listed once per
/// corner it has at `v`.
pub open spec fn incidence(faces: Seq<[usize; 3]>, v: usize) -> Seq<usize>
    decreases faces.len(),
{
    if faces.len() == 0 {
        Seq::empty()
    } else {
        incidence(faces.drop_last(), v) + corner_hits(faces.last(), v, (faces.len() - 1) as usize)
    }
}

/// Every corner of every face names one of the `n_vertices` vertices.
pub open spec fn corners_in_range(faces: Seq<[usize; 3]>, n_vertices: usize) -> bool {
    forall|f: int, c: int| 0 <= f < faces.len() && 0 <= c < 3 ==> #[trigger] faces[f][c] < n_vertices
}

/// Taking one more face extends each vertex's incidence by that face's corners.
proof fn lemma_incidence_step(faces: Seq<[usize; 3]>, f: int, v: usize)
    requires
        0 <= f < faces.len(),
    ensures
        incidence(faces.subrange(0, f + 1), v)
            == incidence(faces.subrange(0, f), v) + corner_hits(faces[f], v, f as usize),
{
    let prefix = faces.subrange(0, f + 1);
    assert(prefix.drop_last() =~= faces.subrange(0, f));
    assert(prefix.last() == faces[f]);
}

/// Appends `f` to the list of vertex `v`, leaving the other lists as they are.
fn push_incident(r: &mut Vec<Vec<usize>>, v: usize, f: usize)
    requires
        v < old(r)@.len(),
    ensures
        final(r)@.len() == old(r)@.len(),
        forall|w: int| 0 <= w < old(r)@.len() ==> (#[trigger] final(r)@[w])@ == (if w == v {
            old(r)@[w]@.push(f)
        } else {
            old(r)@[w]@
        }),
{
    r[v].push(f);
}

/// The connectivity of a triangle mesh: a vertex count and, for each triangle,
/// the indices of its three corners.
pub struct MeshTopology {
    pub n_vertices: usize,
    pub faces: Vec<[usize; 3]>,
}

impl MeshTopology {
    pub open spec fn wf(&self) -> bool {
        corners_in_range(self.faces@, self.n_vertices)
    }

    /// Takes an indexed face list; there is none when a corner names a vertex
    /// past the end of the vertex list.
    pub fn new(n_vertices: usize, faces: Vec<[usize; 3]>) -> (r: Option<MeshTopology>)
        ensures
            r is Some <==> corners_in_range(faces@, n_vertices),
            r is Some ==> r->0.n_vertices == n_vertices && r->0.faces@ == faces@,
    {
        let mut f: usize = 0;
        while f < faces.len()
            invariant
                f <= faces@.len(),
                forall|g: int, c: int| 0 <= g < f && 0 <= c < 3 ==> #[trigger] faces@[g][c] < n_vertices,
            decreases faces@.len() - f,
        {
            let face = faces[f];
            if face[0] >= n_vertices || face[1] >= n_vertices || face[2] >= n_vertices {
                proof {
                    let c: int = if face[0] >= n_vertices { 0 } else if face[1] >= n_vertices { 1 } else { 2 };
                    assert(faces@[f as int][c] >= n_vertices);
                }
                return None;
            }
            f = f + 1;
        }
        Some(MeshTopology { n_vertices, faces })
    }

    /// For each vertex, the faces that meet it (see `incidence`); a smooth-shaded
    /// mesh sums the face normals of these lists.
    pub fn incident_faces(&self) -> (r: Vec<Vec<usize>>)
        requires
            self.wf(),
        ensures
            r@.len() == self.n_vertices,
            forall|v: int| 0 <= v < self.n_vertices ==> (#[trigger] r@[v])@ == incidence(self.faces@, v as usize),
    {
        let n = self.n_vertices;
        let mut r: Vec<Vec<usize>> = Vec::new();
        let mut v: usize = 0;
        while v < n
            invariant
                v <= n,
                r@.len() == v,
                forall|w: int| 0 <= w < v ==> (#[trigger] r@[w])@ == Seq::<usize>::empty(),
            decreases n - v,
        {
            r.push(Vec::new());
            v = v + 1;
        }
        let mut f: usize = 0;
        while f < self.faces.len()
            invariant
                self.wf(),
                n == self.n_vertices,
                f <= self.faces@.len(),
                r@.len() == n,
                forall|w: int| 0 <= w < n ==> (#[trigger] r@[w])@ == incidence(self.faces@.subrange(0, f as int), w as usize),
            decreases self.faces@.len() - f,
        {
            let face = self.faces[f];
            assert(face == self.faces@[f as int]);
            assert(face[0] < n && face[1] < n && face[2] < n) by {
                assert(self.faces@[f as int][0] < n);
                assert(self.faces@[f as int][1] < n);
                assert(self.faces@[f as int][2] < n);
            }
            let ghost r0 = r@;
            push_incident(&mut r, face[0], f);
            let ghost r1 = r@;
            push_incident(&mut r, face[1], f);
            let ghost r2 = r@;
            push_incident(&mut r, face[2], f);
            proof {
                assert forall|w: int| 0 <= w < n implies (#[trigger] r@[w])@ == incidence(
                    self.faces@.subrange(0, f + 1),
                    w as usize,
                ) by {
                    lemma_incidence_step(self.faces@, f as int, w as usize);
                    assert(r1[w]@ == r0[w]@ + (if face[0] == w as usize { seq![f] } else { Seq::empty() }));
                    assert(r2[w]@ == r1[w]@ + (if face[1] == w as usize { seq![f] } else { Seq::empty() }));
                    assert(r@[w]@ == r2[w]@ + (if face[2] == w as usize { seq![f] } else { Seq::empty() }));
                    assert(r@[w]@ =~= r0[w]@ + corner_hits(face, w as usize, f));
                }
            }
            f = f + 1;
        }
        assert(self.faces@.subrange(0, self.faces@.len() as int) =~= self.faces@);
        r
    }
}

} // verus!
