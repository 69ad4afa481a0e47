use vstd::prelude::*;

use crate::point::Point;

verus! {

/// `s` with `offset` added to every index.
pub open spec fn rebased(s: Seq<u32>, offset: nat) -> Seq<u32> {
    s.map_values(|v: u32| (v + offset) as u32)
}

/// Appending keeps whole triangles: behind indices `a` that form whole
/// triangles, the rebased indices `b` of whole triangles give whole triangles
/// again, as many as both held; and where each index of `a` names one of
/// `a_points` points and each of `b` one of `b_points`, each index of the
/// result names one of the `a_points + b_points` points together.
pub proof fn lemma_append_keeps_triangles(a: Seq<u32>, b: Seq<u32>, a_points: nat, b_points: nat)
    requires
        a.len() % 3 == 0,
        b.len() % 3 == 0,
    ensures
        (a + rebased(b, a_points)).len() == a.len() + b.len(),
        (a + rebased(b, a_points)).len() % 3 == 0,
        a_points + b_points <= 0x1_0000_0000 && (forall|k: int|
            0 <= k < a.len() ==> (#[trigger] a[k] as int) < a_points) && (forall|k: int|
            0 <= k < b.len() ==> (#[trigger] b[k] as int) < b_points) ==> forall|k: int|
            0 <= k < a.len() + b.len() ==> (#[trigger] (a + rebased(b, a_points))[k] as int)
                < a_points + b_points,
{
    let c = a + rebased(b, a_points);
    if a_points + b_points <= 0x1_0000_0000 && (forall|k: int|
        0 <= k < a.len() ==> (#[trigger] a[k] as int) < a_points) && (forall|k: int|
        0 <= k < b.len() ==> (#[trigger] b[k] as int) < b_points) {
        assert forall|k: int| 0 <= k < a.len() + b.len() implies (#[trigger] c[k] as int) < a_points
            + b_points by {
            if k >= a.len() {
                assert(b[k - a.len()] < b_points);
            }
        }
    }
}

/// Flat buffers of a triangle list: points, a style index per point, and
/// three point indices per triangle.
pub struct Mesh {
    pub points: Vec<Point>,
    pub brushes: Vec<u32>,
    pub indices: Vec<u32>,
}

impl Mesh {
    /// One style index per point, whole triangles only, and every index
    /// names a point of the mesh.
    pub open spec fn wf(&self) -> bool {
        &&& self.points.len() == self.brushes.len()
        &&& self.points.len() <= u32::MAX
        &&& self.indices.len() % 3 == 0
        &&& forall|k: int|
            0 <= k < self.indices.len() ==> (#[trigger] self.indices@[k] as int) < self.points.len()
    }

    /// An empty mesh with room for `capacity` points.
    pub fn with_capacity(capacity: usize) -> (r: Self)
        ensures
            r.wf(),
            r.points@.len() == 0,
            r.brushes@.len() == 0,
            r.indices@.len() == 0,
    {
        let index_capacity = match capacity.checked_mul(3) {
            Some(n) => n,
            None => capacity,
        };
        Self {
            points: Vec::with_capacity(capacity),
            brushes: Vec::with_capacity(capacity),
            indices: Vec::with_capacity(index_capacity),
        }
    }

    /// Appends `mesh` behind the points of `self`: its points and style
    /// indices are concatenated unchanged, and its indices are rebased by
    /// the number of points `self` held.
    pub fn append(&mut self, mesh: Mesh)
        requires
            old(self).wf(),
            mesh.wf(),
            old(self).points.len() + mesh.points.len() <= u32::MAX,
        ensures
            final(self).wf(),
            final(self).points@ == old(self).points@ + mesh.points@,
            final(self).brushes@ == old(self).brushes@ + mesh.brushes@,
            final(self).indices@ == old(self).indices@ + rebased(
                mesh.indices@,
                old(self).points.len() as nat,
            ),
    {
        let offset = self.points.len() as u32;
        let Mesh { points: mut points, brushes: mut brushes, indices: mut indices } = mesh;

        self.points.append(&mut points);
        self.brushes.append(&mut brushes);

        let mut i: usize = 0;
        while i < indices.len()
            invariant
                indices.len() == mesh.indices.len(),
                mesh.wf(),
                offset as int + mesh.points.len() <= u32::MAX,
                forall|k: int| 0 <= k < i ==> #[trigger] indices@[k] == mesh.indices@[k] + offset,
                forall|k: int| i <= k < indices.len() ==> #[trigger] indices@[k] == mesh.indices@[k],
            decreases indices.len() - i,
        {
            let v = indices[i];
            assert(v < mesh.points.len());
            indices.set(i, v + offset);
            i = i + 1;
        }
        assert(indices@ == rebased(mesh.indices@, offset as nat));
        self.indices.append(&mut indices);
        assert forall|k: int| 0 <= k < self.indices.len() implies (#[trigger] self.indices@[k] as int)
            < self.points.len() by {
            if k >= old(self).indices.len() {
                assert(mesh.indices@[k - old(self).indices.len()] < mesh.points.len());
            }
        }
    }
}

} // verus!
