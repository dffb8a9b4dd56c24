use vstd::prelude::*;

verus! {

/// The two GPU buffer targets the pipeline uses: per-vertex attribute
/// data and element indices.
#[derive(Clone, Copy, PartialEq, Eq, Structural, Debug)]
pub enum BufferKind {
    Vertex,
    Index,
}

/// The static geometry of a run: vertex positions (three components per
/// vertex, exactly representable as small integers), the element indices
/// that draw it, and the component count of the position attribute. The
/// data is created once and immutable for the run.
#[derive(Debug)]
pub struct Geometry {
    pub positions: Vec<i8>,
    pub indices: Vec<u16>,
    pub components: u32,
}

/// Every element index refers to one of the uploaded vertices.
pub open spec fn indices_in_bounds(indices: Seq<u16>, vertex_count: int) -> bool {
    forall|i: int| 0 <= i < indices.len() ==> (indices[i] as int) < vertex_count
}

impl Geometry {
    pub open spec fn spec_vertex_count(self) -> int {
        self.positions@.len() as int / 3
    }

    /// Positions hold whole vertices of three components each, and the
    /// index list never points past the last vertex.
    pub open spec fn wf(self) -> bool {
        &&& self.components == 3
        &&& self.positions@.len() % 3 == 0
        &&& indices_in_bounds(self.indices@, self.spec_vertex_count())
    }

    pub fn vertex_count(&self) -> (n: usize)
        ensures
            n == self.spec_vertex_count(),
    {
        self.positions.len() / 3
    }

    /// The number of indices a draw call over this geometry issues.
    pub fn index_count(&self) -> (n: usize)
        ensures
            n == self.indices@.len(),
    {
        self.indices.len()
    }
}

/// The clip-space positions of the full-screen quad: four corners, three
/// components each.
pub open spec fn quad_position_values() -> Seq<i8> {
    seq![-1i8, 1i8, 0i8, 1i8, 1i8, 0i8, -1i8, -1i8, 0i8, 1i8, -1i8, 0i8]
}

/// The element indices of the full-screen quad: two triangles.
pub open spec fn quad_index_values() -> Seq<u16> {
    seq![0u16, 2u16, 1u16, 1u16, 2u16, 3u16]
}

/// Every index of the quad's element list refers to one of its four
/// vertices.
pub proof fn lemma_quad_indices_in_bounds()
    ensures
        indices_in_bounds(quad_index_values(), 4),
{
    assert forall|i: int| 0 <= i < quad_index_values().len() implies (quad_index_values()[i] as int)
        < 4 by {
        if i == 0 {
            assert(quad_index_values()[0] == 0u16);
        } else if i == 1 {
            assert(quad_index_values()[1] == 2u16);
        } else if i == 2 {
            assert(quad_index_values()[2] == 1u16);
        } else if i == 3 {
            assert(quad_index_values()[3] == 1u16);
        } else if i == 4 {
            assert(quad_index_values()[4] == 2u16);
        } else {
            assert(quad_index_values()[5] == 3u16);
        }
    }
}

/// The quad's element list draws two triangles that together take in all
/// of its four corners: six indices, each in bounds, and every one of the
/// four vertices referenced by at least one triangle.
pub proof fn lemma_quad_triangles_cover_all_corners()
    ensures
        quad_index_values().len() == 6,
        indices_in_bounds(quad_index_values(), 4),
        forall|v: u16| v < 4 ==> quad_index_values().contains(v),
{
    lemma_quad_indices_in_bounds();
    assert forall|v: u16| v < 4 implies quad_index_values().contains(v) by {
        if v == 0 {
            assert(quad_index_values()[0] == 0u16);
        } else if v == 1 {
            assert(quad_index_values()[2] == 1u16);
        } else if v == 2 {
            assert(quad_index_values()[1] == 2u16);
        } else {
            assert(quad_index_values()[5] == 3u16);
        }
    }
}

/// The full-screen quad geometry: the four clip-space corners and the
/// two triangles that cover them, three components per vertex, laid out
/// exactly as the vertex shader's `position` attribute expects.
pub fn quad_geometry() -> (g: Geometry)
    ensures
        g.wf(),
        g.positions@ == quad_position_values(),
        g.indices@ == quad_index_values(),
        g.components == 3,
        g.spec_vertex_count() == 4,
        g.indices@.len() == 6,
{
    let mut positions: Vec<i8> = Vec::new();
    positions.push(-1);
    positions.push(1);
    positions.push(0);
    positions.push(1);
    positions.push(1);
    positions.push(0);
    positions.push(-1);
    positions.push(-1);
    positions.push(0);
    positions.push(1);
    positions.push(-1);
    positions.push(0);
    let mut indices: Vec<u16> = Vec::new();
    indices.push(0);
    indices.push(2);
    indices.push(1);
    indices.push(1);
    indices.push(2);
    indices.push(3);
    proof {
        assert(positions@ =~= quad_position_values());
        assert(indices@ =~= quad_index_values());
        lemma_quad_indices_in_bounds();
    }
    Geometry { positions, indices, components: 3 }
}

} // verus!
