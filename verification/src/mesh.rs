//! The walkable world as the caller describes it, and as the engine takes
//! it.

use vstd::prelude::*;
use crate::error::{Error, ErrorView};
use crate::geometry::{bounding_box, cell_of, world_unit_to_cell_unit};
use crate::point::Point;
use crate::single::{is_positive, positive};

verus! {

/// A triangulated walkable surface with the parameters of the agent that
/// walks it. Every length is the bit pattern of a single-precision number in
/// world units.
#[derive(Debug)]
pub struct NavMeshData {
    /// The vertices, flattened: three coordinates for each.
    pub vertices: Vec<u32>,
    /// The triangles, flattened: three vertex numbers for each.
    pub indices: Vec<u16>,
    /// The height an agent needs to pass.
    pub walkable_height: u32,
    /// The radius an agent keeps clear.
    pub walkable_radius: u32,
    /// The highest ledge an agent steps over.
    pub walkable_climb: u32,
    /// The edge of a cell in the horizontal plane.
    pub cell_size: u32,
    /// The height of a cell.
    pub cell_height: u32,
}

/// A `NavMeshData` with its lists as sequences.
pub struct NavMeshDataView {
    pub vertices: Seq<u32>,
    pub indices: Seq<u16>,
    pub walkable_height: u32,
    pub walkable_radius: u32,
    pub walkable_climb: u32,
    pub cell_size: u32,
    pub cell_height: u32,
}

impl View for NavMeshData {
    type V = NavMeshDataView;

    open spec fn view(&self) -> NavMeshDataView {
        NavMeshDataView {
            vertices: self.vertices@,
            indices: self.indices@,
            walkable_height: self.walkable_height,
            walkable_radius: self.walkable_radius,
            walkable_climb: self.walkable_climb,
            cell_size: self.cell_size,
            cell_height: self.cell_height,
        }
    }
}

/// What the engine's construction call is given: the vertices in cell
/// units, the triangles as they came, both counts, the bounding box in world
/// units, and the agent and cell parameters as they came.
#[derive(Debug)]
pub struct MeshPayload {
    pub verts: Vec<u16>,
    pub vert_count: u32,
    pub indices: Vec<u16>,
    pub triangles_count: u32,
    pub bmin: Point,
    pub bmax: Point,
    pub walkable_height: u32,
    pub walkable_radius: u32,
    pub walkable_climb: u32,
    pub cell_size: u32,
    pub cell_height: u32,
}

/// A `MeshPayload` with its lists as sequences.
pub struct MeshPayloadView {
    pub verts: Seq<u16>,
    pub vert_count: u32,
    pub indices: Seq<u16>,
    pub triangles_count: u32,
    pub bmin: Point,
    pub bmax: Point,
    pub walkable_height: u32,
    pub walkable_radius: u32,
    pub walkable_climb: u32,
    pub cell_size: u32,
    pub cell_height: u32,
}

impl View for MeshPayload {
    type V = MeshPayloadView;

    open spec fn view(&self) -> MeshPayloadView {
        MeshPayloadView {
            verts: self.verts@,
            vert_count: self.vert_count,
            indices: self.indices@,
            triangles_count: self.triangles_count,
            bmin: self.bmin,
            bmax: self.bmax,
            walkable_height: self.walkable_height,
            walkable_radius: self.walkable_radius,
            walkable_climb: self.walkable_climb,
            cell_size: self.cell_size,
            cell_height: self.cell_height,
        }
    }
}

/// Whether every triangle corner names a vertex among the first `count`.
pub open spec fn indices_in_range(indices: Seq<u16>, count: int) -> bool {
    forall|k: int| 0 <= k < indices.len() ==> (#[trigger] indices[k] as int) < count
}

/// The cell coordinates of a list of cell-space offsets, one for one.
pub open spec fn cells(offsets: Seq<u32>) -> Seq<u16> {
    Seq::new(offsets.len(), |i: int| cell_of(offsets[i]) as u16)
}

impl NavMeshDataView {
    /// The number of vertices.
    pub open spec fn vertex_count(self) -> int {
        self.vertices.len() as int / 3
    }

    /// The number of triangles.
    pub open spec fn triangle_count(self) -> int {
        self.indices.len() as int / 3
    }

    /// Why no query can be built from this mesh, if there is a reason: the
    /// first rule in this order that the mesh breaks. A mesh has at least one
    /// vertex; its vertex and index lists are made of triples; every index
    /// names a vertex; cell size and cell height are numbers above zero; both
    /// counts fit the engine's 32-bit fields.
    pub open spec fn defect(self) -> Option<Seq<char>> {
        if self.vertices.len() == 0 {
            Some("Mesh has no vertices"@)
        } else if self.vertices.len() % 3 != 0 {
            Some("Vertex list is not made of triples"@)
        } else if self.indices.len() % 3 != 0 {
            Some("Index list is not made of triples"@)
        } else if self.vertex_count() > u32::MAX || self.triangle_count() > u32::MAX {
            Some("Mesh is too large"@)
        } else if !indices_in_range(self.indices, self.vertex_count()) {
            Some("Triangle index out of range"@)
        } else if !is_positive(self.cell_size) {
            Some("Cell size must be positive"@)
        } else if !is_positive(self.cell_height) {
            Some("Cell height must be positive"@)
        } else {
            None
        }
    }

    /// The construction payload for this mesh, given the cell-space offset
    /// of each vertex coordinate.
    pub open spec fn payload(self, offsets: Seq<u32>) -> MeshPayloadView {
        MeshPayloadView {
            verts: cells(offsets),
            vert_count: self.vertex_count() as u32,
            indices: self.indices,
            triangles_count: self.triangle_count() as u32,
            bmin: bounding_box(self.vertices).0,
            bmax: bounding_box(self.vertices).1,
            walkable_height: self.walkable_height,
            walkable_radius: self.walkable_radius,
            walkable_climb: self.walkable_climb,
            cell_size: self.cell_size,
            cell_height: self.cell_height,
        }
    }
}

/// Whether every index is below `count`.
fn all_below(indices: &Vec<u16>, count: usize) -> (r: bool)
    ensures
        r == indices_in_range(indices@, count as int),
{
    let mut k: usize = 0;
    while k < indices.len()
        invariant
            k <= indices.len(),
            forall|j: int| 0 <= j < k ==> (#[trigger] indices@[j] as int) < count,
        decreases indices.len() - k,
    {
        if indices[k] as usize >= count {
            return false;
        }
        k = k + 1;
    }
    true
}

/// The cell coordinate of each offset, in order.
pub fn quantize(offsets: &Vec<u32>) -> (verts: Vec<u16>)
    ensures
        verts@ == cells(offsets@),
{
    let mut verts: Vec<u16> = Vec::new();
    let mut i: usize = 0;
    while i < offsets.len()
        invariant
            i <= offsets.len(),
            verts.len() == i,
            forall|j: int| 0 <= j < i ==> verts@[j] == cell_of(offsets@[j]) as u16,
        decreases offsets.len() - i,
    {
        verts.push(world_unit_to_cell_unit(offsets[i]));
        i = i + 1;
    }
    assert(verts@ =~= cells(offsets@));
    verts
}

impl NavMeshData {
    /// Holds the mesh against the rules that `defect` lists, and names the
    /// first one that it breaks.
    pub fn validate(&self) -> (r: Result<(), Error>)
        ensures
            match self@.defect() {
                Some(reason) => r matches Err(e) && e@ == ErrorView::CreateQueryError(reason),
                None => r is Ok,
            },
    {
        if self.vertices.len() == 0 {
            return Err(Error::CreateQueryError("Mesh has no vertices".to_string()));
        }
        if self.vertices.len() % 3 != 0 {
            return Err(Error::CreateQueryError("Vertex list is not made of triples".to_string()));
        }
        if self.indices.len() % 3 != 0 {
            return Err(Error::CreateQueryError("Index list is not made of triples".to_string()));
        }
        let vertex_count: usize = self.vertices.len() / 3;
        let triangle_count: usize = self.indices.len() / 3;
        if vertex_count > u32::MAX as usize || triangle_count > u32::MAX as usize {
            return Err(Error::CreateQueryError("Mesh is too large".to_string()));
        }
        if !all_below(&self.indices, vertex_count) {
            return Err(Error::CreateQueryError("Triangle index out of range".to_string()));
        }
        if !positive(self.cell_size) {
            return Err(Error::CreateQueryError("Cell size must be positive".to_string()));
        }
        if !positive(self.cell_height) {
            return Err(Error::CreateQueryError("Cell height must be positive".to_string()));
        }
        Ok(())
    }
}

} // verus!
