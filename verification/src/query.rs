//! The query handle and its construction.
//!
//! The engine is not called from here. A construction is a small state
//! machine: each state names the work that the host has to do next, and
//! `advance` decides on what the host brings back.

use vstd::prelude::*;
use crate::error::{Error, ErrorView};
use crate::geometry::{bounding_box, compute_bb};
use crate::mesh::{cells, quantize, MeshPayload, MeshPayloadView, NavMeshData, NavMeshDataView};

verus! {

/// The owner of one engine-side query object, known by the address the
/// engine gave out for it. There is no way to copy a `RecastQuery`: whoever
/// holds it holds the only claim to the engine object, and `release` gives
/// that claim up.
#[derive(Debug)]
pub struct RecastQuery {
    handle: usize,
}

impl View for RecastQuery {
    type V = usize;

    /// The engine's handle.
    closed spec fn view(&self) -> usize {
        self.handle
    }
}

/// A construction in progress.
#[derive(Debug)]
pub enum QueryBuild {
    /// The host is to bring the cell-space offset of every entry of
    /// `vertices`: its distance from the coordinate of `payload.bmin` on the
    /// same axis, divided by `payload.cell_size`, in single precision.
    Scale { vertices: Vec<u32>, payload: MeshPayload },
    /// The host is to call the engine's construction with `payload`.
    Create { payload: MeshPayload },
    /// The construction is over.
    Done(Result<RecastQuery, Error>),
}

/// A `QueryBuild` with its lists as sequences and the query as its handle.
pub enum QueryBuildView {
    Scale { vertices: Seq<u32>, payload: MeshPayloadView },
    Create { payload: MeshPayloadView },
    Done(Result<usize, ErrorView>),
}

impl View for QueryBuild {
    type V = QueryBuildView;

    open spec fn view(&self) -> QueryBuildView {
        match self {
            QueryBuild::Scale { vertices, payload } => QueryBuildView::Scale {
                vertices: vertices@,
                payload: payload@,
            },
            QueryBuild::Create { payload } => QueryBuildView::Create { payload: payload@ },
            QueryBuild::Done(Ok(query)) => QueryBuildView::Done(Ok(query@)),
            QueryBuild::Done(Err(error)) => QueryBuildView::Done(Err(error@)),
        }
    }
}

/// What the host brings back to a construction.
#[derive(Debug)]
pub enum BuildReply {
    /// The cell-space offsets, one for each vertex coordinate.
    Offsets(Vec<u32>),
    /// What the engine's construction returned: the handle, zero where it
    /// built nothing, and its diagnostic text.
    Query { handle: usize, error: String },
}

/// A `BuildReply` with its list and its text as sequences.
pub enum BuildReplyView {
    Offsets(Seq<u32>),
    Query { handle: usize, error: Seq<char> },
}

impl View for BuildReply {
    type V = BuildReplyView;

    open spec fn view(&self) -> BuildReplyView {
        match self {
            BuildReply::Offsets(offsets) => BuildReplyView::Offsets(offsets@),
            BuildReply::Query { handle, error } => BuildReplyView::Query {
                handle: *handle,
                error: error@,
            },
        }
    }
}

/// The state a construction starts in: over at once where the mesh has a
/// defect, and else waiting for the offsets, with everything of the payload
/// in place but the vertices in cell units.
pub open spec fn build_start(mesh: NavMeshDataView) -> QueryBuildView {
    match mesh.defect() {
        Some(reason) => QueryBuildView::Done(Err(ErrorView::CreateQueryError(reason))),
        None => QueryBuildView::Scale {
            vertices: mesh.vertices,
            payload: mesh.payload(Seq::empty()),
        },
    }
}

/// The state that follows `state` on `reply`.
///
/// Offsets that are as many as the vertex coordinates become the payload's
/// vertices, cell by cell. A handle that is not zero becomes the query, and a
/// zero handle a failure with the engine's text. Whatever else comes ends the
/// construction with a failure, and a construction that is over stays as it
/// is.
pub open spec fn build_step(state: QueryBuildView, reply: BuildReplyView) -> QueryBuildView {
    match state {
        QueryBuildView::Scale { vertices, payload } => match reply {
            BuildReplyView::Offsets(offsets) => if offsets.len() == vertices.len() {
                QueryBuildView::Create {
                    payload: MeshPayloadView { verts: cells(offsets), ..payload },
                }
            } else {
                QueryBuildView::Done(
                    Err(ErrorView::CreateQueryError("Offsets do not match the vertices"@)),
                )
            },
            _ => QueryBuildView::Done(Err(ErrorView::CreateQueryError("Unexpected reply"@))),
        },
        QueryBuildView::Create { payload } => match reply {
            BuildReplyView::Query { handle, error } => if handle == 0 {
                QueryBuildView::Done(Err(ErrorView::CreateQueryError(error)))
            } else {
                QueryBuildView::Done(Ok(handle))
            },
            _ => QueryBuildView::Done(Err(ErrorView::CreateQueryError("Unexpected reply"@))),
        },
        QueryBuildView::Done(result) => QueryBuildView::Done(result),
    }
}

impl RecastQuery {
    #[verifier::type_invariant]
    spec fn live(self) -> bool {
        self.handle != 0
    }

    /// Starts the construction of a query from a mesh. The mesh is validated
    /// first; from one that passes, the bounding box and all of the payload
    /// that needs no division are computed here.
    pub fn new_from_mesh(data: NavMeshData) -> (build: QueryBuild)
        ensures
            build@ == build_start(data@),
    {
        match data.validate() {
            Err(error) => QueryBuild::Done(Err(error)),
            Ok(()) => {
                let (bmin, bmax) = compute_bb(&data.vertices);
                let vert_count: u32 = (data.vertices.len() / 3) as u32;
                let triangles_count: u32 = (data.indices.len() / 3) as u32;
                let verts: Vec<u16> = Vec::new();
                assert(verts@ =~= cells(Seq::empty()));
                QueryBuild::Scale {
                    vertices: data.vertices,
                    payload: MeshPayload {
                        verts,
                        vert_count,
                        indices: data.indices,
                        triangles_count,
                        bmin,
                        bmax,
                        walkable_height: data.walkable_height,
                        walkable_radius: data.walkable_radius,
                        walkable_climb: data.walkable_climb,
                        cell_size: data.cell_size,
                        cell_height: data.cell_height,
                    },
                }
            },
        }
    }

    /// The engine's handle, for the host to make a call with.
    pub fn handle(&self) -> (handle: usize)
        ensures
            handle == self@,
            handle != 0,
    {
        proof {
            use_type_invariant(self);
        }
        self.handle
    }

    /// Gives the query up. What comes back is the handle that the engine's
    /// destruction is owed, once.
    pub fn release(self) -> (handle: usize)
        ensures
            handle == self@,
            handle != 0,
    {
        proof {
            use_type_invariant(&self);
        }
        self.handle
    }
}

impl QueryBuild {
    /// Takes what the host brought back and moves on; see `build_step`.
    pub fn advance(self, reply: BuildReply) -> (next: QueryBuild)
        ensures
            next@ == build_step(self@, reply@),
    {
        match self {
            QueryBuild::Scale { vertices, payload } => match reply {
                BuildReply::Offsets(offsets) => {
                    if offsets.len() == vertices.len() {
                        let mut payload = payload;
                        payload.verts = quantize(&offsets);
                        QueryBuild::Create { payload }
                    } else {
                        QueryBuild::Done(
                            Err(Error::CreateQueryError("Offsets do not match the vertices".to_string())),
                        )
                    }
                },
                BuildReply::Query { .. } => QueryBuild::Done(
                    Err(Error::CreateQueryError("Unexpected reply".to_string())),
                ),
            },
            QueryBuild::Create { payload } => match reply {
                BuildReply::Query { handle, error } => {
                    if handle == 0 {
                        QueryBuild::Done(Err(Error::CreateQueryError(error)))
                    } else {
                        QueryBuild::Done(Ok(RecastQuery { handle }))
                    }
                },
                BuildReply::Offsets(_) => QueryBuild::Done(
                    Err(Error::CreateQueryError("Unexpected reply".to_string())),
                ),
            },
            QueryBuild::Done(result) => QueryBuild::Done(result),
        }
    }

    /// The outcome, once the construction is over.
    pub fn result(self) -> (r: Option<Result<RecastQuery, Error>>)
        ensures
            match self@ {
                QueryBuildView::Done(Ok(handle)) => r matches Some(Ok(query)) && query@ == handle,
                QueryBuildView::Done(Err(error)) => r matches Some(Err(e)) && e@ == error,
                _ => r is None,
            },
    {
        match self {
            QueryBuild::Done(result) => Some(result),
            _ => None,
        }
    }
}

/// From a mesh without defect and one offset for each vertex coordinate, a
/// construction reaches the engine with the payload of that mesh: its
/// bounding box, its counts, its triangles and parameters as they came, and
/// each offset's cell.
pub proof fn lemma_build_reaches_engine(mesh: NavMeshDataView, offsets: Seq<u32>)
    requires
        mesh.defect() is None,
        offsets.len() == mesh.vertices.len(),
    ensures
        build_step(build_start(mesh), BuildReplyView::Offsets(offsets)) == (QueryBuildView::Create {
            payload: mesh.payload(offsets),
        }),
        mesh.payload(offsets).verts.len() == mesh.vertices.len(),
        mesh.payload(offsets).vert_count == mesh.vertices.len() / 3,
        mesh.payload(offsets).triangles_count == mesh.indices.len() / 3,
        (mesh.payload(offsets).bmin, mesh.payload(offsets).bmax) == bounding_box(mesh.vertices),
{
}

/// A mesh without defect yields a query wherever the engine hands out a
/// handle for it: the query is that handle, and nothing on the way can fail
/// but the engine.
pub proof fn lemma_well_formed_mesh_builds(
    mesh: NavMeshDataView,
    offsets: Seq<u32>,
    handle: usize,
    error: Seq<char>,
)
    requires
        mesh.defect() is None,
        offsets.len() == mesh.vertices.len(),
        handle != 0,
    ensures
        build_step(
            build_step(build_start(mesh), BuildReplyView::Offsets(offsets)),
            BuildReplyView::Query { handle, error },
        ) == QueryBuildView::Done(Ok(handle)),
{
}

/// A construction yields a query exactly when the engine hands out a handle
/// that is not zero, and else fails with the engine's text: nothing is kept
/// of a construction that failed.
pub proof fn lemma_build_is_all_or_nothing(payload: MeshPayloadView, handle: usize, error: Seq<char>)
    ensures
        build_step(QueryBuildView::Create { payload }, BuildReplyView::Query { handle, error }) == (
        if handle != 0 {
            QueryBuildView::Done(Ok(handle))
        } else {
            QueryBuildView::Done(Err(ErrorView::CreateQueryError(error)))
        }),
{
}

} // verus!
