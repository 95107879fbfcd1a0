use recast_detour_rs::error::Error;
use recast_detour_rs::mesh::{MeshPayload, NavMeshData};
use recast_detour_rs::point::Point;
use recast_detour_rs::query::{BuildReply, QueryBuild, RecastQuery};

fn bits(values: &[f32]) -> Vec<u32> {
    values.iter().map(|v| v.to_bits()).collect()
}

fn simple_mesh() -> NavMeshData {
    let vertices = bits(&[0.0, 0.0, 0.0, 10.0, 0.0, 0.0, 10.0, 0.0, 10.0, 0.0, 0.0, 10.0]);
    let indices = vec![0, 1, 2, 0, 2, 3];
    NavMeshData {
        vertices,
        indices,
        walkable_height: 0.2f32.to_bits(),
        walkable_radius: 0.2f32.to_bits(),
        walkable_climb: 0.2f32.to_bits(),
        cell_size: 0.1f32.to_bits(),
        cell_height: 0.1f32.to_bits(),
    }
}

/// What a host does for a construction that waits for offsets.
fn offsets(vertices: &[u32], payload: &MeshPayload) -> Vec<u32> {
    let origin = [payload.bmin.x, payload.bmin.y, payload.bmin.z];
    let cell_size = f32::from_bits(payload.cell_size);
    vertices
        .iter()
        .enumerate()
        .map(|(i, v)| ((f32::from_bits(*v) - f32::from_bits(origin[i % 3])) / cell_size).to_bits())
        .collect()
}

/// Runs a construction up to the engine call, and returns what the engine
/// would be given.
fn payload_of(data: NavMeshData) -> MeshPayload {
    let build = RecastQuery::new_from_mesh(data);
    let reply = match &build {
        QueryBuild::Scale { vertices, payload } => BuildReply::Offsets(offsets(vertices, payload)),
        other => panic!("not waiting for offsets: {:?}", other),
    };
    match build.advance(reply) {
        QueryBuild::Create { payload } => payload,
        other => panic!("not waiting for the engine: {:?}", other),
    }
}

/// Runs a whole construction against an engine that hands out `handle`.
fn build_with(data: NavMeshData, handle: usize, error: &str) -> Result<RecastQuery, Error> {
    let mut build = RecastQuery::new_from_mesh(data);
    loop {
        let reply = match &build {
            QueryBuild::Scale { vertices, payload } => BuildReply::Offsets(offsets(vertices, payload)),
            QueryBuild::Create { .. } => BuildReply::Query { handle, error: error.to_string() },
            QueryBuild::Done(_) => break,
        };
        build = build.advance(reply);
    }
    build.result().unwrap()
}

fn defect_of(data: NavMeshData) -> String {
    match RecastQuery::new_from_mesh(data) {
        QueryBuild::Done(Err(Error::CreateQueryError(text))) => text,
        other => panic!("no defect found: {:?}", other),
    }
}

#[test]
fn smoke_test() {
    let mesh = simple_mesh();

    let q = build_with(mesh, 0x1000, "").unwrap();
    drop(q);
}

#[test]
fn construction_hands_the_engine_the_quantized_mesh() {
    let payload = payload_of(simple_mesh());
    assert_eq!(payload.verts, vec![0, 0, 0, 100, 0, 0, 100, 0, 100, 0, 0, 100]);
    assert_eq!(payload.vert_count, 4);
    assert_eq!(payload.indices, vec![0, 1, 2, 0, 2, 3]);
    assert_eq!(payload.triangles_count, 2);
    assert_eq!(payload.bmin.coordinates(), (0.0f32.to_bits(), 0.0f32.to_bits(), 0.0f32.to_bits()));
    assert_eq!(payload.bmax.coordinates(), (10.0f32.to_bits(), 0.0f32.to_bits(), 10.0f32.to_bits()));
    assert_eq!(payload.walkable_height, 0.2f32.to_bits());
    assert_eq!(payload.walkable_radius, 0.2f32.to_bits());
    assert_eq!(payload.walkable_climb, 0.2f32.to_bits());
    assert_eq!(payload.cell_size, 0.1f32.to_bits());
    assert_eq!(payload.cell_height, 0.1f32.to_bits());
}

#[test]
fn construction_quantizes_from_the_box_minimum() {
    let mut mesh = simple_mesh();
    mesh.vertices = bits(&[-5.0, 2.0, 1.0, 5.0, 2.5, 1.0, 5.0, 3.0, 11.0, -5.0, 2.0, 11.0]);
    mesh.cell_size = 0.5f32.to_bits();
    mesh.walkable_height = 1.0f32.to_bits();
    mesh.walkable_radius = 2.0f32.to_bits();
    mesh.walkable_climb = 3.0f32.to_bits();
    mesh.cell_height = 0.25f32.to_bits();
    let payload = payload_of(mesh);
    assert_eq!(payload.verts, vec![0, 0, 0, 20, 1, 0, 20, 2, 20, 0, 0, 20]);
    assert_eq!(payload.bmin.coordinates(), ((-5.0f32).to_bits(), 2.0f32.to_bits(), 1.0f32.to_bits()));
    assert_eq!(payload.bmax.coordinates(), (5.0f32.to_bits(), 3.0f32.to_bits(), 11.0f32.to_bits()));
    assert_eq!(payload.walkable_height, 1.0f32.to_bits());
    assert_eq!(payload.walkable_radius, 2.0f32.to_bits());
    assert_eq!(payload.walkable_climb, 3.0f32.to_bits());
    assert_eq!(payload.cell_size, 0.5f32.to_bits());
    assert_eq!(payload.cell_height, 0.25f32.to_bits());
}

#[test]
fn construction_waits_for_offsets_with_an_empty_vertex_list() {
    match RecastQuery::new_from_mesh(simple_mesh()) {
        QueryBuild::Scale { vertices, payload } => {
            assert_eq!(vertices, simple_mesh().vertices);
            assert!(payload.verts.is_empty());
            assert_eq!(payload.vert_count, 4);
            assert_eq!(payload.triangles_count, 2);
        }
        other => panic!("not waiting for offsets: {:?}", other),
    }
}

#[test]
fn construction_yields_the_engine_handle() {
    let q = build_with(simple_mesh(), 0xdead_beef, "ignored").unwrap();
    assert_eq!(q.handle(), 0xdead_beef);
    assert_eq!(q.handle(), 0xdead_beef);
    assert_eq!(q.release(), 0xdead_beef);
}

#[test]
fn construction_fails_with_the_engine_text_on_a_null_handle() {
    match build_with(simple_mesh(), 0, "dtCreateNavMeshdata failed!") {
        Err(Error::CreateQueryError(text)) => assert_eq!(text, "dtCreateNavMeshdata failed!"),
        other => panic!("{:?}", other),
    }
}

#[test]
fn construction_that_is_over_stays_over() {
    let build = RecastQuery::new_from_mesh(simple_mesh());
    let build = build.advance(BuildReply::Offsets(vec![0; 12]));
    let build = build.advance(BuildReply::Query { handle: 0, error: "first".to_string() });
    let build = build.advance(BuildReply::Query { handle: 7, error: "second".to_string() });
    let build = build.advance(BuildReply::Offsets(vec![0; 12]));
    match build.result() {
        Some(Err(Error::CreateQueryError(text))) => assert_eq!(text, "first"),
        other => panic!("{:?}", other),
    }
}

#[test]
fn construction_has_no_result_before_it_is_over() {
    let build = RecastQuery::new_from_mesh(simple_mesh());
    assert!(build.result().is_none());
    let build = RecastQuery::new_from_mesh(simple_mesh()).advance(BuildReply::Offsets(vec![0; 12]));
    assert!(build.result().is_none());
}

#[test]
fn construction_rejects_offsets_of_another_length() {
    let build = RecastQuery::new_from_mesh(simple_mesh()).advance(BuildReply::Offsets(vec![0; 11]));
    match build.result() {
        Some(Err(Error::CreateQueryError(text))) => assert_eq!(text, "Offsets do not match the vertices"),
        other => panic!("{:?}", other),
    }
}

#[test]
fn construction_rejects_a_reply_it_did_not_wait_for() {
    let build = RecastQuery::new_from_mesh(simple_mesh())
        .advance(BuildReply::Query { handle: 5, error: String::new() });
    match build.result() {
        Some(Err(Error::CreateQueryError(text))) => assert_eq!(text, "Unexpected reply"),
        other => panic!("{:?}", other),
    }
    let build = RecastQuery::new_from_mesh(simple_mesh())
        .advance(BuildReply::Offsets(vec![0; 12]))
        .advance(BuildReply::Offsets(vec![0; 12]));
    match build.result() {
        Some(Err(Error::CreateQueryError(text))) => assert_eq!(text, "Unexpected reply"),
        other => panic!("{:?}", other),
    }
}

#[test]
fn mesh_without_vertices_is_rejected() {
    let mut mesh = simple_mesh();
    mesh.vertices.clear();
    mesh.indices.clear();
    assert_eq!(defect_of(mesh), "Mesh has no vertices");
}

#[test]
fn mesh_with_a_broken_vertex_list_is_rejected() {
    let mut mesh = simple_mesh();
    mesh.vertices.pop();
    assert_eq!(defect_of(mesh), "Vertex list is not made of triples");
}

#[test]
fn mesh_with_a_broken_index_list_is_rejected() {
    let mut mesh = simple_mesh();
    mesh.indices.pop();
    assert_eq!(defect_of(mesh), "Index list is not made of triples");
}

#[test]
fn mesh_with_an_index_out_of_range_is_rejected() {
    let mut mesh = simple_mesh();
    mesh.indices[4] = 4;
    assert_eq!(defect_of(mesh), "Triangle index out of range");
    let mut mesh = simple_mesh();
    mesh.indices[5] = 3;
    assert!(mesh.validate().is_ok());
}

#[test]
fn mesh_with_a_cell_size_that_is_not_positive_is_rejected() {
    for bad in [0.0f32, -0.0, -0.1, f32::NAN, f32::NEG_INFINITY] {
        let mut mesh = simple_mesh();
        mesh.cell_size = bad.to_bits();
        assert_eq!(defect_of(mesh), "Cell size must be positive");
    }
}

#[test]
fn mesh_with_a_cell_height_that_is_not_positive_is_rejected() {
    for bad in [0.0f32, -0.0, -0.1, f32::NAN, f32::NEG_INFINITY] {
        let mut mesh = simple_mesh();
        mesh.cell_height = bad.to_bits();
        assert_eq!(defect_of(mesh), "Cell height must be positive");
    }
}

#[test]
fn mesh_defects_are_named_in_order() {
    let mut mesh = simple_mesh();
    mesh.vertices.pop();
    mesh.indices.pop();
    mesh.cell_size = 0;
    assert_eq!(defect_of(mesh), "Vertex list is not made of triples");
    let mut mesh = simple_mesh();
    mesh.indices[0] = 9;
    mesh.cell_size = 0;
    mesh.cell_height = 0;
    assert_eq!(defect_of(mesh), "Triangle index out of range");
    let mut mesh = simple_mesh();
    mesh.cell_size = 0;
    mesh.cell_height = 0;
    assert_eq!(defect_of(mesh), "Cell size must be positive");
}

#[test]
fn mesh_without_triangles_is_accepted() {
    let mut mesh = simple_mesh();
    mesh.indices.clear();
    assert!(mesh.validate().is_ok());
    let payload = payload_of(mesh);
    assert_eq!(payload.triangles_count, 0);
    assert_eq!(payload.vert_count, 4);
}

#[test]
fn validation_names_the_defect_as_a_construction_error() {
    let mut mesh = simple_mesh();
    mesh.vertices.clear();
    match mesh.validate() {
        Err(Error::CreateQueryError(text)) => assert_eq!(text, "Mesh has no vertices"),
        other => panic!("{:?}", other),
    }
    assert!(simple_mesh().validate().is_ok());
}

#[test]
fn error_message_is_the_text_it_carries() {
    assert_eq!(Error::CreateQueryError("a".to_string()).message(), "a");
    assert_eq!(Error::FindPointError("b".to_string()).message(), "b");
    assert_eq!(Error::FindPathError("c".to_string()).message(), "c");
}

#[test]
fn vertices_that_are_no_number_fall_into_cell_zero() {
    let mut mesh = simple_mesh();
    mesh.vertices[3] = f32::NAN.to_bits();
    let payload = payload_of(mesh);
    assert_eq!(payload.verts, vec![0, 0, 0, 0, 0, 0, 100, 0, 100, 0, 0, 100]);
    assert_eq!(Point::from(payload.bmax.coordinates()).x, 10.0f32.to_bits());
}
