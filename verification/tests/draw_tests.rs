use primes::draw::{
    queue_custom, render, DrawOutcome, ExtractedView, GpuBufferInfo, GpuMesh, MeshInstance,
    TargetCandidate,
};
use primes::instanced::InstanceMaterialData;
use primes::pipeline::{PrimitiveTopology, SpecializedMeshPipelines};

fn triangle_mesh() -> GpuMesh {
    GpuMesh {
        topology: PrimitiveTopology::TriangleList,
        buffer_info: GpuBufferInfo::Indexed { count: 48 },
        vertex_count: 18,
    }
}

#[test]
fn queue_skips_targets_that_are_not_ready() {
    let view = ExtractedView { hdr: true };
    let mut pipelines = SpecializedMeshPipelines::new();
    let targets = vec![
        TargetCandidate {
            entity: 1,
            mesh_instance: Some(MeshInstance { world_z_bits: 5, gpu_mesh: Some(triangle_mesh()) }),
        },
        TargetCandidate { entity: 2, mesh_instance: None },
        TargetCandidate {
            entity: 3,
            mesh_instance: Some(MeshInstance { world_z_bits: 9, gpu_mesh: None }),
        },
        TargetCandidate {
            entity: 4,
            mesh_instance: Some(MeshInstance { world_z_bits: 7, gpu_mesh: Some(triangle_mesh()) }),
        },
    ];
    let phase = queue_custom(&view, 4, &mut pipelines, &targets);
    assert_eq!(phase.len(), 2);
    assert_eq!(phase[0].entity, 1);
    assert_eq!(phase[0].sort_key_bits, 5);
    assert_eq!(phase[1].entity, 4);
    assert_eq!(phase[1].sort_key_bits, 7);
    // Both targets share the specialization key, so they share the cached
    // pipeline variant.
    assert_eq!(phase[0].pipeline, phase[1].pipeline);
}

#[test]
fn queue_of_empty_view_is_empty() {
    let view = ExtractedView { hdr: false };
    let mut pipelines = SpecializedMeshPipelines::new();
    let phase = queue_custom(&view, 1, &mut pipelines, &Vec::new());
    assert!(phase.is_empty());
}

#[test]
fn queue_gives_distinct_topologies_distinct_pipelines() {
    let view = ExtractedView { hdr: false };
    let mut pipelines = SpecializedMeshPipelines::new();
    let mut strip_mesh = triangle_mesh();
    strip_mesh.topology = PrimitiveTopology::TriangleStrip;
    let targets = vec![
        TargetCandidate {
            entity: 1,
            mesh_instance: Some(MeshInstance { world_z_bits: 0, gpu_mesh: Some(triangle_mesh()) }),
        },
        TargetCandidate {
            entity: 2,
            mesh_instance: Some(MeshInstance { world_z_bits: 0, gpu_mesh: Some(strip_mesh) }),
        },
    ];
    let phase = queue_custom(&view, 1, &mut pipelines, &targets);
    assert_eq!(phase.len(), 2);
    assert_ne!(phase[0].pipeline, phase[1].pipeline);
}

#[test]
fn render_skips_when_mesh_is_missing() {
    let mut data = InstanceMaterialData::from_iter(vec![2, 3]);
    data.ensure_gpu_buffer();
    assert!(matches!(render(None, Some(&data)), DrawOutcome::NotReady));
}

#[test]
fn render_skips_when_extracted_data_is_missing() {
    let mesh = triangle_mesh();
    assert!(matches!(render(Some(&mesh), None), DrawOutcome::NotReady));
}

#[test]
fn render_skips_until_the_buffer_is_prepared() {
    let mesh = triangle_mesh();
    let mut data = InstanceMaterialData::from_iter(vec![2, 3]);
    assert!(matches!(render(Some(&mesh), Some(&data)), DrawOutcome::NotReady));
    data.ensure_gpu_buffer();
    match render(Some(&mesh), Some(&data)) {
        DrawOutcome::Draw { indexed, element_count, instance_count } => {
            assert!(indexed);
            assert_eq!(element_count, 48);
            assert_eq!(instance_count, 2);
        }
        DrawOutcome::NotReady => panic!("expected a draw call"),
    }
}

#[test]
fn render_draws_non_indexed_meshes_over_their_vertices() {
    let mesh = GpuMesh {
        topology: PrimitiveTopology::TriangleList,
        buffer_info: GpuBufferInfo::NonIndexed,
        vertex_count: 18,
    };
    let mut data = InstanceMaterialData::from_iter(vec![2, 3, 5, 7]);
    data.ensure_gpu_buffer();
    match render(Some(&mesh), Some(&data)) {
        DrawOutcome::Draw { indexed, element_count, instance_count } => {
            assert!(!indexed);
            assert_eq!(element_count, 18);
            assert_eq!(instance_count, 4);
        }
        DrawOutcome::NotReady => panic!("expected a draw call"),
    }
}

#[test]
fn empty_instance_sequence_produces_no_draw_call() {
    // One render target whose snapshot holds no records: preparation
    // allocates nothing and the draw is skipped, with no panic.
    let mesh = triangle_mesh();
    let mut data = InstanceMaterialData::from_iter(Vec::new());
    assert!(!data.ensure_gpu_buffer());
    assert!(!data.has_rendered());
    assert!(matches!(render(Some(&mesh), Some(&data)), DrawOutcome::NotReady));
}
