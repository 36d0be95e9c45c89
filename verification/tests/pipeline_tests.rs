use primes::pipeline::{
    CustomPipeline, PipelineKey, PrimitiveTopology, RenderPipelineDescriptor,
    SpecializedMeshPipelineError, SpecializedMeshPipelines, VertexAttribute, VertexBufferLayout,
    VertexFormat, VertexStepMode,
};

fn base_descriptor() -> RenderPipelineDescriptor {
    RenderPipelineDescriptor {
        vertex_shader: 1,
        fragment_shader: Some(2),
        layout: vec![10, 11],
        vertex_buffers: vec![VertexBufferLayout {
            array_stride: 32,
            step_mode: VertexStepMode::Vertex,
            attributes: vec![
                VertexAttribute { format: VertexFormat::Float32x3, offset: 0, shader_location: 0 },
                VertexAttribute { format: VertexFormat::Float32x3, offset: 12, shader_location: 1 },
                VertexAttribute { format: VertexFormat::Float32x2, offset: 24, shader_location: 2 },
            ],
        }],
    }
}

#[test]
fn specialize_replaces_both_stage_programs() {
    let pipeline = CustomPipeline::new(7, 99);
    let d = pipeline.specialize(Ok(base_descriptor())).unwrap();
    assert_eq!(d.vertex_shader, 7);
    assert_eq!(d.fragment_shader, Some(7));
}

#[test]
fn specialize_inserts_globals_layout_as_group_2() {
    let pipeline = CustomPipeline::new(7, 99);
    let d = pipeline.specialize(Ok(base_descriptor())).unwrap();
    assert_eq!(d.layout, vec![10, 11, 99]);
}

#[test]
fn specialize_keeps_group_2_distinct_when_more_groups_follow() {
    let pipeline = CustomPipeline::new(7, 99);
    let mut base = base_descriptor();
    base.layout = vec![10, 11, 12];
    let d = pipeline.specialize(Ok(base)).unwrap();
    assert_eq!(d.layout, vec![10, 11, 99, 12]);
}

#[test]
fn specialize_appends_the_per_instance_slot() {
    let pipeline = CustomPipeline::new(7, 99);
    let d = pipeline.specialize(Ok(base_descriptor())).unwrap();
    assert_eq!(d.vertex_buffers.len(), 2);

    let base_slot = &d.vertex_buffers[0];
    assert_eq!(base_slot.array_stride, 32);
    assert!(matches!(base_slot.step_mode, VertexStepMode::Vertex));
    assert_eq!(base_slot.attributes.len(), 3);

    let instance_slot = &d.vertex_buffers[1];
    assert_eq!(instance_slot.array_stride, 4);
    assert!(matches!(instance_slot.step_mode, VertexStepMode::Instance));
    assert_eq!(instance_slot.attributes.len(), 1);
    assert!(matches!(instance_slot.attributes[0].format, VertexFormat::Uint32));
    assert_eq!(instance_slot.attributes[0].offset, 0);
    assert_eq!(instance_slot.attributes[0].shader_location, 3);
}

#[test]
fn specialize_propagates_an_engine_build_error() {
    let pipeline = CustomPipeline::new(7, 99);
    assert!(pipeline.specialize(Err(SpecializedMeshPipelineError)).is_err());
}

#[test]
fn pipeline_cache_builds_each_key_once() {
    let mut cache = SpecializedMeshPipelines::new();
    let key = PipelineKey { msaa_samples: 4, hdr: true, topology: PrimitiveTopology::TriangleList };
    let first = cache.specialize(key);
    let again = cache.specialize(key);
    assert_eq!(first, again);
}

#[test]
fn pipeline_cache_distinguishes_keys() {
    let mut cache = SpecializedMeshPipelines::new();
    let triangles =
        PipelineKey { msaa_samples: 4, hdr: true, topology: PrimitiveTopology::TriangleList };
    let strip =
        PipelineKey { msaa_samples: 4, hdr: true, topology: PrimitiveTopology::TriangleStrip };
    let low_msaa =
        PipelineKey { msaa_samples: 1, hdr: true, topology: PrimitiveTopology::TriangleList };
    let a = cache.specialize(triangles);
    let b = cache.specialize(strip);
    let c = cache.specialize(low_msaa);
    assert_ne!(a, b);
    assert_ne!(a, c);
    assert_ne!(b, c);
    assert_eq!(cache.specialize(triangles), a);
    assert_eq!(cache.specialize(strip), b);
    assert_eq!(cache.specialize(low_msaa), c);
}
