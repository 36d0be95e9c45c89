//! Draw submission: queueing one item per ready render target into the
//! depth-sorted transparent phase, and turning a queued target into one
//! instanced draw call.
//!
//! Anything not yet available — the per-frame extracted mesh, the GPU mesh
//! asset, the instance buffer — skips the target for the frame: an expected
//! transient state during startup, not an error.

use crate::instanced::InstanceMaterialData;
use crate::pipeline::cached_id;
use crate::pipeline::PipelineKey;
use crate::pipeline::PrimitiveTopology;
use crate::pipeline::SpecializedMeshPipelines;
use vstd::prelude::*;

verus! {

/// How a GPU mesh is drawn: through an index buffer, or directly over its
/// vertices.
#[derive(Debug, Clone, Copy, PartialEq, Eq, Structural)]
pub enum GpuBufferInfo {
    Indexed { count: u32 },
    NonIndexed,
}

/// The GPU-side mesh a render target draws, as far as submission reads it.
#[derive(Debug, Clone, Copy, PartialEq, Eq, Structural)]
pub struct GpuMesh {
    pub topology: PrimitiveTopology,
    pub buffer_info: GpuBufferInfo,
    pub vertex_count: u32,
}

/// A target's per-frame extracted mesh data: the world-space depth used as
/// the transparent-phase sort key (the bit pattern of the 32-bit float Z
/// coordinate), and the mesh asset once it has arrived on the GPU.
#[derive(Debug, Clone, Copy, PartialEq, Eq, Structural)]
pub struct MeshInstance {
    pub world_z_bits: u32,
    pub gpu_mesh: Option<GpuMesh>,
}

/// One render target as the queueing step sees it within a view.
#[derive(Debug, Clone, Copy, PartialEq, Eq, Structural)]
pub struct TargetCandidate {
    pub entity: u64,
    /// Absent until the synchronization step has extracted this target.
    pub mesh_instance: Option<MeshInstance>,
}

/// The per-view state that enters the specialization key.
#[derive(Debug, Clone, Copy, PartialEq, Eq, Structural)]
pub struct ExtractedView {
    pub hdr: bool,
}

/// One queued item of the transparent phase: the sort key, the target, and
/// the cached pipeline variant to bind.
#[derive(Debug, Clone, Copy, PartialEq, Eq, Structural)]
pub struct PhaseItem {
    pub sort_key_bits: u32,
    pub entity: u64,
    pub pipeline: u64,
}

/// A target is queued iff its extracted data and its GPU mesh both exist.
pub open spec fn eligible(t: TargetCandidate) -> bool {
    t.mesh_instance is Some && t.mesh_instance->0.gpu_mesh is Some
}

/// The specialization key of an eligible target under a view.
pub open spec fn target_key(t: TargetCandidate, hdr: bool, msaa_samples: u32) -> PipelineKey
    recommends
        eligible(t),
{
    PipelineKey { msaa_samples, hdr, topology: t.mesh_instance->0.gpu_mesh->0.topology }
}

/// A queued item before pipeline lookup: what queueing decides per target.
#[derive(Debug, Clone, Copy, PartialEq, Eq, Structural)]
pub struct QueuedRef {
    pub entity: u64,
    pub sort_key_bits: u32,
    pub key: PipelineKey,
}

/// What queueing owes a view: one entry per eligible target, in submission
/// order, each carrying its entity, its depth sort key, and its key.
pub open spec fn queue_plan(targets: Seq<TargetCandidate>, hdr: bool, msaa_samples: u32) -> Seq<
    QueuedRef,
>
    decreases targets.len(),
{
    if targets.len() == 0 {
        Seq::empty()
    } else {
        let rest = queue_plan(targets.drop_last(), hdr, msaa_samples);
        let t = targets.last();
        if eligible(t) {
            rest.push(
                QueuedRef {
                    entity: t.entity,
                    sort_key_bits: t.mesh_instance->0.world_z_bits,
                    key: target_key(t, hdr, msaa_samples),
                },
            )
        } else {
            rest
        }
    }
}

/// Queues one transparent-phase item per ready target of a view: targets
/// without extracted data or without their GPU mesh are skipped this frame.
/// Each queued item binds the pipeline cached for the view's and mesh's
/// specialization key; the cache grows only by variants for keys it did
/// not hold, and keeps every entry it had.
pub fn queue_custom(
    view: &ExtractedView,
    msaa_samples: u32,
    pipelines: &mut SpecializedMeshPipelines,
    targets: &Vec<TargetCandidate>,
) -> (phase: Vec<PhaseItem>)
    ensures
        final(pipelines)@.len() >= old(pipelines)@.len(),
        final(pipelines)@.take(old(pipelines)@.len() as int) == old(pipelines)@,
        phase@.len() == queue_plan(targets@, view.hdr, msaa_samples).len(),
        forall|i: int|
            0 <= i < phase@.len() ==> {
                let q = queue_plan(targets@, view.hdr, msaa_samples)[i];
                &&& (#[trigger] phase@[i]).entity == q.entity
                &&& phase@[i].sort_key_bits == q.sort_key_bits
                &&& cached_id(final(pipelines)@, q.key) == Some(phase@[i].pipeline)
            },
{
    let mut phase: Vec<PhaseItem> = Vec::new();
    let mut idx: usize = 0;
    let ghost entry_cache = pipelines@;
    proof {
        assert(targets@.take(0) =~= Seq::<TargetCandidate>::empty());
        assert(entry_cache.take(entry_cache.len() as int) =~= entry_cache);
    }
    while idx < targets.len()
        invariant
            idx <= targets@.len(),
            pipelines@.len() >= entry_cache.len(),
            pipelines@.take(entry_cache.len() as int) == entry_cache,
            phase@.len() == queue_plan(targets@.take(idx as int), view.hdr, msaa_samples).len(),
            forall|i: int|
                0 <= i < phase@.len() ==> {
                    let q = queue_plan(targets@.take(idx as int), view.hdr, msaa_samples)[i];
                    &&& (#[trigger] phase@[i]).entity == q.entity
                    &&& phase@[i].sort_key_bits == q.sort_key_bits
                    &&& cached_id(pipelines@, q.key) == Some(phase@[i].pipeline)
                },
        decreases targets@.len() - idx,
    {
        let ghost plan_pre = queue_plan(targets@.take(idx as int), view.hdr, msaa_samples);
        proof {
            assert(targets@.take(idx + 1).drop_last() =~= targets@.take(idx as int));
            assert(targets@.take(idx + 1).last() == targets@[idx as int]);
        }
        let target = targets[idx];
        if let Some(mesh_instance) = target.mesh_instance {
            if let Some(gpu_mesh) = mesh_instance.gpu_mesh {
                let key = PipelineKey { msaa_samples, hdr: view.hdr, topology: gpu_mesh.topology };
                let ghost cache_pre = pipelines@;
                let pipeline = pipelines.specialize(key);
                proof {
                    if cached_id(cache_pre, key) is None {
                        assert forall|i: int| 0 <= i < phase@.len() implies cached_id(
                            pipelines@,
                            plan_pre[i].key,
                        ) == Some(phase@[i].pipeline) by {
                            assert(cached_id(cache_pre, plan_pre[i].key) == Some(
                                phase@[i].pipeline,
                            ));
                            assert(plan_pre[i].key != key);
                            crate::pipeline::lemma_cached_id_push_other(
                                cache_pre,
                                (key, pipeline),
                                plan_pre[i].key,
                            );
                        }
                        assert(pipelines@.take(entry_cache.len() as int) =~= cache_pre.take(
                            entry_cache.len() as int,
                        ));
                    }
                }
                phase.push(
                    PhaseItem {
                        sort_key_bits: mesh_instance.world_z_bits,
                        entity: target.entity,
                        pipeline,
                    },
                );
            }
        }
        idx = idx + 1;
    }
    proof {
        assert(targets@.take(targets@.len() as int) =~= targets@);
    }
    phase
}

/// What the draw command decides for one queued target.
#[derive(Debug, Clone, Copy, PartialEq, Eq, Structural)]
pub enum DrawOutcome {
    /// A prerequisite is missing this frame; the target is skipped, not
    /// failed.
    NotReady,
    /// One instanced draw call: indexed over `element_count` indices or
    /// direct over `element_count` vertices, repeated for every instance,
    /// with the mesh's vertex buffer at slot 0, the instance buffer at
    /// slot 1, and the globals uniform bound at group 2.
    Draw { indexed: bool, element_count: u32, instance_count: u32 },
}

/// The draw command for one queued target: if the target's extracted data,
/// its GPU mesh, or its populated instance buffer is missing, the draw is
/// skipped this frame; otherwise one draw call covers every instance of
/// the snapshot. An empty snapshot never has a populated buffer, so it
/// never produces a draw call.
pub fn render(
    gpu_mesh: Option<&GpuMesh>,
    instance_material_data: Option<&InstanceMaterialData>,
) -> (r: DrawOutcome)
    requires
        instance_material_data is Some ==> instance_material_data->0@.records.len() <= u32::MAX,
    ensures
        r is Draw <==> {
            &&& gpu_mesh is Some
            &&& instance_material_data is Some
            &&& instance_material_data->0@.buffer is Some
        },
        r is Draw ==> {
            &&& r->instance_count == instance_material_data->0@.records.len()
            &&& r->instance_count > 0
            &&& r->indexed == (gpu_mesh->0.buffer_info is Indexed)
            &&& r->element_count == match gpu_mesh->0.buffer_info {
                GpuBufferInfo::Indexed { count } => count,
                GpuBufferInfo::NonIndexed => gpu_mesh->0.vertex_count,
            }
        },
        instance_material_data is Some && instance_material_data->0@.records.len() == 0 ==> r
            is NotReady,
{
    let mesh = match gpu_mesh {
        Some(m) => m,
        None => {
            return DrawOutcome::NotReady;
        },
    };
    let data = match instance_material_data {
        Some(d) => d,
        None => {
            return DrawOutcome::NotReady;
        },
    };
    if !data.has_rendered() {
        return DrawOutcome::NotReady;
    }
    let instance_count = data.buffer_length() as u32;
    match mesh.buffer_info {
        GpuBufferInfo::Indexed { count } => DrawOutcome::Draw {
            indexed: true,
            element_count: count,
            instance_count,
        },
        GpuBufferInfo::NonIndexed => DrawOutcome::Draw {
            indexed: false,
            element_count: mesh.vertex_count,
            instance_count,
        },
    }
}

} // verus!
