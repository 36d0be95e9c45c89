//! The custom pipeline: a specialization of the engine's standard 2D mesh
//! pipeline, derived once per distinct key and cached.
//!
//! The descriptor model carries what the specialization reads and writes:
//! the program handles, the bind-group layout list, and the vertex buffer
//! slots. GPU-side objects (programs, layouts) appear as opaque numeric
//! handles; building them belongs to the host.

use vstd::prelude::*;

verus! {

#[derive(Debug, Clone, Copy, PartialEq, Eq, Structural)]
pub enum PrimitiveTopology {
    PointList,
    LineList,
    LineStrip,
    TriangleList,
    TriangleStrip,
}

/// The specialization key: the rendering conditions that select which
/// cached pipeline variant applies.
#[derive(Debug, Clone, Copy, PartialEq, Eq, Structural)]
pub struct PipelineKey {
    pub msaa_samples: u32,
    pub hdr: bool,
    pub topology: PrimitiveTopology,
}

#[derive(Debug, Clone, Copy, PartialEq, Eq, Structural)]
pub enum VertexFormat {
    Float32,
    Float32x2,
    Float32x3,
    Float32x4,
    Uint32,
}

#[derive(Debug, Clone, Copy, PartialEq, Eq, Structural)]
pub enum VertexStepMode {
    Vertex,
    Instance,
}

#[derive(Debug, Clone, Copy, PartialEq, Eq, Structural)]
pub struct VertexAttribute {
    pub format: VertexFormat,
    pub offset: u64,
    pub shader_location: u32,
}

/// One vertex buffer slot of a pipeline: its stride, whether it steps per
/// vertex or per instance, and its attributes.
pub struct VertexBufferLayout {
    pub array_stride: u64,
    pub step_mode: VertexStepMode,
    pub attributes: Vec<VertexAttribute>,
}

/// The configuration the specialization works on. Program and bind-group
/// layout objects are opaque host handles.
pub struct RenderPipelineDescriptor {
    pub vertex_shader: u64,
    pub fragment_shader: Option<u64>,
    /// Bind-group layouts by group index: per-view data at 0, per-mesh
    /// data at 1; the specialization inserts the globals layout at 2.
    pub layout: Vec<u64>,
    pub vertex_buffers: Vec<VertexBufferLayout>,
}

/// The extra vertex buffer slot the specialization appends: stepped per
/// instance, one 32-bit unsigned field at shader input location 3.
/// Locations 0 to 2 belong to the base mesh's position, normal and UV
/// attributes; the numbering is a hard contract with the program source.
pub open spec fn is_instance_vertex_layout(l: VertexBufferLayout) -> bool {
    &&& l.array_stride == 4
    &&& l.step_mode is Instance
    &&& l.attributes@ == seq![
        VertexAttribute { format: VertexFormat::Uint32, offset: 0, shader_location: 3 },
    ]
}

/// A pipeline build failure: the engine cannot produce its standard
/// descriptor for an unsupported key combination.
#[derive(Debug, Clone, Copy, PartialEq, Eq, Structural)]
pub struct SpecializedMeshPipelineError;

/// The custom pipeline's own pieces: the replacement GPU program and the
/// bind-group layout of the per-frame globals uniform, both built once by
/// the host at startup.
pub struct CustomPipeline {
    pub shader: u64,
    pub globals_layout: u64,
}

impl CustomPipeline {
    pub fn new(shader: u64, globals_layout: u64) -> (r: Self)
        ensures
            r.shader == shader,
            r.globals_layout == globals_layout,
    {
        CustomPipeline { shader, globals_layout }
    }

    /// Derives this pipeline's descriptor from the engine's standard 2D
    /// mesh descriptor for the same key: the program of both stages is
    /// replaced, the globals layout is inserted as bind group 2 behind the
    /// per-view and per-mesh groups, and one per-instance vertex buffer
    /// slot is appended after the base mesh's slots. Everything else is
    /// kept as it was. An unsupported key, which the engine answers with a
    /// build error instead of a descriptor, propagates unchanged; the host
    /// then skips the affected render target for the frame rather than
    /// aborting.
    pub fn specialize(
        &self,
        base: Result<RenderPipelineDescriptor, SpecializedMeshPipelineError>,
    ) -> (r: Result<RenderPipelineDescriptor, SpecializedMeshPipelineError>)
        requires
            base matches Ok(d) ==> d.fragment_shader is Some && d.layout@.len() >= 2,
        ensures
            r is Ok <==> base is Ok,
            base matches Ok(d) ==> r matches Ok(rd) && {
                &&& rd.vertex_shader == self.shader
                &&& rd.fragment_shader == Some(self.shader)
                &&& rd.layout@ == d.layout@.insert(2, self.globals_layout)
                &&& rd.vertex_buffers@.len() == d.vertex_buffers@.len() + 1
                &&& rd.vertex_buffers@.drop_last() == d.vertex_buffers@
                &&& is_instance_vertex_layout(rd.vertex_buffers@.last())
            },
    {
        let base = match base {
            Ok(d) => d,
            Err(e) => {
                return Err(e);
            },
        };
        let ghost base_view = base;
        let mut descriptor = base;
        descriptor.vertex_shader = self.shader;
        descriptor.fragment_shader = Some(self.shader);
        descriptor.layout.insert(2, self.globals_layout);
        let mut attributes: Vec<VertexAttribute> = Vec::new();
        attributes.push(VertexAttribute { format: VertexFormat::Uint32, offset: 0, shader_location: 3 });
        proof {
            assert(attributes@ =~= seq![
                VertexAttribute { format: VertexFormat::Uint32, offset: 0, shader_location: 3 },
            ]);
        }
        let slot = VertexBufferLayout {
            array_stride: 4,
            step_mode: VertexStepMode::Instance,
            attributes,
        };
        descriptor.vertex_buffers.push(slot);
        proof {
            assert(descriptor.vertex_buffers@.drop_last() =~= base_view.vertex_buffers@);
        }
        Ok(descriptor)
    }
}

/// The pipeline id cached for a key, if one was built: the most recent
/// entry for that key, though the cache never holds a key twice.
pub open spec fn cached_id(s: Seq<(PipelineKey, u64)>, key: PipelineKey) -> Option<u64>
    decreases s.len(),
{
    if s.len() == 0 {
        None
    } else if s.last().0 == key {
        Some(s.last().1)
    } else {
        cached_id(s.drop_last(), key)
    }
}

/// The cache of specialized pipeline variants: one entry per distinct key,
/// built on first demand and reused across frames and render targets. The
/// id of an entry is its position, standing for the host-side compiled
/// pipeline.
pub struct SpecializedMeshPipelines {
    entries: Vec<(PipelineKey, u64)>,
}

impl View for SpecializedMeshPipelines {
    type V = Seq<(PipelineKey, u64)>;

    closed spec fn view(&self) -> Seq<(PipelineKey, u64)> {
        self.entries@
    }
}

impl SpecializedMeshPipelines {
    /// Every key occurs at most once, and each entry's id is its position.
    #[verifier::type_invariant]
    spec fn wf(self) -> bool {
        &&& forall|i: int, j: int|
            #![auto]
            0 <= i < j < self.entries@.len() ==> self.entries@[i].0 != self.entries@[j].0
        &&& forall|i: int| #![auto]
            0 <= i < self.entries@.len() ==> self.entries@[i].1 == i as u64
    }

    pub fn new() -> (r: Self)
        ensures
            r@ == Seq::<(PipelineKey, u64)>::empty(),
    {
        let entries: Vec<(PipelineKey, u64)> = Vec::new();
        proof {
            assert(entries@ =~= Seq::<(PipelineKey, u64)>::empty());
        }
        SpecializedMeshPipelines { entries }
    }

    /// Fetches the pipeline for a key, building and caching it only if no
    /// variant for that key exists yet: a hit leaves the cache untouched,
    /// a miss appends exactly one entry. Either way the key's cached id is
    /// the result.
    pub fn specialize(&mut self, key: PipelineKey) -> (id: u64)
        ensures
            cached_id(old(self)@, key) is Some ==> final(self)@ == old(self)@ && Some(id)
                == cached_id(old(self)@, key),
            cached_id(old(self)@, key) is None ==> final(self)@ == old(self)@.push((key, id)),
            cached_id(final(self)@, key) == Some(id),
            final(self)@.len() >= old(self)@.len(),
            final(self)@.take(old(self)@.len() as int) == old(self)@,
    {
        proof {
            use_type_invariant(&*self);
        }
        let mut idx: usize = 0;
        while idx < self.entries.len()
            invariant
                idx <= self.entries@.len(),
                forall|i: int| 0 <= i < idx ==> (#[trigger] self.entries@[i]).0 != key,
            decreases self.entries@.len() - idx,
        {
            if self.entries[idx].0 == key {
                proof {
                    use_type_invariant(&*self);
                    lemma_cached_id_found(self.entries@, key, idx as int);
                    assert(self@.take(self@.len() as int) =~= self@);
                }
                return self.entries[idx].1;
            }
            idx = idx + 1;
        }
        proof {
            lemma_cached_id_absent(self.entries@, key);
        }
        let id = self.entries.len() as u64;
        let ghost pre = self.entries@;
        let mut entries: Vec<(PipelineKey, u64)> = Vec::new();
        core::mem::swap(&mut entries, &mut self.entries);
        entries.push((key, id));
        proof {
            assert(entries@.drop_last() =~= pre);
            assert(entries@.take(pre.len() as int) =~= pre);
        }
        self.entries = entries;
        id
    }
}

/// A key that no entry holds is not cached.
proof fn lemma_cached_id_absent(s: Seq<(PipelineKey, u64)>, key: PipelineKey)
    requires
        forall|i: int| 0 <= i < s.len() ==> (#[trigger] s[i]).0 != key,
    ensures
        cached_id(s, key) is None,
    decreases s.len(),
{
    if s.len() > 0 {
        lemma_cached_id_absent(s.drop_last(), key);
    }
}

/// With each key held at most once, the entry that holds a key decides its
/// cached id.
proof fn lemma_cached_id_found(s: Seq<(PipelineKey, u64)>, key: PipelineKey, at: int)
    requires
        0 <= at < s.len(),
        s[at].0 == key,
        forall|i: int, j: int| #![auto] 0 <= i < j < s.len() ==> s[i].0 != s[j].0,
    ensures
        cached_id(s, key) == Some(s[at].1),
    decreases s.len(),
{
    if at == s.len() - 1 {
    } else {
        assert(s.last().0 != key);
        lemma_cached_id_found(s.drop_last(), key, at);
    }
}

/// Appending an entry for one key does not disturb what is cached for any
/// other key.
pub proof fn lemma_cached_id_push_other(
    s: Seq<(PipelineKey, u64)>,
    entry: (PipelineKey, u64),
    key: PipelineKey,
)
    requires
        entry.0 != key,
    ensures
        cached_id(s.push(entry), key) == cached_id(s, key),
{
    assert(s.push(entry).drop_last() =~= s);
}

} // verus!
