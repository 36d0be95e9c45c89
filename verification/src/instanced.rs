//! The instance snapshot and per-frame uniform state.
//!
//! A render target owns one immutable record sequence and a write-once cell
//! for its GPU-side vertex buffer. In the host the sequence and the cell are
//! shared by reference count between the simulation stage and the render
//! stage; here the cell is modelled by the byte image that the one
//! successful upload writes, so that "populated" carries exactly the bytes
//! of the records. The uniform record is carried as the raw 32-bit patterns
//! the GPU reads, and its byte image is fixed here as well.

use crate::codec::encoded;
use vstd::bytes::spec_u32_to_le_bytes;
use vstd::bytes::u32_to_le_bytes;
use vstd::prelude::*;

verus! {

/// One per-instance payload: the 32-bit value packed verbatim into the
/// vertex buffer, one record per rendered instance, stride four bytes.
#[derive(Debug, Clone, Copy, PartialEq, Eq, Structural)]
pub struct InstanceData(pub u32);

/// The populated state of the write-once cell: the bytes uploaded to the
/// GPU vertex buffer and the record count they were built from.
pub struct InstanceBuffer {
    pub contents: Vec<u8>,
    pub length: usize,
}

/// A render target's snapshot: the shared immutable records and the
/// write-once GPU buffer cell, empty until the render stage first prepares
/// it.
pub struct InstanceMaterialData {
    data: Vec<InstanceData>,
    buffer: Option<InstanceBuffer>,
}

/// The mathematical state of a snapshot: the record values and, once
/// populated, the uploaded byte image.
pub struct SnapshotView {
    pub records: Seq<u32>,
    pub buffer: Option<Seq<u8>>,
}

pub open spec fn records_of(s: Seq<InstanceData>) -> Seq<u32> {
    s.map_values(|d: InstanceData| d.0)
}

/// What one render-stage preparation does to a snapshot: an empty cell of a
/// non-empty target is populated with exactly the records' bytes; anything
/// else is left untouched.
pub open spec fn ensure_spec(v: SnapshotView) -> SnapshotView {
    if v.buffer is None && v.records.len() > 0 {
        SnapshotView { records: v.records, buffer: Some(encoded(v.records)) }
    } else {
        v
    }
}

impl View for InstanceMaterialData {
    type V = SnapshotView;

    closed spec fn view(&self) -> SnapshotView {
        SnapshotView {
            records: records_of(self.data@),
            buffer: match self.buffer {
                None => None,
                Some(b) => Some(b.contents@),
            },
        }
    }
}

impl InstanceMaterialData {
    /// Once the cell is populated it holds exactly the records' byte image
    /// and count, and only a target with at least one record populates it.
    #[verifier::type_invariant]
    spec fn wf(self) -> bool {
        match self.buffer {
            None => true,
            Some(b) => {
                &&& self.data.len() > 0
                &&& b.length == self.data.len()
                &&& b.contents@ == encoded(records_of(self.data@))
            },
        }
    }

    /// Packs each value into one record; the GPU buffer cell starts empty.
    pub fn from_iter(values: Vec<u32>) -> (r: Self)
        ensures
            r@.records == values@,
            r@.buffer is None,
    {
        let mut data: Vec<InstanceData> = Vec::new();
        let mut idx: usize = 0;
        proof {
            assert(records_of(data@) =~= values@.take(0));
        }
        while idx < values.len()
            invariant
                idx <= values@.len(),
                records_of(data@) == values@.take(idx as int),
            decreases values@.len() - idx,
        {
            let ghost pre = data@;
            data.push(InstanceData(values[idx]));
            proof {
                assert(records_of(pre).len() == pre.len());
                assert(records_of(data@).len() == data@.len());
                assert forall|i: int| 0 <= i < data@.len() implies records_of(data@)[i]
                    == values@.take(idx + 1)[i] by {
                    assert(records_of(data@)[i] == data@[i].0);
                    if i < idx {
                        assert(records_of(pre)[i] == pre[i].0);
                        assert(records_of(pre)[i] == values@.take(idx as int)[i]);
                    }
                }
                assert(records_of(data@) =~= values@.take(idx + 1));
            }
            idx = idx + 1;
        }
        proof {
            assert(values@.take(values@.len() as int) =~= values@);
        }
        Self { data, buffer: None }
    }

    /// The render-stage preparation step: if the cell is empty and there is
    /// anything to draw, build the vertex-buffer bytes and populate it;
    /// otherwise do nothing. Returns whether this call performed the
    /// upload.
    pub fn ensure_gpu_buffer(&mut self) -> (uploaded: bool)
        ensures
            final(self)@ == ensure_spec(old(self)@),
            uploaded == (old(self)@.buffer is None && old(self)@.records.len() > 0),
    {
        proof {
            use_type_invariant(&*self);
        }
        if self.buffer.is_some() {
            return false;
        }
        if self.data.len() == 0 {
            return false;
        }
        let ghost records = records_of(self.data@);
        let mut contents: Vec<u8> = Vec::new();
        let mut idx: usize = 0;
        proof {
            assert(records.take(0) =~= Seq::<u32>::empty());
        }
        while idx < self.data.len()
            invariant
                idx <= self.data@.len(),
                records == records_of(self.data@),
                contents@ == encoded(records.take(idx as int)),
            decreases self.data@.len() - idx,
        {
            let mut group = u32_to_le_bytes(self.data[idx].0);
            contents.append(&mut group);
            proof {
                crate::codec::lemma_encoded_push(records.take(idx as int), self.data@[idx as int].0);
                assert(records.take(idx + 1) =~= records.take(idx as int).push(
                    self.data@[idx as int].0,
                ));
            }
            idx = idx + 1;
        }
        proof {
            assert(records.take(records.len() as int) =~= records);
        }
        let length = self.data.len();
        self.buffer = Some(InstanceBuffer { contents, length });
        true
    }

    /// Whether the GPU buffer cell has been populated. Only a snapshot
    /// with at least one record ever populates its cell, so a populated
    /// buffer always belongs to a non-empty record sequence.
    pub fn has_rendered(&self) -> (r: bool)
        ensures
            r == (self@.buffer is Some),
            r ==> self@.records.len() > 0,
    {
        proof {
            use_type_invariant(&*self);
            assert(records_of(self.data@).len() == self.data@.len());
        }
        self.buffer.is_some()
    }

    /// How many instances a draw call over this snapshot covers.
    pub fn instance_count(&self) -> (n: usize)
        ensures
            n == self@.records.len(),
    {
        self.data.len()
    }

    /// The record count the populated buffer was built from: always the
    /// snapshot's own record count.
    pub fn buffer_length(&self) -> (n: usize)
        requires
            self@.buffer is Some,
        ensures
            n == self@.records.len(),
            n > 0,
    {
        proof {
            use_type_invariant(&*self);
            assert(records_of(self.data@).len() == self.data@.len());
        }
        match &self.buffer {
            Some(b) => b.length,
            None => 0,
        }
    }

    /// The byte image the populated cell holds, if any: what the GPU
    /// vertex buffer was filled with.
    pub fn buffer_contents(&self) -> (r: Option<&Vec<u8>>)
        ensures
            match r {
                None => self@.buffer is None,
                Some(v) => self@.buffer == Some(v@),
            },
    {
        match &self.buffer {
            None => None,
            Some(b) => Some(&b.contents),
        }
    }

    /// The synchronization step's copy into the render stage: in the host a
    /// cheap reference-count clone of the same sequence and the same cell,
    /// modelled as a copy with an identical view.
    pub fn extract_component(&self) -> (r: Option<Self>)
        ensures
            r is Some,
            r->0@ == self@,
    {
        proof {
            use_type_invariant(&*self);
        }
        let mut data: Vec<InstanceData> = Vec::new();
        let mut idx: usize = 0;
        while idx < self.data.len()
            invariant
                idx <= self.data@.len(),
                data@ == self.data@.take(idx as int),
            decreases self.data@.len() - idx,
        {
            data.push(self.data[idx]);
            proof {
                assert(data@ =~= self.data@.take(idx + 1));
            }
            idx = idx + 1;
        }
        proof {
            assert(self.data@.take(self.data@.len() as int) =~= self.data@);
        }
        let buffer: Option<InstanceBuffer> = match &self.buffer {
            None => None,
            Some(b) => {
                let mut contents: Vec<u8> = Vec::new();
                let mut j: usize = 0;
                while j < b.contents.len()
                    invariant
                        j <= b.contents@.len(),
                        contents@ == b.contents@.take(j as int),
                    decreases b.contents@.len() - j,
                {
                    contents.push(b.contents[j]);
                    proof {
                        assert(contents@ =~= b.contents@.take(j + 1));
                    }
                    j = j + 1;
                }
                proof {
                    assert(b.contents@.take(b.contents@.len() as int) =~= b.contents@);
                }
                Some(InstanceBuffer { contents, length: b.length })
            },
        };
        Some(Self { data, buffer })
    }
}

/// The upload happens exactly once: on a fresh snapshot with at least one
/// record, the first preparation populates the cell with exactly the
/// records' bytes, and preparing again changes nothing — every later
/// preparation observes the same populated state.
pub proof fn lemma_upload_exactly_once(v: SnapshotView)
    requires
        v.buffer is None,
        v.records.len() > 0,
    ensures
        ensure_spec(v).records == v.records,
        ensure_spec(v).buffer == Some(encoded(v.records)),
        ensure_spec(ensure_spec(v)) == ensure_spec(v),
{
}

/// A populated cell never reverts and is never rebuilt: preparation leaves
/// any populated snapshot exactly as it is.
pub proof fn lemma_populated_is_stable(v: SnapshotView)
    requires
        v.buffer is Some,
    ensures
        ensure_spec(v) == v,
{
}

/// Bit pattern of the 32-bit float zero, the elapsed-seconds default when
/// no simulation clock exists yet.
pub const ZERO_F32_BITS: u32 = 0;

/// Bit pattern of the 32-bit float one, the zoom default when no zoom state
/// exists yet.
pub const ONE_F32_BITS: u32 = 0x3F80_0000;

/// The per-frame uniform record as the GPU reads it: two 32-bit float bit
/// patterns, elapsed simulation seconds and the current zoom value.
#[derive(Debug, Clone, Copy, PartialEq, Eq, Structural)]
pub struct Globals {
    pub elapsed_seconds_bits: u32,
    pub zoom_bits: u32,
}

/// The synchronization step for the uniform state: copy the simulation
/// stage's values if they exist, else the documented defaults.
pub fn extract_globals(elapsed_seconds_bits: Option<u32>, zoom_bits: Option<u32>) -> (g: Globals)
    ensures
        g.elapsed_seconds_bits == match elapsed_seconds_bits {
            Some(b) => b,
            None => ZERO_F32_BITS,
        },
        g.zoom_bits == match zoom_bits {
            Some(b) => b,
            None => ONE_F32_BITS,
        },
{
    Globals {
        elapsed_seconds_bits: match elapsed_seconds_bits {
            Some(b) => b,
            None => ZERO_F32_BITS,
        },
        zoom_bits: match zoom_bits {
            Some(b) => b,
            None => ONE_F32_BITS,
        },
    }
}

/// The byte image written wholesale into the uniform buffer every frame:
/// both fields, little endian, eight bytes.
pub fn globals_bytes(g: &Globals) -> (r: Vec<u8>)
    ensures
        r@ == spec_u32_to_le_bytes(g.elapsed_seconds_bits) + spec_u32_to_le_bytes(g.zoom_bits),
        r@.len() == 8,
{
    proof {
        vstd::bytes::lemma_auto_spec_u32_to_from_le_bytes();
    }
    let mut r = u32_to_le_bytes(g.elapsed_seconds_bits);
    let mut tail = u32_to_le_bytes(g.zoom_bits);
    r.append(&mut tail);
    r
}

} // verus!
