use vstd::prelude::*;

use crate::bindable::{
    AddressMode, BindingType, BufferType, FilterMode, ResourceId, ShaderStage, TextureFormat,
};

use crate::buffer_copy::CopyShaderInfo;
use crate::dimensions::Dimensions;

verus! {

/// The shader programs that the library asks the device to compile.
#[derive(Clone, Debug)]
pub enum ShaderCode {
    /// The simulation kernel, entry point "life".
    Life,
    /// The resizing copy kernel, entry point "copy", for one pair of element types.
    BufferCopy { info: CopyShaderInfo },
}

/// One unit of GPU work decided by the library; the host program performs
/// these in order on a device.
#[derive(Clone, Debug)]
pub enum GpuOp {
    CreateBuffer { id: ResourceId, label: String, ty: BufferType, size: u64 },
    /// A buffer that starts out holding `contents`, 32-bit words.
    CreateBufferInit { id: ResourceId, label: String, ty: BufferType, contents: Vec<u32> },
    CreateTexture { id: ResourceId, dim: Dimensions, format: TextureFormat },
    CreateSampler { id: ResourceId, address_mode: AddressMode, filter_mode: FilterMode },
    CreateShader { id: ResourceId, code: ShaderCode },
    /// A binding layout: slot `i` has type `entries[i]`.
    CreateBindLayout { id: ResourceId, stage: ShaderStage, entries: Vec<BindingType> },
    /// A binding set over a layout: slot `i` holds resource `resources[i]`.
    CreateBindSet { id: ResourceId, layout: ResourceId, resources: Vec<ResourceId> },
    CreateComputePipeline {
        id: ResourceId,
        layout: ResourceId,
        shader: ResourceId,
        entry_point: String,
    },
    /// Writes host words at the start of a buffer.
    WriteBuffer { id: ResourceId, words: Vec<u32> },
    /// Copies the first `size` bytes of one buffer into another.
    CopyBuffer { src: ResourceId, dst: ResourceId, size: u64 },
    /// Runs a compute pipeline with a binding set over a grid of work tiles.
    Dispatch { pipeline: ResourceId, bind_set: ResourceId, x: u32, y: u32 },
    /// Reads a buffer back to the host, waiting for all earlier work.
    ReadBack { id: ResourceId },
    /// The library no longer refers to object `id`; work already recorded
    /// with it still runs.
    Release { id: ResourceId },
}

/// `ops[at..at + ids.len()]` release the objects `ids`, in order.
pub open spec fn releases(ops: Seq<GpuOp>, at: int, ids: Seq<ResourceId>) -> bool {
    &&& 0 <= at
    &&& at + ids.len() <= ops.len()
    &&& forall|i: int| 0 <= i < ids.len() ==> ops[at + i] == (GpuOp::Release { id: ids[i] })
}

impl GpuOp {
    /// A write of exactly `words` at the start of buffer `id`.
    pub open spec fn is_write(self, id: ResourceId, words: Seq<u32>) -> bool {
        match self {
            GpuOp::WriteBuffer { id: i, words: w } => i == id && w@ == words,
            _ => false,
        }
    }

    /// A buffer `id` created holding exactly `contents`.
    pub open spec fn is_create_init(
        self,
        id: ResourceId,
        label: Seq<char>,
        ty: BufferType,
        contents: Seq<u32>,
    ) -> bool {
        match self {
            GpuOp::CreateBufferInit { id: i, label: l, ty: t, contents: c } => i == id && l@
                == label && t == ty && c@ == contents,
            _ => false,
        }
    }

    /// A binding layout `id` for `stage` whose slots have types `entries`.
    pub open spec fn is_layout(
        self,
        id: ResourceId,
        stage: ShaderStage,
        entries: Seq<BindingType>,
    ) -> bool {
        match self {
            GpuOp::CreateBindLayout { id: i, stage: s, entries: e } => i == id && s == stage && e@
                == entries,
            _ => false,
        }
    }

    /// A binding set `id` over `layout` whose slots hold `resources`.
    pub open spec fn is_bind_set(
        self,
        id: ResourceId,
        layout: ResourceId,
        resources: Seq<ResourceId>,
    ) -> bool {
        match self {
            GpuOp::CreateBindSet { id: i, layout: l, resources: r } => i == id && l == layout && r@
                == resources,
            _ => false,
        }
    }

    /// A compute pipeline `id` over `layout` running `entry_point` of `shader`.
    pub open spec fn is_pipeline(
        self,
        id: ResourceId,
        layout: ResourceId,
        shader: ResourceId,
        entry_point: Seq<char>,
    ) -> bool {
        match self {
            GpuOp::CreateComputePipeline { id: i, layout: l, shader: s, entry_point: e } => i == id
                && l == layout && s == shader && e@ == entry_point,
            _ => false,
        }
    }
}

/// Hands out resource identifiers and records the GPU work of the library in
/// the order it is decided. Identifiers are never reused.
pub struct Recorder {
    next_id: u64,
    ops: Vec<GpuOp>,
}

impl Recorder {
    /// The operations recorded so far.
    pub closed spec fn spec_ops(&self) -> Seq<GpuOp> {
        self.ops@
    }

    /// The identifier that the next request receives; every identifier handed
    /// out so far is below it.
    pub closed spec fn spec_next_id(&self) -> nat {
        self.next_id as nat
    }

    /// `self` is `before` with one more operation and no new identifier.
    pub open spec fn one_more_op(self, before: Recorder) -> bool {
        &&& self.spec_ops() == before.spec_ops().push(self.spec_ops().last())
        &&& self.spec_next_id() == before.spec_next_id()
    }

    /// `self` holds the operations of `before` as a prefix and has handed out
    /// at least the identifiers of `before`.
    pub open spec fn extends(self, before: Recorder) -> bool {
        &&& before.spec_ops().len() <= self.spec_ops().len()
        &&& self.spec_ops().take(before.spec_ops().len() as int) == before.spec_ops()
        &&& before.spec_next_id() <= self.spec_next_id()
    }

    pub proof fn lemma_extends_refl(a: Recorder)
        ensures
            a.extends(a),
    {
        assert(a.spec_ops().take(a.spec_ops().len() as int) =~= a.spec_ops());
    }

    pub proof fn lemma_extends_trans(a: Recorder, b: Recorder, c: Recorder)
        requires
            b.extends(a),
            c.extends(b),
        ensures
            c.extends(a),
            forall|i: int| 0 <= i < b.spec_ops().len() ==> c.spec_ops()[i] == b.spec_ops()[i],
    {
        assert forall|i: int| 0 <= i < b.spec_ops().len() implies c.spec_ops()[i]
            == b.spec_ops()[i] by {
            assert(c.spec_ops().take(b.spec_ops().len() as int)[i] == c.spec_ops()[i]);
        }
        assert(c.spec_ops().take(a.spec_ops().len() as int) =~= a.spec_ops()) by {
            assert forall|i: int| 0 <= i < a.spec_ops().len() implies c.spec_ops()[i]
                == a.spec_ops()[i] by {
                assert(b.spec_ops().take(a.spec_ops().len() as int)[i] == b.spec_ops()[i]);
            }
        }
    }

    /// At least `n` more identifiers can be handed out.
    pub open spec fn has_room(&self, n: nat) -> bool {
        self.spec_next_id() + n <= u64::MAX
    }

    pub fn new() -> (r: Recorder)
        ensures
            r.spec_ops() == Seq::<GpuOp>::empty(),
            r.spec_next_id() == 0,
    {
        Recorder { next_id: 0, ops: Vec::new() }
    }

    /// How many identifiers can still be handed out.
    pub fn room(&self) -> (r: u64)
        ensures
            r == u64::MAX - self.spec_next_id(),
    {
        u64::MAX - self.next_id
    }

    /// A fresh identifier.
    pub fn fresh_id(&mut self) -> (r: ResourceId)
        requires
            old(self).has_room(1),
        ensures
            r.id == old(self).spec_next_id(),
            final(self).spec_next_id() == old(self).spec_next_id() + 1,
            final(self).spec_ops() == old(self).spec_ops(),
            final(self).extends(*old(self)),
    {
        proof {
            assert(self.ops@.take(self.ops@.len() as int) =~= self.ops@);
        }
        let id = ResourceId { id: self.next_id };
        self.next_id = self.next_id + 1;
        id
    }

    /// Appends one operation.
    pub fn push(&mut self, op: GpuOp)
        ensures
            final(self).spec_ops() == old(self).spec_ops().push(op),
            final(self).spec_next_id() == old(self).spec_next_id(),
            final(self).extends(*old(self)),
    {
        self.ops.push(op);
        assert(self.ops@.take(old(self).ops@.len() as int) =~= old(self).ops@);
    }

    pub fn ops(&self) -> (r: &Vec<GpuOp>)
        ensures
            r@ == self.spec_ops(),
    {
        &self.ops
    }

    /// Removes and returns the recorded operations, for the device to perform.
    pub fn take_ops(&mut self) -> (r: Vec<GpuOp>)
        ensures
            r@ == old(self).spec_ops(),
            final(self).spec_ops() == Seq::<GpuOp>::empty(),
            final(self).spec_next_id() == old(self).spec_next_id(),
    {
        let mut taken: Vec<GpuOp> = Vec::new();
        std::mem::swap(&mut taken, &mut self.ops);
        taken
    }
}

} // verus!
