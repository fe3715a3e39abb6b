use std::marker::PhantomData;
use vstd::prelude::*;

use crate::bindable::{
    all_supported, BindAccess, Bindable, Binder, Buffer, Buffer2D, BufferType, Cell,
    ComputePipeline, GridElement, Resource, ResourceId,
};
use crate::dimensions::Dimensions;
use crate::gpu::{releases, GpuOp, Recorder, ShaderCode};

verus! {

/// Cells per side of one work tile of the copy kernel.
pub const WORKGROUP_SIZE: u32 = 8;

/// The parameters of the resizing copy kernel, in the order the kernel reads
/// them.
#[derive(Clone, Copy, Debug, PartialEq, Eq, Structural)]
pub struct CopyParams {
    /// First copied column of the old grid.
    pub odx: u32,
    /// First copied row of the old grid.
    pub ody: u32,
    /// First written column of the new grid.
    pub ndx: u32,
    /// First written row of the new grid.
    pub ndy: u32,
    /// Width of the old grid.
    pub owidth: u32,
    /// Width of the new grid.
    pub nwidth: u32,
    /// Width of the overlap.
    pub width: u32,
    /// Height of the overlap.
    pub height: u32,
}

pub open spec fn min_nat(a: nat, b: nat) -> nat {
    if a <= b {
        a
    } else {
        b
    }
}

/// Half the amount by which `a` exceeds `b`, rounded down; zero where it does not.
pub open spec fn half_excess(a: nat, b: nat) -> nat {
    if a > b {
        ((a - b) as nat) / 2
    } else {
        0
    }
}

/// The copy parameters that centre the overlap of an old grid `o` and a new grid `n`.
pub open spec fn spec_copy_params(o: Dimensions, n: Dimensions) -> CopyParams {
    CopyParams {
        odx: half_excess(o.width as nat, n.width as nat) as u32,
        ody: half_excess(o.height as nat, n.height as nat) as u32,
        ndx: half_excess(n.width as nat, o.width as nat) as u32,
        ndy: half_excess(n.height as nat, o.height as nat) as u32,
        owidth: o.width,
        nwidth: n.width,
        width: min_nat(o.width as nat, n.width as nat) as u32,
        height: min_nat(o.height as nat, n.height as nat) as u32,
    }
}

impl CopyParams {
    /// The parameters as the kernel reads them, one 32-bit word each.
    pub open spec fn spec_words(self) -> Seq<u32> {
        seq![
            self.odx,
            self.ody,
            self.ndx,
            self.ndy,
            self.owidth,
            self.nwidth,
            self.width,
            self.height,
        ]
    }

    pub fn words(&self) -> (r: Vec<u32>)
        ensures
            r@ == self.spec_words(),
    {
        let r = vec![
            self.odx,
            self.ody,
            self.ndx,
            self.ndy,
            self.owidth,
            self.nwidth,
            self.width,
            self.height,
        ];
        assert(r@ =~= self.spec_words());
        r
    }
}

/// The copy parameters for resizing a grid of dimensions `o` to `n`: the
/// overlap is `min(W, W')` by `min(H, H')`, the old offsets are
/// `max(0, (W - W') / 2)` and `max(0, (H - H') / 2)`, and the new offsets
/// the same with old and new exchanged.
pub fn copy_params(o: Dimensions, n: Dimensions) -> (r: CopyParams)
    ensures
        r == spec_copy_params(o, n),
        r.width == min_nat(o.width as nat, n.width as nat),
        r.height == min_nat(o.height as nat, n.height as nat),
        r.odx == half_excess(o.width as nat, n.width as nat),
        r.ody == half_excess(o.height as nat, n.height as nat),
        r.ndx == half_excess(n.width as nat, o.width as nat),
        r.ndy == half_excess(n.height as nat, o.height as nat),
{
    let (ow, oh) = (o.width, o.height);
    let (nw, nh) = (n.width, n.height);
    CopyParams {
        odx: if nw < ow {
            (ow - nw) / 2
        } else {
            0
        },
        ndx: if nw > ow {
            (nw - ow) / 2
        } else {
            0
        },
        ody: if nh < oh {
            (oh - nh) / 2
        } else {
            0
        },
        ndy: if nh > oh {
            (nh - oh) / 2
        } else {
            0
        },
        owidth: ow,
        nwidth: nw,
        width: if ow < nw {
            ow
        } else {
            nw
        },
        height: if oh < nh {
            oh
        } else {
            nh
        },
    }
}

/// The number of work tiles that cover `n` cells: `n / 8` rounded up.
pub fn tiles(n: u32) -> (r: u32)
    ensures
        r == (n as int + WORKGROUP_SIZE - 1) / (WORKGROUP_SIZE as int),
{
    n / WORKGROUP_SIZE + if n % WORKGROUP_SIZE == 0 {
        0
    } else {
        1
    }
}

// ---------------------------------------------------------------------

/// The element types of the copy kernel, in the shader language, and the
/// per-element transform besides `new = old`, if any.
#[derive(Clone, Copy, Debug)]
pub struct CopyShaderInfo {
    pub src_type: &'static str,
    pub dst_type: &'static str,
    pub manip: Option<&'static str>,
}

/// A pair of element types that the copy kernel can copy between.
pub trait BufferCopyable {
    fn shader_info() -> CopyShaderInfo;
}

/// Names a pair of element types: source `T`, destination `U`.
pub struct BC<T, U>(pub T, pub U);

impl BufferCopyable for BC<Cell, Cell> {
    fn shader_info() -> CopyShaderInfo {
        CopyShaderInfo { src_type: "f32", dst_type: "f32", manip: None }
    }
}

impl BufferCopyable for BC<[u32; 4], [u32; 4]> {
    fn shader_info() -> CopyShaderInfo {
        CopyShaderInfo { src_type: "vec4<u32>", dst_type: "vec4<u32>", manip: None }
    }
}

/// `(n + 7) / 8`: the work tiles that cover `n` cells.
pub open spec fn spec_tiles(n: u32) -> u32 {
    ((n as int + WORKGROUP_SIZE - 1) / (WORKGROUP_SIZE as int)) as u32
}

/// The binding list of the copy kernel: parameters, source, destination.
pub open spec fn copy_args(params: Resource, src: Resource, dst: Resource) -> Seq<
    (BindAccess, Resource),
> {
    seq![(BindAccess::ReadOnly, params), (BindAccess::ReadOnly, src), (BindAccess::WriteOnly, dst)]
}

/// Runs the resizing copy kernel: copies the centred overlap of a grid of
/// `T` into a grid of `U` of other dimensions.
pub struct BufferCopier<T, U> {
    shader: ResourceId,
    info: CopyShaderInfo,
    _t: PhantomData<T>,
    _u: PhantomData<U>,
}

impl<T: GridElement, U: GridElement> BufferCopier<T, U> {
    pub closed spec fn spec_shader(&self) -> ResourceId {
        self.shader
    }

    /// Records the compilation of the copy kernel for this pair of types.
    pub fn new(rec: &mut Recorder) -> (r: Self) where BC<T, U>: BufferCopyable
        requires
            old(rec).has_room(1),
        ensures
            r.spec_shader().id == old(rec).spec_next_id(),
            final(rec).spec_next_id() == old(rec).spec_next_id() + 1,
            final(rec).extends(*old(rec)),
            final(rec).spec_ops() == old(rec).spec_ops().push(final(rec).spec_ops().last()),
            final(rec).spec_ops().last() == (GpuOp::CreateShader {
                id: r.spec_shader(),
                code: ShaderCode::BufferCopy { info: r.spec_info() },
            }),
    {
        let info = BC::<T, U>::shader_info();
        let shader = rec.fresh_id();
        rec.push(GpuOp::CreateShader { id: shader, code: ShaderCode::BufferCopy { info } });
        BufferCopier { shader, info, _t: PhantomData, _u: PhantomData }
    }

    pub closed spec fn spec_info(&self) -> CopyShaderInfo {
        self.info
    }

    pub fn info(&self) -> (r: CopyShaderInfo)
        ensures
            r == self.spec_info(),
    {
        self.info
    }

    /// The parameters for copying `src` into `dst`.
    pub fn copy_params(src_buf: &Buffer2D<T>, dst_buf: &Buffer2D<U>) -> (r: CopyParams)
        ensures
            r == spec_copy_params(src_buf.spec_dim(), dst_buf.spec_dim()),
    {
        copy_params(src_buf.dim(), dst_buf.dim())
    }

    /// `ops[at..at + 9]` are one copy of `src` into `dst` whose new objects
    /// have identifiers from `next` on: the parameter buffer, the binding
    /// layout and set of parameters, source and destination, the pipeline,
    /// a dispatch of the tiles that cover the overlap, and the release of
    /// those four objects.
    pub open spec fn copy_recorded(
        &self,
        src: Buffer2D<T>,
        dst: Buffer2D<U>,
        ops: Seq<GpuOp>,
        at: int,
        next: nat,
    ) -> bool {
        let p = spec_copy_params(src.spec_dim(), dst.spec_dim());
        let params = Resource::Buffer {
            id: ResourceId { id: next as u64 },
            size: 32,
            ty: BufferType::Uniform,
        };
        let args = copy_args(params, src.spec_resource(), dst.spec_resource());
        let layout = ResourceId { id: (next + 1) as u64 };
        let set = ResourceId { id: (next + 2) as u64 };
        let pipeline = ResourceId { id: (next + 3) as u64 };
        &&& 0 <= at
        &&& at + 9 <= ops.len()
        &&& ops[at].is_create_init(
            params.spec_id(),
            "copy data parameters"@,
            BufferType::Uniform,
            p.spec_words(),
        )
        &&& ops[at + 1].is_layout(
            layout,
            crate::bindable::ShaderStage::Compute,
            crate::bindable::layout_of(args),
        )
        &&& ops[at + 2].is_bind_set(set, layout, crate::bindable::ids_of(args))
        &&& ops[at + 3].is_pipeline(pipeline, layout, self.spec_shader(), "copy"@)
        &&& ops[at + 4] == (GpuOp::Dispatch {
            pipeline,
            bind_set: set,
            x: spec_tiles(p.width),
            y: spec_tiles(p.height),
        })
        &&& releases(ops, at + 5, seq![params.spec_id(), set, pipeline, layout])
    }

    /// A recorded copy stays recorded when more operations follow.
    pub proof fn lemma_copy_recorded_kept(
        &self,
        src: Buffer2D<T>,
        dst: Buffer2D<U>,
        ops: Seq<GpuOp>,
        more: Seq<GpuOp>,
        at: int,
        next: nat,
    )
        requires
            self.copy_recorded(src, dst, ops, at, next),
            ops.len() <= more.len(),
            more.take(ops.len() as int) == ops,
        ensures
            self.copy_recorded(src, dst, more, at, next),
    {
        assert(more[at] == more.take(ops.len() as int)[at]);
        assert(more[at + 1] == more.take(ops.len() as int)[at + 1]);
        assert(more[at + 2] == more.take(ops.len() as int)[at + 2]);
        assert(more[at + 3] == more.take(ops.len() as int)[at + 3]);
        assert(more[at + 4] == more.take(ops.len() as int)[at + 4]);
        assert forall|i: int| 0 <= i < 4 implies #[trigger] more[at + 5 + i] == ops[at + 5 + i] by {
            assert(more[at + 5 + i] == more.take(ops.len() as int)[at + 5 + i]);
        }
    }

    /// Records the copy of the centred overlap of `src` into `dst`; cells of
    /// `dst` outside the overlap are not written. An empty overlap dispatches
    /// no tiles.
    pub fn copy(&self, rec: &mut Recorder, src_buf: &Buffer2D<T>, dst_buf: &Buffer2D<U>)
        requires
            old(rec).has_room(4),
        ensures
            final(rec).spec_next_id() == old(rec).spec_next_id() + 4,
            final(rec).extends(*old(rec)),
            final(rec).spec_ops().len() == old(rec).spec_ops().len() + 9,
            final(rec).spec_ops().take(old(rec).spec_ops().len() as int) == old(rec).spec_ops(),
            self.copy_recorded(
                *src_buf,
                *dst_buf,
                final(rec).spec_ops(),
                old(rec).spec_ops().len() as int,
                old(rec).spec_next_id(),
            ),
    {
        let params = Self::copy_params(src_buf, dst_buf);
        let ghost r0 = *rec;
        let param_buf = Buffer::new_init(
            rec,
            "copy data parameters".to_owned(),
            BufferType::Uniform,
            params.words(),
        );
        let ghost r1 = *rec;
        let args: Vec<(BindAccess, Resource)> = vec![
            (BindAccess::ReadOnly, param_buf.resource()),
            (BindAccess::ReadOnly, src_buf.resource()),
            (BindAccess::WriteOnly, dst_buf.resource()),
        ];
        assert(args@ =~= copy_args(
            param_buf.spec_resource(),
            src_buf.spec_resource(),
            dst_buf.spec_resource(),
        ));
        assert(all_supported(args@));
        let (pipeline, set) = match Binder::bind_up(rec, self.shader, "copy".to_owned(), &args) {
            Ok(p) => p,
            Err(_) => {
                assert(false);
                return ;
            },
        };
        let ghost r2 = *rec;
        let x = tiles(params.width);
        let y = tiles(params.height);
        rec.push(GpuOp::Dispatch { pipeline: pipeline.id, bind_set: set.id(), x, y });
        let ghost r3 = *rec;
        rec.push(GpuOp::Release { id: param_buf.id() });
        rec.push(GpuOp::Release { id: set.id() });
        rec.push(GpuOp::Release { id: pipeline.id });
        rec.push(GpuOp::Release { id: pipeline.layout });
        proof {
            reveal_strlit("copy data parameters");
            reveal_strlit("copy");
            let n = r0.spec_ops().len();
            assert(rec.spec_ops().take(n + 5int) =~= r3.spec_ops());
            assert(r3.spec_ops().take(n + 4int) =~= r2.spec_ops());
            assert(rec.spec_ops().take(n + 4int) =~= r2.spec_ops());
            assert(r2.spec_ops().take(n + 1int) =~= r1.spec_ops());
            assert(r1.spec_ops().take(n as int) =~= r0.spec_ops());
            assert(rec.spec_ops().take(n as int) =~= r0.spec_ops());
            assert(rec.spec_ops()[n as int] == r1.spec_ops()[n as int]);
            assert(rec.spec_ops()[n + 1int] == r2.spec_ops()[n + 1int]);
            assert(rec.spec_ops()[n + 2int] == r2.spec_ops()[n + 2int]);
            assert(rec.spec_ops()[n + 3int] == r2.spec_ops()[n + 3int]);
            assert(rec.spec_ops()[n + 4int] == r3.spec_ops()[n + 4int]);
            let rel = seq![
                param_buf.spec_id(),
                set.spec_id(),
                pipeline.id,
                pipeline.layout,
            ];
            assert(releases(rec.spec_ops(), n + 5int, rel));
        }
    }
}

} // verus!
