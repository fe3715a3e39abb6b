use rand::rngs::SmallRng;
use vstd::prelude::*;

use crate::bindable::{
    grid_fits, ids_of, BindAccess, Bindable, Binder, BindingSet, Buffer2D, BufferType, Cell,
    ComputePipeline, GridError, Resource, ResourceId,
};
use crate::buffer_copy::{spec_tiles, tiles, BufferCopier};
use crate::debug_buffer::DebugBuffer;
use crate::dimensions::Dimensions;
use crate::directions::{RenderDir, RenderMotion, RenderSources};
use crate::gpu::{releases, GpuOp, Recorder, ShaderCode};
use crate::random::random_quads;

verus! {

/// Identifiers that `Life::new` hands out.
pub const NEW_IDS: u64 = 11;

/// Identifiers that `Life::resize` hands out.
pub const RESIZE_IDS: u64 = 20;

/// The binding list of the simulation kernel in phase `d`: parameters,
/// source cells, destination cells, random data, output image.
pub open spec fn life_args(
    params: Resource,
    cells: RenderSources<Buffer2D<Cell>>,
    random: Buffer2D<[u32; 4]>,
    texture: Resource,
    d: RenderDir,
) -> Seq<(BindAccess, Resource)> {
    seq![
        (BindAccess::ReadOnly, params),
        (BindAccess::ReadOnly, cells.spec_src(d).spec_resource()),
        (BindAccess::WriteOnly, cells.spec_dst(d).spec_resource()),
        (BindAccess::WriteOnly, random.spec_resource()),
        (BindAccess::WriteOnly, texture),
    ]
}

/// The double-buffered simulation grid. The phase is the parity of the step
/// count: in phase `d` the cell buffer of `d` is the source of the next step
/// and the other one its destination.
pub struct Life {
    shader: ResourceId,
    pipeline: ComputePipeline,
    bind_groups: RenderMotion<BindingSet>,
    dimensions: Dimensions,
    cell_buffers: RenderSources<Buffer2D<Cell>>,
    random_buf: Buffer2D<[u32; 4]>,
    cell_bc: BufferCopier<Cell, Cell>,
    rand_bc: BufferCopier<[u32; 4], [u32; 4]>,
    debug_buffer: DebugBuffer<Cell>,
    frame_num: usize,
}

impl Life {
    pub closed spec fn spec_dimensions(&self) -> Dimensions {
        self.dimensions
    }

    pub closed spec fn spec_frame_num(&self) -> nat {
        self.frame_num as nat
    }

    pub closed spec fn spec_pipeline(&self) -> ComputePipeline {
        self.pipeline
    }

    pub closed spec fn spec_bind_group(&self, d: RenderDir) -> BindingSet {
        self.bind_groups.spec_get(d)
    }

    pub closed spec fn spec_cell_buffers(&self) -> RenderSources<Buffer2D<Cell>> {
        self.cell_buffers
    }

    pub closed spec fn spec_random_buf(&self) -> Buffer2D<[u32; 4]> {
        self.random_buf
    }

    pub closed spec fn spec_cell_copier(&self) -> BufferCopier<Cell, Cell> {
        self.cell_bc
    }

    pub closed spec fn spec_rand_copier(&self) -> BufferCopier<[u32; 4], [u32; 4]> {
        self.rand_bc
    }

    pub closed spec fn spec_debug_buffer(&self) -> DebugBuffer<Cell> {
        self.debug_buffer
    }

    /// The current phase.
    pub open spec fn spec_dir(&self) -> RenderDir {
        RenderDir::spec_dir(self.spec_frame_num())
    }

    /// The cell buffer of phase `d`.
    pub open spec fn spec_cell_buffer(&self, d: RenderDir) -> Buffer2D<Cell> {
        self.spec_cell_buffers().spec_buffer(d)
    }

    /// The binding set of phase `d` binds `life_args` of that phase over the
    /// pipeline's layout.
    pub open spec fn bound_to(&self, params: Resource, texture: Resource, d: RenderDir) -> bool {
        &&& self.spec_bind_group(d).spec_layout() == self.spec_pipeline().layout
        &&& self.spec_bind_group(d).spec_resources() == ids_of(
            life_args(params, self.spec_cell_buffers(), self.spec_random_buf(), texture, d),
        )
    }

    /// Every buffer has the grid's dimensions and both phases are bound to
    /// the current buffers with the same `params` and `texture`.
    pub open spec fn wf(&self) -> bool {
        let dim = self.spec_dimensions();
        &&& grid_fits::<[u32; 4]>(dim)
        &&& self.spec_cell_buffer(RenderDir::Forward).wf()
        &&& self.spec_cell_buffer(RenderDir::Backward).wf()
        &&& self.spec_cell_buffer(RenderDir::Forward).spec_dim() == dim
        &&& self.spec_cell_buffer(RenderDir::Backward).spec_dim() == dim
        &&& self.spec_random_buf().wf()
        &&& self.spec_random_buf().spec_dim() == dim
        &&& self.spec_debug_buffer().spec_buf().wf()
        &&& self.spec_debug_buffer().spec_buf().spec_dim() == dim
        &&& exists|params: Resource, texture: Resource|
            self.bound_to(params, texture, RenderDir::Forward) && self.bound_to(
                params,
                texture,
                RenderDir::Backward,
            )
    }

    fn args(
        params: Resource,
        cells: &RenderSources<Buffer2D<Cell>>,
        random: &Buffer2D<[u32; 4]>,
        texture: Resource,
        d: RenderDir,
    ) -> (r: Vec<(BindAccess, Resource)>)
        ensures
            r@ == life_args(params, *cells, *random, texture, d),
    {
        let r = vec![
            (BindAccess::ReadOnly, params),
            (BindAccess::ReadOnly, cells.src(d).resource()),
            (BindAccess::WriteOnly, cells.dst(d).resource()),
            (BindAccess::WriteOnly, random.resource()),
            (BindAccess::WriteOnly, texture),
        ];
        assert(r@ =~= life_args(params, *cells, *random, texture, d));
        r
    }

    /// Records the binding of the simulation kernel for both phases.
    fn bind(
        rec: &mut Recorder,
        shader: ResourceId,
        params: Resource,
        cells: &RenderSources<Buffer2D<Cell>>,
        random: &Buffer2D<[u32; 4]>,
        texture: Resource,
    ) -> (r: (ComputePipeline, RenderMotion<BindingSet>))
        requires
            old(rec).has_room(4),
            cells.spec_buffer(RenderDir::Forward).spec_buf().spec_size() == cells.spec_buffer(
                RenderDir::Backward,
            ).spec_buf().spec_size(),
            cells.spec_buffer(RenderDir::Forward).spec_buf().spec_ty() == BufferType::Storage,
            cells.spec_buffer(RenderDir::Backward).spec_buf().spec_ty() == BufferType::Storage,
        ensures
            final(rec).extends(*old(rec)),
            final(rec).spec_next_id() == old(rec).spec_next_id() + 4,
            Binder::phased_bound(
                r.0,
                r.1,
                shader,
                "life"@,
                life_args(params, *cells, *random, texture, RenderDir::Forward),
                life_args(params, *cells, *random, texture, RenderDir::Backward),
                *old(rec),
                *final(rec),
            ),
    {
        let fwd = Self::args(params, cells, random, texture, RenderDir::Forward);
        let bwd = Self::args(params, cells, random, texture, RenderDir::Backward);
        let args = RenderMotion::from_pair(fwd, bwd);
        proof {
            reveal_strlit("life");
        }
        proof {
            let f = life_args(params, *cells, *random, texture, RenderDir::Forward);
            let b = life_args(params, *cells, *random, texture, RenderDir::Backward);
            assert(crate::bindable::all_supported(f));
            assert(crate::bindable::all_supported(b));
            assert(crate::bindable::layout_of(f) =~= crate::bindable::layout_of(b));
        }
        let r = Binder::bind_up_dir(rec, shader, "life".to_owned(), &args);
        proof {
            assert(rec.spec_ops().take(old(rec).spec_ops().len() as int) == old(rec).spec_ops());
        }
        r.unwrap()
    }

    /// Records the creation of a grid of `dimensions`: the simulation
    /// kernel, two cell buffers, a buffer of random words drawn from `rng`,
    /// a debug buffer, the copy kernels for resizing, and the binding of
    /// both phases to `params` and `texture`. The step count starts at 0.
    pub fn new<P: Bindable, Q: Bindable>(
        rec: &mut Recorder,
        dimensions: Dimensions,
        params: &P,
        texture: &Q,
        rng: &mut SmallRng,
    ) -> (r: Life)
        requires
            old(rec).has_room(NEW_IDS as nat),
            grid_fits::<[u32; 4]>(dimensions),
        ensures
            r.wf(),
            r.spec_dimensions() == dimensions,
            r.spec_frame_num() == 0,
            r.bound_to(params.spec_resource(), texture.spec_resource(), RenderDir::Forward),
            r.bound_to(params.spec_resource(), texture.spec_resource(), RenderDir::Backward),
            final(rec).extends(*old(rec)),
            final(rec).spec_next_id() == old(rec).spec_next_id() + NEW_IDS,
    {
        proof {
            lemma_grid_fits_cells(dimensions);
        }
        let ghost r0 = *rec;
        let shader = rec.fresh_id();
        rec.push(GpuOp::CreateShader { id: shader, code: ShaderCode::Life });
        let ghost r1 = *rec;
        let fwd = Buffer2D::<Cell>::new(rec, "cells (forward)".to_owned(), dimensions);
        let ghost r2 = *rec;
        let bwd = Buffer2D::<Cell>::new(rec, "cells (backward)".to_owned(), dimensions);
        let ghost r3 = *rec;
        let cell_buffers = RenderSources::from_pair(fwd, bwd);
        let random_data = random_quads(rng, dimensions.area());
        let random_buf = Buffer2D::new_init(
            rec,
            "random data".to_owned(),
            BufferType::Storage,
            dimensions,
            &random_data,
        ).unwrap();
        let ghost r4 = *rec;
        let debug_buffer = DebugBuffer::new(rec, dimensions);
        let ghost r5 = *rec;
        let cell_bc: BufferCopier<Cell, Cell> = BufferCopier::new(rec);
        let ghost r6 = *rec;
        let rand_bc: BufferCopier<[u32; 4], [u32; 4]> = BufferCopier::new(rec);
        let ghost r7 = *rec;
        let (pipeline, bind_groups) = Self::bind(
            rec,
            shader,
            params.resource(),
            &cell_buffers,
            &random_buf,
            texture.resource(),
        );
        proof {
            Recorder::lemma_extends_trans(r0, r1, r2);
            Recorder::lemma_extends_trans(r0, r2, r3);
            Recorder::lemma_extends_trans(r0, r3, r4);
            Recorder::lemma_extends_trans(r0, r4, r5);
            Recorder::lemma_extends_trans(r0, r5, r6);
            Recorder::lemma_extends_trans(r0, r6, r7);
            Recorder::lemma_extends_trans(r0, r7, *rec);
        }
        let life = Life {
            shader,
            pipeline,
            bind_groups,
            dimensions,
            cell_buffers,
            random_buf,
            cell_bc,
            rand_bc,
            debug_buffer,
            frame_num: 0,
        };
        assert(life.bound_to(params.spec_resource(), texture.spec_resource(), RenderDir::Forward));
        assert(life.bound_to(params.spec_resource(), texture.spec_resource(), RenderDir::Backward));
        life
    }

    /// Records a resize to `dimensions` as one new generation: two new cell
    /// buffers, each receiving the centred overlap of the old buffer of the
    /// same phase through the copy kernel, a new random buffer receiving the
    /// old one's overlap the same way, the binding of both phases to the new
    /// buffers, `params` and `texture`, and a new debug buffer; then the
    /// release of the old generation. The step count, and so the phase, is
    /// kept.
    pub fn resize<P: Bindable, Q: Bindable>(
        &mut self,
        rec: &mut Recorder,
        dimensions: Dimensions,
        params: &P,
        texture: &Q,
    )
        requires
            old(self).wf(),
            old(rec).has_room(RESIZE_IDS as nat),
            grid_fits::<[u32; 4]>(dimensions),
        ensures
            final(self).wf(),
            final(self).spec_dimensions() == dimensions,
            final(self).spec_frame_num() == old(self).spec_frame_num(),
            final(self).bound_to(
                params.spec_resource(),
                texture.spec_resource(),
                RenderDir::Forward,
            ),
            final(self).bound_to(
                params.spec_resource(),
                texture.spec_resource(),
                RenderDir::Backward,
            ),
            final(self).spec_cell_copier() == old(self).spec_cell_copier(),
            final(self).spec_rand_copier() == old(self).spec_rand_copier(),
            final(rec).extends(*old(rec)),
            final(rec).spec_next_id() == old(rec).spec_next_id() + RESIZE_IDS,
            old(self).spec_cell_copier().copy_recorded(
                old(self).spec_cell_buffer(RenderDir::Forward),
                final(self).spec_cell_buffer(RenderDir::Forward),
                final(rec).spec_ops(),
                old(rec).spec_ops().len() + 2int,
                old(rec).spec_next_id() + 2,
            ),
            old(self).spec_cell_copier().copy_recorded(
                old(self).spec_cell_buffer(RenderDir::Backward),
                final(self).spec_cell_buffer(RenderDir::Backward),
                final(rec).spec_ops(),
                old(rec).spec_ops().len() + 11int,
                old(rec).spec_next_id() + 6,
            ),
            old(self).spec_rand_copier().copy_recorded(
                old(self).spec_random_buf(),
                final(self).spec_random_buf(),
                final(rec).spec_ops(),
                old(rec).spec_ops().len() + 21int,
                old(rec).spec_next_id() + 11,
            ),
            releases(
                final(rec).spec_ops(),
                old(rec).spec_ops().len() + 35int,
                old(self).spec_generation(),
            ),
            final(rec).spec_ops().len() == old(rec).spec_ops().len() + 43,
    {
        proof {
            lemma_grid_fits_cells(dimensions);
        }
        let ghost r0 = *rec;
        let fwd = Buffer2D::<Cell>::new(rec, "cells (forward)".to_owned(), dimensions);
        let ghost r1 = *rec;
        let bwd = Buffer2D::<Cell>::new(rec, "cells (backward)".to_owned(), dimensions);
        let ghost r2 = *rec;
        self.cell_bc.copy(rec, self.cell_buffers.src(RenderDir::Forward), &fwd);
        let ghost r3 = *rec;
        self.cell_bc.copy(rec, self.cell_buffers.src(RenderDir::Backward), &bwd);
        let ghost r4 = *rec;
        let cell_buffers = RenderSources::from_pair(fwd, bwd);
        let random_buf: Buffer2D<[u32; 4]> = Buffer2D::new(
            rec,
            "random data".to_owned(),
            dimensions,
        );
        let ghost r5 = *rec;
        self.rand_bc.copy(rec, &self.random_buf, &random_buf);
        let ghost r6 = *rec;
        let (pipeline, bind_groups) = Self::bind(
            rec,
            self.shader,
            params.resource(),
            &cell_buffers,
            &random_buf,
            texture.resource(),
        );
        let ghost r7 = *rec;
        let debug_buffer = DebugBuffer::new(rec, dimensions);
        let ghost r8 = *rec;
        self.release_generation(rec);
        proof {
            let fin = *rec;
            Recorder::lemma_extends_trans(r7, r8, fin);
            Recorder::lemma_extends_trans(r6, r7, fin);
            Recorder::lemma_extends_trans(r5, r6, fin);
            Recorder::lemma_extends_trans(r4, r5, fin);
            Recorder::lemma_extends_trans(r3, r4, fin);
            Recorder::lemma_extends_trans(r2, r3, fin);
            Recorder::lemma_extends_trans(r1, r2, fin);
            Recorder::lemma_extends_trans(r0, r1, fin);
            self.cell_bc.lemma_copy_recorded_kept(
                old(self).spec_cell_buffer(RenderDir::Forward),
                fwd,
                r3.spec_ops(),
                fin.spec_ops(),
                r0.spec_ops().len() + 2int,
                r0.spec_next_id() + 2,
            );
            self.cell_bc.lemma_copy_recorded_kept(
                old(self).spec_cell_buffer(RenderDir::Backward),
                bwd,
                r4.spec_ops(),
                fin.spec_ops(),
                r0.spec_ops().len() + 11int,
                r0.spec_next_id() + 6,
            );
            self.rand_bc.lemma_copy_recorded_kept(
                old(self).spec_random_buf(),
                random_buf,
                r6.spec_ops(),
                fin.spec_ops(),
                r0.spec_ops().len() + 21int,
                r0.spec_next_id() + 11,
            );
        }
        self.pipeline = pipeline;
        self.bind_groups = bind_groups;
        self.dimensions = dimensions;
        self.cell_buffers = cell_buffers;
        self.random_buf = random_buf;
        self.debug_buffer = debug_buffer;
        assert(self.bound_to(params.spec_resource(), texture.spec_resource(), RenderDir::Forward));
        assert(self.bound_to(params.spec_resource(), texture.spec_resource(), RenderDir::Backward));
    }

    /// The objects of the current generation: cell buffers, random buffer,
    /// debug buffer, binding sets, pipeline and its layout.
    pub open spec fn spec_generation(&self) -> Seq<ResourceId> {
        seq![
            self.spec_cell_buffer(RenderDir::Forward).spec_buf().spec_id(),
            self.spec_cell_buffer(RenderDir::Backward).spec_buf().spec_id(),
            self.spec_random_buf().spec_buf().spec_id(),
            self.spec_debug_buffer().spec_buf().spec_buf().spec_id(),
            self.spec_bind_group(RenderDir::Forward).spec_id(),
            self.spec_bind_group(RenderDir::Backward).spec_id(),
            self.spec_pipeline().id,
            self.spec_pipeline().layout,
        ]
    }

    /// Records the release of every object of the current generation.
    fn release_generation(&self, rec: &mut Recorder)
        ensures
            final(rec).extends(*old(rec)),
            final(rec).spec_next_id() == old(rec).spec_next_id(),
            final(rec).spec_ops().len() == old(rec).spec_ops().len() + 8,
            releases(final(rec).spec_ops(), old(rec).spec_ops().len() as int, self.spec_generation()),
    {
        let ghost r0 = *rec;
        rec.push(GpuOp::Release { id: self.cell_buffers.src(RenderDir::Forward).buf().id() });
        rec.push(GpuOp::Release { id: self.cell_buffers.src(RenderDir::Backward).buf().id() });
        rec.push(GpuOp::Release { id: self.random_buf.buf().id() });
        rec.push(GpuOp::Release { id: self.debug_buffer.buf().buf().id() });
        rec.push(GpuOp::Release { id: self.bind_groups.get(RenderDir::Forward).id() });
        rec.push(GpuOp::Release { id: self.bind_groups.get(RenderDir::Backward).id() });
        rec.push(GpuOp::Release { id: self.pipeline.id });
        rec.push(GpuOp::Release { id: self.pipeline.layout });
        proof {
            let n = r0.spec_ops().len();
            assert(rec.spec_ops().take(n as int) =~= r0.spec_ops());
        }
    }

    /// Records one simulation step: a dispatch, over tiles covering the
    /// grid, of the binding set of the current phase, which reads the cell
    /// buffer of that phase and writes the other one. No cells are moved;
    /// the step count goes up by one, which flips the phase.
    pub fn step(&mut self, rec: &mut Recorder)
        requires
            old(self).wf(),
            old(self).spec_frame_num() < usize::MAX,
        ensures
            final(self).wf(),
            final(self).spec_frame_num() == old(self).spec_frame_num() + 1,
            final(self).spec_dimensions() == old(self).spec_dimensions(),
            final(self).spec_cell_buffers() == old(self).spec_cell_buffers(),
            final(self).spec_random_buf() == old(self).spec_random_buf(),
            final(self).spec_pipeline() == old(self).spec_pipeline(),
            forall|d: RenderDir| #[trigger]
                final(self).spec_bind_group(d) == old(self).spec_bind_group(d),
            forall|params: Resource, texture: Resource, d: RenderDir| #[trigger]
                final(self).bound_to(params, texture, d) == old(self).bound_to(params, texture, d),
            final(rec).spec_ops() == old(rec).spec_ops().push(
                GpuOp::Dispatch {
                    pipeline: old(self).spec_pipeline().id,
                    bind_set: old(self).spec_bind_group(old(self).spec_dir()).spec_id(),
                    x: spec_tiles(old(self).spec_dimensions().width),
                    y: spec_tiles(old(self).spec_dimensions().height),
                },
            ),
            final(rec).spec_next_id() == old(rec).spec_next_id(),
    {
        let x = tiles(self.dimensions.width());
        let y = tiles(self.dimensions.height());
        let dir = self.dir();
        let bind_set = self.bind_groups.get(dir).id();
        rec.push(GpuOp::Dispatch { pipeline: self.pipeline.id, bind_set, x, y });
        self.frame_num = self.frame_num + 1;
        proof {
            let ghost o = *old(self);
            let p = choose|params: Resource, texture: Resource|
                o.bound_to(params, texture, RenderDir::Forward) && o.bound_to(
                    params,
                    texture,
                    RenderDir::Backward,
                );
            assert(self.bound_to(p.0, p.1, RenderDir::Forward));
            assert(self.bound_to(p.0, p.1, RenderDir::Backward));
        }
    }

    /// The dispatch of one step taken in phase `d`.
    pub open spec fn spec_step_op(&self, d: RenderDir) -> GpuOp {
        GpuOp::Dispatch {
            pipeline: self.spec_pipeline().id,
            bind_set: self.spec_bind_group(d).spec_id(),
            x: spec_tiles(self.spec_dimensions().width),
            y: spec_tiles(self.spec_dimensions().height),
        }
    }

    /// Records `n` steps. After them the step count has grown by `n`, so the
    /// phase is that of the old count plus `n`: from a new grid, `n mod 2`.
    /// Step `i` dispatches the binding set of the phase it starts in.
    pub fn run_steps(&mut self, rec: &mut Recorder, n: usize)
        requires
            old(self).wf(),
            old(self).spec_frame_num() + n <= usize::MAX,
        ensures
            final(self).wf(),
            final(self).spec_frame_num() == old(self).spec_frame_num() + n,
            final(self).spec_dir().spec_index() == (old(self).spec_frame_num() + n) % 2,
            final(self).spec_dimensions() == old(self).spec_dimensions(),
            final(self).spec_cell_buffers() == old(self).spec_cell_buffers(),
            final(self).spec_random_buf() == old(self).spec_random_buf(),
            final(self).spec_pipeline() == old(self).spec_pipeline(),
            forall|d: RenderDir| #[trigger]
                final(self).spec_bind_group(d) == old(self).spec_bind_group(d),
            final(rec).spec_next_id() == old(rec).spec_next_id(),
            final(rec).spec_ops().len() == old(rec).spec_ops().len() + n,
            final(rec).spec_ops().take(old(rec).spec_ops().len() as int) == old(rec).spec_ops(),
            forall|i: int|
                0 <= i < n ==> #[trigger] final(rec).spec_ops()[old(rec).spec_ops().len() + i]
                    == old(self).spec_step_op(
                    RenderDir::spec_dir((old(self).spec_frame_num() + i) as nat),
                ),
    {
        let ghost first = *old(self);
        let ghost base = old(rec).spec_ops().len();
        let mut k: usize = 0;
        while k < n
            invariant
                k <= n,
                self.wf(),
                first.spec_frame_num() + n <= usize::MAX,
                self.spec_frame_num() == first.spec_frame_num() + k,
                self.spec_dimensions() == first.spec_dimensions(),
                self.spec_cell_buffers() == first.spec_cell_buffers(),
                self.spec_random_buf() == first.spec_random_buf(),
                self.spec_pipeline() == first.spec_pipeline(),
                forall|d: RenderDir| #[trigger] self.spec_bind_group(d) == first.spec_bind_group(d),
                rec.spec_next_id() == old(rec).spec_next_id(),
                rec.spec_ops().len() == base + k,
                rec.spec_ops().take(base as int) == old(rec).spec_ops(),
                forall|i: int|
                    0 <= i < k ==> #[trigger] rec.spec_ops()[base + i] == first.spec_step_op(
                        RenderDir::spec_dir((first.spec_frame_num() + i) as nat),
                    ),
            decreases n - k,
        {
            let ghost before = rec.spec_ops();
            self.step(rec);
            proof {
                assert(rec.spec_ops().take(base as int) =~= before.take(base as int));
                assert forall|i: int| 0 <= i < k + 1 implies #[trigger] rec.spec_ops()[base + i]
                    == first.spec_step_op(
                    RenderDir::spec_dir((first.spec_frame_num() + i) as nat),
                ) by {
                    if i < k {
                        assert(rec.spec_ops()[base + i] == before[base + i]);
                    }
                }
            }
            k = k + 1;
        }
        proof {
            crate::directions::lemma_phase_parity(self.spec_frame_num());
        }
    }

    /// Records a write of `cells`, one per grid cell in row-major order, into
    /// the source buffer of the current phase. Meant for the initial state,
    /// or just after a resize. Fails, recording nothing, where `cells` does
    /// not hold one value per cell.
    pub fn import(&self, rec: &mut Recorder, cells: &Vec<Cell>) -> (r: Result<(), GridError>)
        requires
            self.wf(),
        ensures
            r is Ok <==> cells@.len() == self.spec_dimensions().spec_area(),
            r is Err ==> *final(rec) == *old(rec),
            r is Ok ==> final(rec).one_more_op(*old(rec)) && final(rec).spec_ops().last().is_write(
                self.spec_cell_buffer(self.spec_dir()).spec_buf().spec_id(),
                crate::bindable::words_of(cells@),
            ),
    {
        self.src_buf().copyin_vec(rec, cells)
    }

    /// The cell buffer that is the source of the next step.
    pub fn src_buf(&self) -> (r: &Buffer2D<Cell>)
        ensures
            *r == self.spec_cell_buffer(self.spec_dir()),
    {
        self.cell_buffers.src(self.dir())
    }

    /// The cell buffer of phase `d`.
    pub fn cell_buffer(&self, d: RenderDir) -> (r: &Buffer2D<Cell>)
        ensures
            *r == self.spec_cell_buffer(d),
    {
        self.cell_buffers.src(d)
    }

    /// The binding set of phase `d`.
    pub fn bind_group(&self, d: RenderDir) -> (r: &BindingSet)
        ensures
            *r == self.spec_bind_group(d),
    {
        self.bind_groups.get(d)
    }

    pub fn random_buf(&self) -> (r: &Buffer2D<[u32; 4]>)
        ensures
            *r == self.spec_random_buf(),
    {
        &self.random_buf
    }

    pub fn pipeline(&self) -> (r: ComputePipeline)
        ensures
            r == self.spec_pipeline(),
    {
        self.pipeline
    }

    pub fn dimensions(&self) -> (r: Dimensions)
        ensures
            r == self.spec_dimensions(),
    {
        self.dimensions
    }

    /// The current phase: the parity of the step count.
    pub fn dir(&self) -> (r: RenderDir)
        ensures
            r == self.spec_dir(),
            r.spec_index() == self.spec_frame_num() % 2,
    {
        RenderDir::dir(self.frame_num)
    }

    /// Records a read-back of the debug buffer, for diagnostics.
    pub fn dump_debug(&self, rec: &mut Recorder)
        ensures
            final(rec).spec_ops() == old(rec).spec_ops().push(
                GpuOp::ReadBack { id: self.spec_debug_buffer().spec_buf().spec_buf().spec_id() },
            ),
            final(rec).spec_next_id() == old(rec).spec_next_id(),
    {
        self.debug_buffer.display(rec);
    }

    /// The number of steps taken.
    pub fn frame_num(&self) -> (r: usize)
        ensures
            r == self.spec_frame_num(),
    {
        self.frame_num
    }
}

/// The driver's phase is its step count mod 2, and the source of its next
/// step is the cell buffer of that phase.
pub proof fn lemma_phase_of_driver(life: Life)
    ensures
        life.spec_dir().spec_index() == life.spec_frame_num() % 2,
        life.spec_cell_buffers().spec_src(life.spec_dir()) == life.spec_cell_buffer(
            life.spec_dir(),
        ),
{
}

proof fn lemma_grid_fits_cells(dim: Dimensions)
    requires
        grid_fits::<[u32; 4]>(dim),
    ensures
        grid_fits::<Cell>(dim),
{
    assert(4 * dim.spec_area() * 1 <= 4 * dim.spec_area() * 4) by (nonlinear_arith);
}

} // verus!
