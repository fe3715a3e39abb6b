use std::collections::HashMap;

use gpulife::bindable::{
    Bindable, Buffer, BufferType, Cell, GridError, ResourceId, Texture, TextureFormat,
};
use gpulife::buffer_copy::tiles;
use gpulife::dimensions::Dimensions;
use gpulife::directions::RenderDir;
use gpulife::gpu::{GpuOp, Recorder, ShaderCode};
use gpulife::life::{Life, NEW_IDS, RESIZE_IDS};
use gpulife::random::random_quads;
use rand::rngs::SmallRng;
use rand::SeedableRng;

/// Performs recorded operations on host memory. The simulation kernel is
/// taken to be the identity: it copies its source into its destination.
#[derive(Default)]
struct HostDevice {
    bufs: HashMap<u64, Vec<u32>>,
    shaders: HashMap<u64, ShaderCode>,
    pipelines: HashMap<u64, u64>,
    sets: HashMap<u64, Vec<u64>>,
    written: Vec<u64>,
}

impl HostDevice {
    fn run(&mut self, ops: Vec<GpuOp>) {
        for op in ops {
            match op {
                GpuOp::CreateBuffer { id, size, .. } => {
                    self.bufs.insert(id.id, vec![0; size as usize / 4]);
                }
                GpuOp::CreateBufferInit { id, contents, .. } => {
                    self.bufs.insert(id.id, contents);
                }
                GpuOp::CreateShader { id, code } => {
                    self.shaders.insert(id.id, code);
                }
                GpuOp::CreateBindSet { id, resources, .. } => {
                    self.sets.insert(id.id, resources.iter().map(|r| r.id).collect());
                }
                GpuOp::CreateComputePipeline { id, shader, .. } => {
                    self.pipelines.insert(id.id, shader.id);
                }
                GpuOp::WriteBuffer { id, words } => {
                    let b = self.bufs.get_mut(&id.id).unwrap();
                    b[..words.len()].copy_from_slice(&words);
                }
                GpuOp::CopyBuffer { src, dst, size } => {
                    let n = size as usize / 4;
                    let data = self.bufs[&src.id][..n].to_vec();
                    self.bufs.get_mut(&dst.id).unwrap()[..n].copy_from_slice(&data);
                }
                GpuOp::Dispatch { pipeline, bind_set, .. } => {
                    let set = self.sets[&bind_set.id].clone();
                    match &self.shaders[&self.pipelines[&pipeline.id]] {
                        ShaderCode::Life => {
                            let data = self.bufs[&set[1]].clone();
                            self.bufs.insert(set[2], data);
                            self.written.push(set[2]);
                        }
                        ShaderCode::BufferCopy { info } => {
                            let k = if info.src_type == "vec4<u32>" { 4 } else { 1 };
                            let p = self.bufs[&set[0]].clone();
                            let (odx, ody, ndx, ndy, ow, nw, w, h) =
                                (p[0], p[1], p[2], p[3], p[4], p[5], p[6], p[7]);
                            let src = self.bufs[&set[1]].clone();
                            let dst = self.bufs.get_mut(&set[2]).unwrap();
                            for j in 0..h {
                                for i in 0..w {
                                    let s = (((j + ody) * ow + i + odx) * k) as usize;
                                    let d = (((j + ndy) * nw + i + ndx) * k) as usize;
                                    dst[d..d + k as usize].copy_from_slice(&src[s..s + k as usize]);
                                }
                            }
                        }
                    }
                }
                _ => {}
            }
        }
    }
}

fn setup(w: u32, h: u32) -> (Recorder, Buffer, Texture, Life) {
    let mut rec = Recorder::new();
    let dim = Dimensions::new(w, h);
    let params = Buffer::new_init(&mut rec, "params".to_string(), BufferType::Uniform, vec![w, h, 0]);
    let texture = Texture::new(&mut rec, dim, TextureFormat::R32Float);
    let mut rng = SmallRng::seed_from_u64(42);
    let life = Life::new(&mut rec, dim, &params, &texture, &mut rng);
    (rec, params, texture, life)
}

#[test]
fn uniform_grid_steps_then_shrinks() {
    let one = Cell { bits: 1.0f32.to_bits() };
    let (mut rec, params, texture, mut life) = setup(4, 4);
    let mut dev = HostDevice::default();
    life.import(&mut rec, &vec![one; 16]).unwrap();
    for _ in 0..3 {
        life.step(&mut rec);
    }
    dev.run(rec.take_ops());
    assert_eq!(life.frame_num(), 3);
    assert_eq!(life.dir(), RenderDir::Backward);
    assert_eq!(life.dir().index(), 1);
    // the third step read the forward buffer and wrote the backward one
    let last = *dev.written.last().unwrap();
    assert_eq!(last, life.cell_buffer(RenderDir::Backward).buf().id().id);
    assert_eq!(last, life.src_buf().buf().id().id);
    assert!(dev.bufs[&last].iter().all(|c| *c == one.bits));

    life.resize(&mut rec, Dimensions::new(2, 2), &params, &texture);
    dev.run(rec.take_ops());
    assert_eq!(life.dimensions(), Dimensions::new(2, 2));
    assert_eq!(life.frame_num(), 3);
    let src = &dev.bufs[&life.src_buf().buf().id().id];
    assert_eq!(src.len(), 4);
    assert!(src.iter().all(|c| *c == one.bits));
}

#[test]
fn new_records_one_generation() {
    let (rec, params, texture, life) = setup(4, 4);
    assert_eq!(rec.room(), u64::MAX - 2 - NEW_IDS);
    assert_eq!(life.frame_num(), 0);
    assert_eq!(life.dir(), RenderDir::Forward);
    let fwd = life.bind_group(RenderDir::Forward);
    let bwd = life.bind_group(RenderDir::Backward);
    let f = life.cell_buffer(RenderDir::Forward).buf().id();
    let b = life.cell_buffer(RenderDir::Backward).buf().id();
    let r = life.random_buf().buf().id();
    assert_eq!(fwd.len(), 5);
    assert_eq!(
        (0..5).map(|i| fwd.resource(i)).collect::<Vec<_>>(),
        vec![params.id(), f, b, r, texture.resource().binding_resource()]
    );
    assert_eq!(
        (0..5).map(|i| bwd.resource(i)).collect::<Vec<_>>(),
        vec![params.id(), b, f, r, texture.resource().binding_resource()]
    );
    let random = rec
        .ops()
        .iter()
        .find_map(|o| match o {
            GpuOp::CreateBufferInit { id, contents, .. } if *id == r => Some(contents.clone()),
            _ => None,
        })
        .unwrap();
    assert_eq!(random.len(), 64);
    assert!(random.iter().any(|w| *w != 0));
}

#[test]
fn step_dispatches_binding_of_current_phase() {
    let (mut rec, _params, _texture, mut life) = setup(20, 9);
    rec.take_ops();
    life.step(&mut rec);
    life.step(&mut rec);
    let ops = rec.take_ops();
    assert_eq!(ops.len(), 2);
    let expect = |op: &GpuOp, d: RenderDir| match op {
        GpuOp::Dispatch { pipeline, bind_set, x, y } => {
            assert_eq!(*pipeline, life.pipeline().id);
            assert_eq!(*bind_set, life.bind_group(d).id());
            assert_eq!((*x, *y), (tiles(20), tiles(9)));
            assert_eq!((*x, *y), (3, 2));
        }
        _ => panic!("expected a dispatch"),
    };
    expect(&ops[0], RenderDir::Forward);
    expect(&ops[1], RenderDir::Backward);
    assert_eq!(life.dir(), RenderDir::Forward);
}

#[test]
fn driver_import_rejects_wrong_length() {
    let (mut rec, _params, _texture, life) = setup(3, 3);
    let before = rec.ops().len();
    let r = life.import(&mut rec, &vec![Cell { bits: 0 }; 8]);
    assert_eq!(r, Err(GridError::LengthMismatch { expected: 9, found: 8 }));
    assert_eq!(rec.ops().len(), before);
}

#[test]
fn resize_copies_each_buffer_with_centred_params() {
    let (mut rec, params, texture, mut life) = setup(4, 4);
    let old_f = life.cell_buffer(RenderDir::Forward).buf().id();
    let old_r = life.random_buf().buf().id();
    rec.take_ops();
    life.resize(&mut rec, Dimensions::new(2, 2), &params, &texture);
    let ops = rec.take_ops();
    assert_eq!(ops.len(), 43);
    assert_eq!(rec.room(), u64::MAX - 2 - NEW_IDS - RESIZE_IDS);
    match &ops[2] {
        GpuOp::CreateBufferInit { contents, .. } => {
            assert_eq!(*contents, vec![1, 1, 0, 0, 4, 2, 2, 2]);
        }
        _ => panic!("expected copy parameters"),
    }
    match &ops[4] {
        GpuOp::CreateBindSet { resources, .. } => {
            assert_eq!(resources[1], old_f);
            assert_eq!(resources[2], life.cell_buffer(RenderDir::Forward).buf().id());
        }
        _ => panic!("expected a binding set"),
    }
    match &ops[23] {
        GpuOp::CreateBindSet { resources, .. } => {
            assert_eq!(resources[1], old_r);
            assert_eq!(resources[2], life.random_buf().buf().id());
        }
        _ => panic!("expected a binding set"),
    }
    assert!(matches!(ops[6], GpuOp::Dispatch { x: 1, y: 1, .. }));
    let released: Vec<ResourceId> = ops[35..]
        .iter()
        .map(|o| match o {
            GpuOp::Release { id } => *id,
            _ => panic!("expected a release"),
        })
        .collect();
    assert_eq!(released.len(), 8);
    assert_eq!(released[0], old_f);
    assert_eq!(released[2], old_r);
    assert!(matches!(ops[7], GpuOp::Release { .. }));
}

#[test]
fn resize_carries_random_data_overlap() {
    let (mut rec, params, texture, mut life) = setup(2, 2);
    let mut dev = HostDevice::default();
    dev.run(rec.take_ops());
    let old = dev.bufs[&life.random_buf().buf().id().id].clone();
    life.resize(&mut rec, Dimensions::new(4, 4), &params, &texture);
    dev.run(rec.take_ops());
    let new = &dev.bufs[&life.random_buf().buf().id().id];
    assert_eq!(new.len(), 64);
    // the old 2x2 block sits at offset (1, 1) of the new 4x4 grid
    for y in 0..2usize {
        for x in 0..2usize {
            let o = (y * 2 + x) * 4;
            let n = ((y + 1) * 4 + x + 1) * 4;
            assert_eq!(new[n..n + 4], old[o..o + 4]);
        }
    }
    assert!(new[0..4].iter().all(|w| *w == 0));
}

#[test]
fn dump_debug_reads_back() {
    let (mut rec, _params, _texture, life) = setup(2, 2);
    rec.take_ops();
    life.dump_debug(&mut rec);
    assert!(matches!(rec.ops()[0], GpuOp::ReadBack { .. }));
}

#[test]
fn random_quads_follow_seed() {
    let mut a = SmallRng::seed_from_u64(7);
    let mut b = SmallRng::seed_from_u64(7);
    let x = random_quads(&mut a, 5);
    let y = random_quads(&mut b, 5);
    assert_eq!(x.len(), 5);
    assert_eq!(x, y);
    assert!(x.iter().any(|q| q.iter().any(|w| *w != 0)));
}

#[test]
fn resize_to_zero_area_dispatches_no_tiles() {
    let (mut rec, params, texture, mut life) = setup(4, 4);
    rec.take_ops();
    life.resize(&mut rec, Dimensions::new(0, 4), &params, &texture);
    let ops = rec.take_ops();
    let dispatches: Vec<(u32, u32)> = ops
        .iter()
        .filter_map(|o| match o {
            GpuOp::Dispatch { x, y, .. } => Some((*x, *y)),
            _ => None,
        })
        .collect();
    assert_eq!(dispatches, vec![(0, 1), (0, 1), (0, 1)]);
    assert_eq!(life.src_buf().buf().size(), 0);
    life.step(&mut rec);
    assert!(matches!(rec.ops()[0], GpuOp::Dispatch { x: 0, y: 1, .. }));
}

#[test]
fn run_steps_reports_phase_of_count() {
    for n in 0..6usize {
        let (mut rec, _params, _texture, mut life) = setup(3, 2);
        rec.take_ops();
        life.run_steps(&mut rec, n);
        assert_eq!(life.frame_num(), n);
        assert_eq!(life.dir().index(), n % 2);
        let ops = rec.take_ops();
        assert_eq!(ops.len(), n);
        for (i, op) in ops.iter().enumerate() {
            let d = RenderDir::dir(i);
            assert!(matches!(op, GpuOp::Dispatch { bind_set, .. } if *bind_set == life.bind_group(d).id()));
        }
    }
}
