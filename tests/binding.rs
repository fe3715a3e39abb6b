use gpulife::bindable::{
    AddressMode, BindAccess, BindError, Bindable, Binder, BindingType, Buffer, Buffer2D,
    BufferBindingType, BufferType, Cell, FilterMode, Resource, ResourceId, Sampler, ShaderStage,
    StorageTextureAccess, Texture, TextureFormat,
};
use gpulife::dimensions::Dimensions;
use gpulife::directions::{RenderDir, RenderMotion};
use gpulife::gpu::{GpuOp, Recorder};

fn storage(id: u64, size: u64) -> Resource {
    Resource::Buffer { id: ResourceId { id }, size, ty: BufferType::Storage }
}

#[test]
fn buffer_binding_types() {
    let s = storage(1, 64);
    assert_eq!(
        s.binding_type(BindAccess::ReadOnly),
        Some(BindingType::Buffer {
            ty: BufferBindingType::Storage { read_only: true },
            min_binding_size: Some(64),
        })
    );
    assert_eq!(
        s.binding_type(BindAccess::WriteOnly),
        Some(BindingType::Buffer {
            ty: BufferBindingType::Storage { read_only: false },
            min_binding_size: Some(64),
        })
    );
    let u = Resource::Buffer { id: ResourceId { id: 2 }, size: 12, ty: BufferType::Uniform };
    assert_eq!(
        u.binding_type(BindAccess::ReadOnly),
        Some(BindingType::Buffer { ty: BufferBindingType::Uniform, min_binding_size: Some(12) })
    );
    let empty = storage(3, 0);
    assert_eq!(
        empty.binding_type(BindAccess::ReadOnly),
        Some(BindingType::Buffer {
            ty: BufferBindingType::Storage { read_only: true },
            min_binding_size: None,
        })
    );
}

#[test]
fn buffer_refuses_sampled_access() {
    assert!(!storage(1, 4).supports(BindAccess::ReadSampled));
    assert_eq!(storage(1, 4).binding_type(BindAccess::ReadSampled), None);
    let u = Resource::Buffer { id: ResourceId { id: 2 }, size: 12, ty: BufferType::Uniform };
    assert_eq!(u.binding_type(BindAccess::ReadSampled), None);
}

#[test]
fn texture_and_sampler_binding_types() {
    let t = Resource::Texture { id: ResourceId { id: 5 }, format: TextureFormat::R32Float };
    assert_eq!(
        t.binding_type(BindAccess::ReadOnly),
        Some(BindingType::StorageTexture {
            access: StorageTextureAccess::ReadOnly,
            format: TextureFormat::R32Float,
        })
    );
    assert_eq!(
        t.binding_type(BindAccess::ReadSampled),
        Some(BindingType::Texture { format: TextureFormat::R32Float })
    );
    assert_eq!(
        t.binding_type(BindAccess::WriteOnly),
        Some(BindingType::StorageTexture {
            access: StorageTextureAccess::WriteOnly,
            format: TextureFormat::R32Float,
        })
    );
    let s = Resource::Sampler { id: ResourceId { id: 6 } };
    for a in [BindAccess::ReadOnly, BindAccess::ReadSampled, BindAccess::WriteOnly] {
        assert_eq!(
            s.binding_type(a),
            Some(BindingType::Sampler { comparison: false, filtering: true })
        );
    }
    assert_eq!(t.binding_resource(), ResourceId { id: 5 });
}

#[test]
fn resources_record_their_creation() {
    let mut rec = Recorder::new();
    let b = Buffer::new(&mut rec, "b".to_string(), BufferType::Storage, 40);
    let t = Texture::new(&mut rec, Dimensions::new(3, 2), TextureFormat::R32Float);
    let s = Sampler::new(&mut rec, AddressMode::Repeat, FilterMode::Linear);
    let g: Buffer2D<[u32; 4]> = Buffer2D::new(&mut rec, "g".to_string(), Dimensions::new(3, 2));
    assert_eq!(b.id(), ResourceId { id: 0 });
    assert_eq!(b.size(), 40);
    assert_eq!(t.resource(), Resource::Texture { id: ResourceId { id: 1 }, format: TextureFormat::R32Float });
    assert_eq!(s.resource(), Resource::Sampler { id: ResourceId { id: 2 } });
    assert_eq!(g.buf().size(), 3 * 2 * 16);
    assert_eq!(g.dim(), Dimensions::new(3, 2));
    assert_eq!(rec.ops().len(), 4);
    assert_eq!(rec.room(), u64::MAX - 4);
    match &rec.ops()[3] {
        GpuOp::CreateBuffer { id, label, ty, size } => {
            assert_eq!(*id, ResourceId { id: 3 });
            assert_eq!(label, "g");
            assert_eq!(*ty, BufferType::Storage);
            assert_eq!(*size, 96);
        }
        _ => panic!("expected a buffer creation"),
    }
}

#[test]
fn bind_up_slots_follow_list_order() {
    let mut rec = Recorder::new();
    let args = vec![
        (BindAccess::ReadOnly, storage(10, 4)),
        (BindAccess::WriteOnly, storage(11, 8)),
        (BindAccess::ReadSampled, Resource::Sampler { id: ResourceId { id: 12 } }),
    ];
    let (pipeline, set) =
        Binder::bind_up(&mut rec, ResourceId { id: 99 }, "main".to_string(), &args).unwrap();
    assert_eq!(set.len(), 3);
    assert_eq!(set.resource(0), ResourceId { id: 10 });
    assert_eq!(set.resource(1), ResourceId { id: 11 });
    assert_eq!(set.resource(2), ResourceId { id: 12 });
    assert_eq!(set.layout(), pipeline.layout);
    let ops = rec.take_ops();
    assert_eq!(ops.len(), 3);
    match &ops[0] {
        GpuOp::CreateBindLayout { id, stage, entries } => {
            assert_eq!(*id, pipeline.layout);
            assert_eq!(*stage, ShaderStage::Compute);
            assert_eq!(entries.len(), 3);
            assert_eq!(entries[1], storage(11, 8).binding_type(BindAccess::WriteOnly).unwrap());
        }
        _ => panic!("expected a layout"),
    }
    match &ops[1] {
        GpuOp::CreateBindSet { id, layout, resources } => {
            assert_eq!(*id, set.id());
            assert_eq!(*layout, pipeline.layout);
            assert_eq!(
                *resources,
                vec![ResourceId { id: 10 }, ResourceId { id: 11 }, ResourceId { id: 12 }]
            );
        }
        _ => panic!("expected a binding set"),
    }
    match &ops[2] {
        GpuOp::CreateComputePipeline { id, layout, shader, entry_point } => {
            assert_eq!(*id, pipeline.id);
            assert_eq!(*layout, pipeline.layout);
            assert_eq!(*shader, ResourceId { id: 99 });
            assert_eq!(entry_point, "main");
        }
        _ => panic!("expected a pipeline"),
    }
    assert!(rec.ops().is_empty());
}

#[test]
fn reordered_list_reorders_slots() {
    let a = (BindAccess::ReadOnly, storage(1, 4));
    let b = (BindAccess::WriteOnly, storage(2, 4));
    let c = (BindAccess::ReadOnly, Resource::Texture { id: ResourceId { id: 3 }, format: TextureFormat::Rgba8Unorm });
    let mut rec = Recorder::new();
    let (_, s1) = Binder::bind_up(&mut rec, ResourceId { id: 50 }, "k".to_string(), &vec![a, b, c]).unwrap();
    let (_, s2) = Binder::bind_up(&mut rec, ResourceId { id: 50 }, "k".to_string(), &vec![c, a, b]).unwrap();
    let ids = |s: &gpulife::bindable::BindingSet| (0..s.len()).map(|i| s.resource(i).id).collect::<Vec<_>>();
    assert_eq!(ids(&s1), vec![1, 2, 3]);
    assert_eq!(ids(&s2), vec![3, 1, 2]);
}

#[test]
fn bind_up_rejects_sampled_buffer() {
    let mut rec = Recorder::new();
    let args = vec![
        (BindAccess::ReadOnly, storage(1, 4)),
        (BindAccess::ReadSampled, storage(2, 4)),
        (BindAccess::ReadSampled, storage(3, 4)),
    ];
    let r = Binder::bind_up(&mut rec, ResourceId { id: 0 }, "k".to_string(), &args);
    assert_eq!(
        r.err(),
        Some(BindError::UnsupportedAccess { slot: 1, access: BindAccess::ReadSampled })
    );
    assert!(rec.ops().is_empty());
    assert_eq!(rec.room(), u64::MAX);
}

#[test]
fn bind_up_dir_builds_one_layout_two_sets() {
    let mut rec = Recorder::new();
    let fwd = vec![(BindAccess::ReadOnly, storage(1, 16)), (BindAccess::WriteOnly, storage(2, 16))];
    let bwd = vec![(BindAccess::ReadOnly, storage(2, 16)), (BindAccess::WriteOnly, storage(1, 16))];
    let (p, sets) = Binder::bind_up_dir(
        &mut rec,
        ResourceId { id: 7 },
        "life".to_string(),
        &RenderMotion::from_pair(fwd, bwd),
    )
    .unwrap();
    let f = sets.get(RenderDir::Forward);
    let b = sets.get(RenderDir::Backward);
    assert_eq!((f.resource(0).id, f.resource(1).id), (1, 2));
    assert_eq!((b.resource(0).id, b.resource(1).id), (2, 1));
    assert_eq!(f.layout(), p.layout);
    assert_eq!(b.layout(), p.layout);
    let ops = rec.ops();
    assert_eq!(ops.len(), 4);
    assert!(matches!(ops[0], GpuOp::CreateBindLayout { .. }));
    assert!(matches!(ops[3], GpuOp::CreateComputePipeline { .. }));
    let layouts = ops.iter().filter(|o| matches!(o, GpuOp::CreateBindLayout { .. })).count();
    assert_eq!(layouts, 1);
}

#[test]
fn bind_up_dir_rejects_differing_layouts() {
    let mut rec = Recorder::new();
    let fwd = vec![(BindAccess::ReadOnly, storage(1, 16))];
    let bwd = vec![(BindAccess::ReadOnly, storage(2, 32))];
    let r = Binder::bind_up_dir(
        &mut rec,
        ResourceId { id: 7 },
        "life".to_string(),
        &RenderMotion::from_pair(fwd, bwd),
    );
    assert_eq!(r.err(), Some(BindError::PhaseLayoutMismatch));
    assert!(rec.ops().is_empty());
}

#[test]
fn bind_up_dir_reports_backward_unsupported_slot() {
    let mut rec = Recorder::new();
    let fwd = vec![(BindAccess::ReadOnly, storage(1, 16)), (BindAccess::ReadOnly, storage(2, 16))];
    let bwd = vec![(BindAccess::ReadOnly, storage(1, 16)), (BindAccess::ReadSampled, storage(2, 16))];
    let r = Binder::bind_up_dir(
        &mut rec,
        ResourceId { id: 7 },
        "life".to_string(),
        &RenderMotion::from_pair(fwd, bwd),
    );
    assert_eq!(
        r.err(),
        Some(BindError::UnsupportedAccess { slot: 1, access: BindAccess::ReadSampled })
    );
}

#[test]
fn fragment_binding_for_presentation() {
    let mut rec = Recorder::new();
    let params = Buffer::new_init(&mut rec, "p".to_string(), BufferType::Uniform, vec![4, 4, 0]);
    let tex = Texture::new(&mut rec, Dimensions::new(4, 4), TextureFormat::R32Float);
    let smp = Sampler::new(&mut rec, AddressMode::Repeat, FilterMode::Linear);
    let args = vec![
        (BindAccess::ReadOnly, params.resource()),
        (BindAccess::ReadSampled, tex.resource()),
        (BindAccess::ReadSampled, smp.resource()),
    ];
    let (layout, set) = Binder::bind_set(&mut rec, ShaderStage::Fragment, &args).unwrap();
    assert_eq!(layout, ResourceId { id: 3 });
    assert_eq!(set.id(), ResourceId { id: 4 });
    assert_eq!(params.size(), 12);
    match &rec.ops()[3] {
        GpuOp::CreateBindLayout { stage, entries, .. } => {
            assert_eq!(*stage, ShaderStage::Fragment);
            assert_eq!(entries[1], BindingType::Texture { format: TextureFormat::R32Float });
        }
        _ => panic!("expected a layout"),
    }
    let cells: Buffer2D<Cell> = Buffer2D::new(&mut rec, "c".to_string(), Dimensions::new(2, 2));
    assert_eq!(cells.buf().size(), 16);
}
