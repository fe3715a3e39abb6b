use gpulife::bindable::{Buffer2D, BufferType, Cell, GridError};
use gpulife::dimensions::Dimensions;
use gpulife::gpu::{GpuOp, Recorder};
use gpulife::grid::HostGrid;

fn numbered(w: u32, h: u32) -> HostGrid<u32> {
    let cells: Vec<u32> = (0..w * h).collect();
    HostGrid::from_cells(Dimensions::new(w, h), cells).unwrap()
}

#[test]
fn shrinking_uniform_grid_stays_uniform() {
    let v = 1.5f32.to_bits();
    let g = HostGrid::filled(Dimensions::new(6, 5), v);
    for (w, h) in [(6, 5), (4, 5), (1, 1), (3, 2), (6, 1)] {
        let r = g.resized(Dimensions::new(w, h), 0);
        assert_eq!(r.dim(), Dimensions::new(w, h));
        assert_eq!(r.cells().len(), (w * h) as usize);
        assert!(r.cells().iter().all(|c| *c == v));
    }
}

#[test]
fn growing_uniform_grid_keeps_centred_rectangle() {
    let v = 7u32;
    let g = HostGrid::filled(Dimensions::new(3, 2), v);
    let r = g.resized(Dimensions::new(8, 7), 0);
    // offsets (8 - 3) / 2 = 2 and (7 - 2) / 2 = 2
    for y in 2..4 {
        for x in 2..5 {
            assert_eq!(r.get(x, y), v);
        }
    }
    assert_eq!(r.get(0, 0), 0);
    assert_eq!(r.get(7, 6), 0);
}

#[test]
fn shrinking_takes_centred_crop() {
    let g = numbered(5, 5);
    let r = g.resized(Dimensions::new(3, 3), 99);
    // offsets (5 - 3) / 2 = 1
    assert_eq!(r.cells().clone(), vec![6, 7, 8, 11, 12, 13, 16, 17, 18]);
}

#[test]
fn odd_shrink_truncates_toward_top_left() {
    let g = numbered(4, 4);
    let r = g.resized(Dimensions::new(3, 3), 99);
    // offsets (4 - 3) / 2 = 0
    assert_eq!(r.cells().clone(), vec![0, 1, 2, 4, 5, 6, 8, 9, 10]);
}

#[test]
fn round_trip_keeps_interior_overlap() {
    let g = numbered(4, 4);
    let back = g.resized(Dimensions::new(3, 3), 99).resized(Dimensions::new(4, 4), 99);
    for y in 0..3 {
        for x in 0..3 {
            assert_eq!(back.get(x, y), g.get(x, y));
        }
    }
}

#[test]
fn resize_to_zero_area_is_empty() {
    let g = numbered(4, 4);
    let r = g.resized(Dimensions::new(0, 4), 1);
    assert_eq!(r.cells().len(), 0);
    let e = HostGrid::filled(Dimensions::new(0, 0), 5u32);
    let r2 = e.resized(Dimensions::new(2, 2), 3);
    assert_eq!(r2.cells().clone(), vec![3, 3, 3, 3]);
}

#[test]
fn host_grid_rejects_wrong_length() {
    let r = HostGrid::from_cells(Dimensions::new(2, 3), vec![1u32; 5]);
    assert_eq!(r.err(), Some(GridError::LengthMismatch { expected: 6, found: 5 }));
}

#[test]
fn import_writes_words_of_cells() {
    let mut rec = Recorder::new();
    let g: Buffer2D<Cell> = Buffer2D::new(&mut rec, "g".to_string(), Dimensions::new(2, 1));
    let data = vec![Cell { bits: 5 }, Cell { bits: 6 }];
    g.copyin_vec(&mut rec, &data).unwrap();
    match &rec.ops()[1] {
        GpuOp::WriteBuffer { id, words } => {
            assert_eq!(*id, g.buf().id());
            assert_eq!(*words, vec![5, 6]);
        }
        _ => panic!("expected a write"),
    }
}

#[test]
fn import_rejects_wrong_length() {
    let mut rec = Recorder::new();
    let g: Buffer2D<Cell> = Buffer2D::new(&mut rec, "g".to_string(), Dimensions::new(2, 2));
    let r = g.copyin_vec(&mut rec, &vec![Cell { bits: 0 }; 3]);
    assert_eq!(r, Err(GridError::LengthMismatch { expected: 4, found: 3 }));
    assert_eq!(rec.ops().len(), 1);
}

#[test]
fn new_init_flattens_quads() {
    let mut rec = Recorder::new();
    let data = vec![[1, 2, 3, 4], [5, 6, 7, 8]];
    let g = Buffer2D::new_init(&mut rec, "q".to_string(), BufferType::Storage, Dimensions::new(1, 2), &data)
        .unwrap();
    assert_eq!(g.buf().size(), 32);
    match &rec.ops()[0] {
        GpuOp::CreateBufferInit { contents, .. } => {
            assert_eq!(*contents, vec![1, 2, 3, 4, 5, 6, 7, 8]);
        }
        _ => panic!("expected an initialised buffer"),
    }
    let bad = Buffer2D::<[u32; 4]>::new_init(
        &mut rec,
        "q".to_string(),
        BufferType::Storage,
        Dimensions::new(2, 2),
        &data,
    );
    assert_eq!(bad.err(), Some(GridError::LengthMismatch { expected: 4, found: 2 }));
}

#[test]
fn same_size_copy_checks_dimensions() {
    let mut rec = Recorder::new();
    let a: Buffer2D<Cell> = Buffer2D::new(&mut rec, "a".to_string(), Dimensions::new(2, 2));
    let b: Buffer2D<Cell> = Buffer2D::new(&mut rec, "b".to_string(), Dimensions::new(2, 2));
    let c: Buffer2D<Cell> = Buffer2D::new(&mut rec, "c".to_string(), Dimensions::new(4, 1));
    assert_eq!(b.copyin_buf(&mut rec, &a), Ok(()));
    match &rec.ops()[3] {
        GpuOp::CopyBuffer { src, dst, size } => {
            assert_eq!((*src, *dst, *size), (a.buf().id(), b.buf().id(), 16));
        }
        _ => panic!("expected a copy"),
    }
    assert_eq!(
        c.copyin_buf(&mut rec, &a),
        Err(GridError::DimensionMismatch {
            target: Dimensions::new(4, 1),
            source: Dimensions::new(2, 2),
        })
    );
    assert_eq!(rec.ops().len(), 4);
}
