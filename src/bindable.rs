use std::marker::PhantomData;
use vstd::prelude::*;

use crate::dimensions::Dimensions;
use crate::directions::{RenderDir, RenderMotion};
use crate::gpu::{GpuOp, Recorder};

verus! {

/// How a pipeline stage uses a bound resource.
#[derive(Clone, Copy, Debug, PartialEq, Eq, Structural)]
pub enum BindAccess {
    ReadOnly,
    /// Filtered, interpolated reads: meaningful for images and samplers only.
    ReadSampled,
    WriteOnly,
}

/// What a linear buffer was created for: small constant data or general storage.
#[derive(Clone, Copy, Debug, PartialEq, Eq, Structural)]
pub enum BufferType {
    Uniform,
    Storage,
}

#[derive(Clone, Copy, Debug, PartialEq, Eq, Structural)]
pub enum TextureFormat {
    R32Float,
    R32Uint,
    Rgba8Unorm,
}

#[derive(Clone, Copy, Debug, PartialEq, Eq, Structural)]
pub enum AddressMode {
    ClampToEdge,
    Repeat,
    MirrorRepeat,
}

#[derive(Clone, Copy, Debug, PartialEq, Eq, Structural)]
pub enum FilterMode {
    Nearest,
    Linear,
}

/// The pipeline stage that sees a binding layout.
#[derive(Clone, Copy, Debug, PartialEq, Eq, Structural)]
pub enum ShaderStage {
    Compute,
    Fragment,
}

#[derive(Clone, Copy, Debug, PartialEq, Eq, Structural)]
pub enum StorageTextureAccess {
    ReadOnly,
    WriteOnly,
}

#[derive(Clone, Copy, Debug, PartialEq, Eq, Structural)]
pub enum BufferBindingType {
    Uniform,
    Storage { read_only: bool },
}

/// The descriptor of one slot of a binding layout.
#[derive(Clone, Copy, Debug, PartialEq, Eq, Structural)]
pub enum BindingType {
    /// A buffer; `min_binding_size` is its size, absent for an empty buffer.
    Buffer { ty: BufferBindingType, min_binding_size: Option<u64> },
    StorageTexture { access: StorageTextureAccess, format: TextureFormat },
    /// A sampled texture; the sample type follows from the format.
    Texture { format: TextureFormat },
    Sampler { comparison: bool, filtering: bool },
}

/// Names one GPU object for the lifetime of a `Recorder`.
#[derive(Clone, Copy, Debug, PartialEq, Eq, Hash, Structural)]
pub struct ResourceId {
    pub id: u64,
}

/// A bindable resource: one of the closed set of kinds.
#[derive(Clone, Copy, Debug, PartialEq, Eq, Structural)]
pub enum Resource {
    Buffer { id: ResourceId, size: u64, ty: BufferType },
    Texture { id: ResourceId, format: TextureFormat },
    Sampler { id: ResourceId },
}

/// Why a binding set could not be built.
#[derive(Clone, Copy, Debug, PartialEq, Eq, Structural)]
pub enum BindError {
    /// The resource at `slot` does not support `access`.
    UnsupportedAccess { slot: usize, access: BindAccess },
    /// The two phases of a phased binding disagree on the layout.
    PhaseLayoutMismatch,
}

impl Resource {
    pub open spec fn spec_id(self) -> ResourceId {
        match self {
            Resource::Buffer { id, .. } => id,
            Resource::Texture { id, .. } => id,
            Resource::Sampler { id } => id,
        }
    }

    /// Buffers are read or written; images and samplers also sampled.
    pub open spec fn spec_supports(self, access: BindAccess) -> bool {
        match self {
            Resource::Buffer { .. } => access != BindAccess::ReadSampled,
            _ => true,
        }
    }

    /// The descriptor of this resource under `access`, where it supports it.
    pub open spec fn spec_binding_type(self, access: BindAccess) -> BindingType {
        match self {
            Resource::Buffer { size, ty, .. } => BindingType::Buffer {
                ty: match ty {
                    BufferType::Uniform => BufferBindingType::Uniform,
                    BufferType::Storage => BufferBindingType::Storage {
                        read_only: access != BindAccess::WriteOnly,
                    },
                },
                min_binding_size: if size == 0 { None } else { Some(size) },
            },
            Resource::Texture { format, .. } => match access {
                BindAccess::ReadOnly => BindingType::StorageTexture {
                    access: StorageTextureAccess::ReadOnly,
                    format,
                },
                BindAccess::ReadSampled => BindingType::Texture { format },
                BindAccess::WriteOnly => BindingType::StorageTexture {
                    access: StorageTextureAccess::WriteOnly,
                    format,
                },
            },
            Resource::Sampler { .. } => BindingType::Sampler { comparison: false, filtering: true },
        }
    }

    pub fn binding_resource(&self) -> (r: ResourceId)
        ensures
            r == self.spec_id(),
    {
        match self {
            Resource::Buffer { id, .. } => *id,
            Resource::Texture { id, .. } => *id,
            Resource::Sampler { id } => *id,
        }
    }

    pub fn supports(&self, access: BindAccess) -> (r: bool)
        ensures
            r == self.spec_supports(access),
    {
        match self {
            Resource::Buffer { .. } => !matches!(access, BindAccess::ReadSampled),
            _ => true,
        }
    }

    /// The descriptor of this resource under `access`; `None` where the
    /// resource's kind does not support that access.
    pub fn binding_type(&self, access: BindAccess) -> (r: Option<BindingType>)
        ensures
            self.spec_supports(access) ==> r == Some(self.spec_binding_type(access)),
            !self.spec_supports(access) ==> r is None,
    {
        match self {
            Resource::Buffer { size, ty, .. } => {
                if matches!(access, BindAccess::ReadSampled) {
                    return None;
                }
                let bty = match ty {
                    BufferType::Uniform => BufferBindingType::Uniform,
                    BufferType::Storage => BufferBindingType::Storage {
                        read_only: !matches!(access, BindAccess::WriteOnly),
                    },
                };
                let min_binding_size = if *size == 0 {
                    None
                } else {
                    Some(*size)
                };
                Some(BindingType::Buffer { ty: bty, min_binding_size })
            },
            Resource::Texture { format, .. } => Some(
                match access {
                    BindAccess::ReadOnly => BindingType::StorageTexture {
                        access: StorageTextureAccess::ReadOnly,
                        format: *format,
                    },
                    BindAccess::ReadSampled => BindingType::Texture { format: *format },
                    BindAccess::WriteOnly => BindingType::StorageTexture {
                        access: StorageTextureAccess::WriteOnly,
                        format: *format,
                    },
                },
            ),
            Resource::Sampler { .. } => Some(
                BindingType::Sampler { comparison: false, filtering: true },
            ),
        }
    }
}

/// A value that can be bound to a pipeline slot.
pub trait Bindable {
    spec fn spec_resource(&self) -> Resource;

    fn resource(&self) -> (r: Resource)
        ensures
            r == self.spec_resource(),
    ;
}

// ---------------------------------------------------------------------

/// A linear GPU buffer of fixed size and usage.
#[derive(Clone, Copy, Debug, PartialEq, Eq, Structural)]
pub struct Buffer {
    id: ResourceId,
    size: u64,
    ty: BufferType,
}

impl Buffer {
    pub closed spec fn spec_id(self) -> ResourceId {
        self.id
    }

    pub closed spec fn spec_size(self) -> nat {
        self.size as nat
    }

    pub closed spec fn spec_ty(self) -> BufferType {
        self.ty
    }

    /// Creates a buffer of `size` bytes.
    pub fn new(rec: &mut Recorder, label: String, ty: BufferType, size: u64) -> (r: Buffer)
        requires
            old(rec).has_room(1),
        ensures
            r.spec_id().id == old(rec).spec_next_id(),
            r.spec_size() == size,
            r.spec_ty() == ty,
            final(rec).spec_next_id() == old(rec).spec_next_id() + 1,
            final(rec).extends(*old(rec)),
            final(rec).spec_ops() == old(rec).spec_ops().push(
                GpuOp::CreateBuffer { id: r.spec_id(), label, ty, size },
            ),
    {
        let id = rec.fresh_id();
        rec.push(GpuOp::CreateBuffer { id, label, ty, size });
        Buffer { id, size, ty }
    }

    /// Creates a buffer that holds `contents`, 32-bit words.
    pub fn new_init(rec: &mut Recorder, label: String, ty: BufferType, contents: Vec<u32>) -> (r:
        Buffer)
        requires
            old(rec).has_room(1),
            4 * contents@.len() <= u64::MAX,
        ensures
            r.spec_id().id == old(rec).spec_next_id(),
            r.spec_size() == 4 * contents@.len(),
            r.spec_ty() == ty,
            final(rec).spec_next_id() == old(rec).spec_next_id() + 1,
            final(rec).extends(*old(rec)),
            final(rec).spec_ops() == old(rec).spec_ops().push(
                GpuOp::CreateBufferInit { id: r.spec_id(), label, ty, contents },
            ),
    {
        let id = rec.fresh_id();
        let size = 4 * contents.len() as u64;
        rec.push(GpuOp::CreateBufferInit { id, label, ty, contents });
        Buffer { id, size, ty }
    }

    pub fn id(&self) -> (r: ResourceId)
        ensures
            r == self.spec_id(),
    {
        self.id
    }

    pub fn size(&self) -> (r: u64)
        ensures
            r == self.spec_size(),
    {
        self.size
    }

    pub fn ty(&self) -> (r: BufferType)
        ensures
            r == self.spec_ty(),
    {
        self.ty
    }
}

impl Bindable for Buffer {
    open spec fn spec_resource(&self) -> Resource {
        Resource::Buffer { id: self.spec_id(), size: self.spec_size() as u64, ty: self.spec_ty() }
    }

    fn resource(&self) -> (r: Resource) {
        Resource::Buffer { id: self.id, size: self.size, ty: self.ty }
    }
}

// ---------------------------------------------------------------------

/// An element type of a grid buffer, held on the device as 32-bit words.
pub trait GridElement: Sized {
    /// The number of 32-bit words of one element.
    spec fn spec_words() -> nat;

    /// The words of one element, in device order.
    spec fn spec_to_words(self) -> Seq<u32>;

    proof fn lemma_words_range()
        ensures
            1 <= Self::spec_words() <= 4,
    ;

    proof fn lemma_to_words_len(self)
        ensures
            self.spec_to_words().len() == Self::spec_words(),
    ;

    fn words() -> (r: usize)
        ensures
            r == Self::spec_words(),
    ;

    fn append_words(&self, out: &mut Vec<u32>)
        ensures
            final(out)@ == old(out)@ + self.spec_to_words(),
    ;
}

/// One cell of the simulation grid: the bits of a 32-bit IEEE floating-point
/// value, which the shaders read as a float.
#[derive(Clone, Copy, Debug, PartialEq, Eq, Structural)]
pub struct Cell {
    pub bits: u32,
}

impl GridElement for Cell {
    open spec fn spec_words() -> nat {
        1
    }

    open spec fn spec_to_words(self) -> Seq<u32> {
        seq![self.bits]
    }

    proof fn lemma_words_range() {
    }

    proof fn lemma_to_words_len(self) {
    }

    fn words() -> (r: usize) {
        1
    }

    fn append_words(&self, out: &mut Vec<u32>) {
        out.push(self.bits);
    }
}

impl GridElement for [u32; 4] {
    open spec fn spec_words() -> nat {
        4
    }

    open spec fn spec_to_words(self) -> Seq<u32> {
        self@
    }

    proof fn lemma_words_range() {
    }

    proof fn lemma_to_words_len(self) {
    }

    fn words() -> (r: usize) {
        4
    }

    fn append_words(&self, out: &mut Vec<u32>) {
        out.push(self[0]);
        out.push(self[1]);
        out.push(self[2]);
        out.push(self[3]);
        assert(old(out)@ + self@ =~= out@);
    }
}

/// The words of a sequence of elements, one element after another.
pub open spec fn words_of<T: GridElement>(s: Seq<T>) -> Seq<u32>
    decreases s.len(),
{
    if s.len() == 0 {
        Seq::empty()
    } else {
        words_of(s.drop_last()) + s.last().spec_to_words()
    }
}

pub proof fn lemma_words_of_len<T: GridElement>(s: Seq<T>)
    requires
        forall|i: int| 0 <= i < s.len() ==> (#[trigger] s[i]).spec_to_words().len()
            == T::spec_words(),
    ensures
        words_of(s).len() == s.len() * T::spec_words(),
    decreases s.len(),
{
    if s.len() > 0 {
        assert(s.drop_last().len() == s.len() - 1);
        assert forall|i: int| 0 <= i < s.drop_last().len() implies (
        #[trigger] s.drop_last()[i]).spec_to_words().len() == T::spec_words() by {
            assert(s.drop_last()[i] == s[i]);
        }
        lemma_words_of_len(s.drop_last());
        assert(s.last() == s[s.len() - 1]);
        vstd::arithmetic::mul::lemma_mul_is_distributive_sub_other_way(
            T::spec_words() as int, s.len() as int, 1);
    }
}

proof fn lemma_all_words_len<T: GridElement>(s: Seq<T>)
    ensures
        forall|i: int| 0 <= i < s.len() ==> (#[trigger] s[i]).spec_to_words().len()
            == T::spec_words(),
{
    assert forall|i: int| 0 <= i < s.len() implies (#[trigger] s[i]).spec_to_words().len()
        == T::spec_words() by {
        s[i].lemma_to_words_len();
    }
}

/// Why a grid operation was refused before any GPU work.
#[derive(Clone, Copy, Debug, PartialEq, Eq, Structural)]
pub enum GridError {
    /// Host data whose length is not the grid's number of cells.
    LengthMismatch { expected: usize, found: usize },
    /// A same-size copy between grids of different dimensions.
    DimensionMismatch { target: Dimensions, source: Dimensions },
}

/// The dimensions fit a grid of `T`: its size in bytes fits a `usize`.
pub open spec fn grid_fits<T: GridElement>(dim: Dimensions) -> bool {
    4 * dim.spec_area() * T::spec_words() <= usize::MAX
}

pub proof fn lemma_grid_fits_area<T: GridElement>(dim: Dimensions)
    requires
        grid_fits::<T>(dim),
    ensures
        dim.spec_area() <= usize::MAX,
{
    T::lemma_words_range();
    assert(4 * dim.spec_area() * T::spec_words() >= dim.spec_area()) by (nonlinear_arith)
        requires
            T::spec_words() >= 1,
    ;
}

/// A buffer holding a width-by-height array of `T`.
pub struct Buffer2D<T> {
    buf: Buffer,
    dim: Dimensions,
    label: String,
    _phantom: PhantomData<T>,
}

impl<T: GridElement> Buffer2D<T> {
    pub closed spec fn spec_buf(&self) -> Buffer {
        self.buf
    }

    pub closed spec fn spec_dim(&self) -> Dimensions {
        self.dim
    }

    pub closed spec fn spec_label(&self) -> Seq<char> {
        self.label@
    }

    /// The size in bytes of a grid of `T` with dimensions `dim`.
    pub open spec fn spec_byte_size(dim: Dimensions) -> nat {
        4 * dim.spec_area() * T::spec_words()
    }

    /// The buffer holds exactly the bytes of a grid of these dimensions.
    pub open spec fn wf(&self) -> bool {
        &&& self.spec_buf().spec_size() == Self::spec_byte_size(self.spec_dim())
        &&& grid_fits::<T>(self.spec_dim())
    }

    fn byte_size(dim: Dimensions) -> (r: u64)
        requires
            grid_fits::<T>(dim),
        ensures
            r == Self::spec_byte_size(dim),
    {
        let w = T::words();
        proof {
            T::lemma_words_range();
        }
        assert(dim.spec_area() <= usize::MAX) by (nonlinear_arith)
            requires
                4 * dim.spec_area() * w <= usize::MAX,
                1 <= w,
        ;
        let area = dim.area();
        assert(4 * area <= 4 * area * w) by (nonlinear_arith)
            requires
                1 <= w,
        ;
        (4 * area * w) as u64
    }

    /// Creates an uninitialised storage grid of dimensions `dim`.
    pub fn new(rec: &mut Recorder, label: String, dim: Dimensions) -> (r: Self)
        requires
            old(rec).has_room(1),
            grid_fits::<T>(dim),
        ensures
            r.wf(),
            r.spec_dim() == dim,
            r.spec_label() == label@,
            r.spec_buf().spec_ty() == BufferType::Storage,
            r.spec_buf().spec_id().id == old(rec).spec_next_id(),
            final(rec).spec_next_id() == old(rec).spec_next_id() + 1,
            final(rec).extends(*old(rec)),
            final(rec).spec_ops() == old(rec).spec_ops().push(
                GpuOp::CreateBuffer {
                    id: r.spec_buf().spec_id(),
                    label,
                    ty: BufferType::Storage,
                    size: Self::spec_byte_size(dim) as u64,
                },
            ),
    {
        let size = Self::byte_size(dim);
        let buf = Buffer::new(rec, label.clone(), BufferType::Storage, size);
        Buffer2D { buf, dim, label, _phantom: PhantomData }
    }

    fn words_vec(data: &Vec<T>) -> (r: Vec<u32>)
        ensures
            r@ == words_of(data@),
    {
        let mut out: Vec<u32> = Vec::new();
        let mut i: usize = 0;
        while i < data.len()
            invariant
                i <= data@.len(),
                out@ == words_of(data@.take(i as int)),
            decreases data@.len() - i,
        {
            data[i].append_words(&mut out);
            proof {
                let t = data@.take(i as int + 1);
                assert(t.drop_last() =~= data@.take(i as int));
                assert(t.last() == data@[i as int]);
            }
            i = i + 1;
        }
        assert(data@.take(data@.len() as int) =~= data@);
        out
    }

    /// `g` is a new grid of `dim` and usage `ty` holding `contents`, the
    /// one buffer created between `before` and `after`.
    pub open spec fn created_init(
        g: Self,
        before: Recorder,
        after: Recorder,
        label: Seq<char>,
        ty: BufferType,
        dim: Dimensions,
        contents: Seq<T>,
    ) -> bool {
        &&& g.wf()
        &&& g.spec_dim() == dim
        &&& g.spec_label() == label
        &&& g.spec_buf().spec_ty() == ty
        &&& g.spec_buf().spec_id().id == before.spec_next_id()
        &&& after.spec_next_id() == before.spec_next_id() + 1
        &&& after.spec_ops() == before.spec_ops().push(after.spec_ops().last())
        &&& after.spec_ops().last().is_create_init(
            g.spec_buf().spec_id(),
            label,
            ty,
            words_of(contents),
        )
    }

    /// Creates a grid buffer of usage `ty` holding `contents`, one element per
    /// cell in row-major order. Fails, recording nothing, where `contents` does
    /// not hold one element per cell.
    pub fn new_init(
        rec: &mut Recorder,
        label: String,
        ty: BufferType,
        dim: Dimensions,
        contents: &Vec<T>,
    ) -> (r: Result<Self, GridError>)
        requires
            old(rec).has_room(1),
            grid_fits::<T>(dim),
        ensures
            contents@.len() == dim.spec_area() <==> r is Ok,
            final(rec).extends(*old(rec)),
            r matches Err(e) ==> *final(rec) == *old(rec) && e == (GridError::LengthMismatch {
                expected: dim.spec_area() as usize,
                found: contents.len(),
            }),
            r matches Ok(g) ==> Self::created_init(
                g,
                *old(rec),
                *final(rec),
                label@,
                ty,
                dim,
                contents@,
            ),
    {
        proof {
            lemma_grid_fits_area::<T>(dim);
            Recorder::lemma_extends_refl(*old(rec));
        }
        let area = dim.area();
        if contents.len() != area {
            return Err(GridError::LengthMismatch { expected: area, found: contents.len() });
        }
        let words = Self::words_vec(contents);
        proof {
            T::lemma_words_range();
            lemma_all_words_len(contents@);
            lemma_words_of_len(contents@);
            assert(4 * (area * T::spec_words()) == 4 * area * T::spec_words()) by (nonlinear_arith);
            assert(usize::MAX <= u64::MAX);
        }
        let buf = Buffer::new_init(rec, label.clone(), ty, words);
        Ok(Buffer2D { buf, dim, label, _phantom: PhantomData })
    }

    /// The copy of all of `src` into this grid, as an operation.
    pub open spec fn spec_copy_op(&self, src: Buffer2D<T>) -> GpuOp {
        GpuOp::CopyBuffer {
            src: src.spec_buf().spec_id(),
            dst: self.spec_buf().spec_id(),
            size: self.spec_buf().spec_size() as u64,
        }
    }

    /// Records a device-side copy of `src` into this grid. Fails, recording
    /// nothing, where the dimensions differ.
    pub fn copyin_buf(&self, rec: &mut Recorder, src: &Buffer2D<T>) -> (r: Result<(), GridError>)
        requires
            self.wf(),
        ensures
            r is Ok <==> src.spec_dim() == self.spec_dim(),
            r matches Err(e) ==> *final(rec) == *old(rec) && e == (GridError::DimensionMismatch {
                target: self.spec_dim(),
                source: src.spec_dim(),
            }),
            r is Ok ==> final(rec).one_more_op(*old(rec)) && final(rec).spec_ops().last()
                == self.spec_copy_op(*src),
    {
        if src.dim != self.dim {
            return Err(GridError::DimensionMismatch { target: self.dim, source: src.dim });
        }
        rec.push(GpuOp::CopyBuffer { src: src.buf.id(), dst: self.buf.id(), size: self.buf.size() });
        Ok(())
    }

    /// Records a write of host `data`, one element per cell in row-major
    /// order, into this grid. Fails, recording nothing, where `data` does not
    /// hold one element per cell.
    pub fn copyin_vec(&self, rec: &mut Recorder, data: &Vec<T>) -> (r: Result<(), GridError>)
        requires
            self.wf(),
        ensures
            r is Ok <==> data@.len() == self.spec_dim().spec_area(),
            r matches Err(e) ==> *final(rec) == *old(rec) && e == (GridError::LengthMismatch {
                expected: self.spec_dim().spec_area() as usize,
                found: data.len(),
            }),
            r is Ok ==> final(rec).one_more_op(*old(rec)) && final(rec).spec_ops().last().is_write(
                self.spec_buf().spec_id(),
                words_of(data@),
            ),
    {
        proof {
            lemma_grid_fits_area::<T>(self.dim);
        }
        let area = self.dim.area();
        if data.len() != area {
            return Err(GridError::LengthMismatch { expected: area, found: data.len() });
        }
        let words = Self::words_vec(data);
        rec.push(GpuOp::WriteBuffer { id: self.buf.id(), words });
        Ok(())
    }

    pub fn buf(&self) -> (r: &Buffer)
        ensures
            *r == self.spec_buf(),
    {
        &self.buf
    }

    pub fn dim(&self) -> (r: Dimensions)
        ensures
            r == self.spec_dim(),
    {
        self.dim
    }

    pub fn label(&self) -> (r: &String)
        ensures
            r@ == self.spec_label(),
    {
        &self.label
    }
}

impl<T: GridElement> Bindable for Buffer2D<T> {
    open spec fn spec_resource(&self) -> Resource {
        self.spec_buf().spec_resource()
    }

    fn resource(&self) -> (r: Resource) {
        self.buf.resource()
    }
}

// ---------------------------------------------------------------------

/// A two-dimensional image.
#[derive(Clone, Copy, Debug, PartialEq, Eq, Structural)]
pub struct Texture {
    id: ResourceId,
    dim: Dimensions,
    format: TextureFormat,
}

impl Texture {
    pub closed spec fn spec_id(self) -> ResourceId {
        self.id
    }

    pub closed spec fn spec_dim(self) -> Dimensions {
        self.dim
    }

    pub closed spec fn spec_format(self) -> TextureFormat {
        self.format
    }

    pub fn new(rec: &mut Recorder, dim: Dimensions, format: TextureFormat) -> (r: Texture)
        requires
            old(rec).has_room(1),
        ensures
            r.spec_id().id == old(rec).spec_next_id(),
            r.spec_dim() == dim,
            r.spec_format() == format,
            final(rec).spec_next_id() == old(rec).spec_next_id() + 1,
            final(rec).extends(*old(rec)),
            final(rec).spec_ops() == old(rec).spec_ops().push(
                GpuOp::CreateTexture { id: r.spec_id(), dim, format },
            ),
    {
        let id = rec.fresh_id();
        rec.push(GpuOp::CreateTexture { id, dim, format });
        Texture { id, dim, format }
    }

    pub fn dim(&self) -> (r: Dimensions)
        ensures
            r == self.spec_dim(),
    {
        self.dim
    }

    pub fn id(&self) -> (r: ResourceId)
        ensures
            r == self.spec_id(),
    {
        self.id
    }
}

impl Bindable for Texture {
    open spec fn spec_resource(&self) -> Resource {
        Resource::Texture { id: self.spec_id(), format: self.spec_format() }
    }

    fn resource(&self) -> (r: Resource) {
        Resource::Texture { id: self.id, format: self.format }
    }
}

/// A filtering sampler for images.
#[derive(Clone, Copy, Debug, PartialEq, Eq, Structural)]
pub struct Sampler {
    id: ResourceId,
}

impl Sampler {
    pub closed spec fn spec_id(self) -> ResourceId {
        self.id
    }

    pub fn new(rec: &mut Recorder, address_mode: AddressMode, filter_mode: FilterMode) -> (r:
        Sampler)
        requires
            old(rec).has_room(1),
        ensures
            r.spec_id().id == old(rec).spec_next_id(),
            final(rec).spec_next_id() == old(rec).spec_next_id() + 1,
            final(rec).extends(*old(rec)),
            final(rec).spec_ops() == old(rec).spec_ops().push(
                GpuOp::CreateSampler { id: r.spec_id(), address_mode, filter_mode },
            ),
    {
        let id = rec.fresh_id();
        rec.push(GpuOp::CreateSampler { id, address_mode, filter_mode });
        Sampler { id }
    }

    pub fn id(&self) -> (r: ResourceId)
        ensures
            r == self.spec_id(),
    {
        self.id
    }
}

impl Bindable for Sampler {
    open spec fn spec_resource(&self) -> Resource {
        Resource::Sampler { id: self.spec_id() }
    }

    fn resource(&self) -> (r: Resource) {
        Resource::Sampler { id: self.id }
    }
}

// ---------------------------------------------------------------------

/// Every resource of `args` supports the access it is bound with.
pub open spec fn all_supported(args: Seq<(BindAccess, Resource)>) -> bool {
    forall|i: int| 0 <= i < args.len() ==> (#[trigger] args[i]).1.spec_supports(args[i].0)
}

/// The layout of a binding list: slot `i` gets the descriptor of `args[i]`.
pub open spec fn layout_of(args: Seq<(BindAccess, Resource)>) -> Seq<BindingType> {
    Seq::new(args.len(), |i: int| args[i].1.spec_binding_type(args[i].0))
}

/// The resources of a binding list, slot by slot.
pub open spec fn ids_of(args: Seq<(BindAccess, Resource)>) -> Seq<ResourceId> {
    Seq::new(args.len(), |i: int| args[i].1.spec_id())
}

/// `slot` is the first slot of `args` whose access its resource does not support.
pub open spec fn first_unsupported(args: Seq<(BindAccess, Resource)>, slot: int) -> bool {
    &&& 0 <= slot < args.len()
    &&& !args[slot].1.spec_supports(args[slot].0)
    &&& all_supported(args.take(slot))
}

/// The error for a list with an unsupported slot.
pub open spec fn unsupported_error(args: Seq<(BindAccess, Resource)>, e: BindError) -> bool {
    match e {
        BindError::UnsupportedAccess { slot, access } => first_unsupported(args, slot as int)
            && access == args[slot as int].0,
        _ => false,
    }
}

/// `args` taken in the order `order`: entry `i` is `args[order[i]]`.
pub open spec fn reordered<A>(args: Seq<A>, order: Seq<int>) -> Seq<A> {
    Seq::new(order.len(), |i: int| args[order[i]])
}

/// Slot `i` of a binding list holds the `i`-th resource, described under its
/// access, for every slot from 0 to the list's length; taking the list in
/// another order takes the slots in that same order.
pub proof fn lemma_binding_order(args: Seq<(BindAccess, Resource)>, order: Seq<int>)
    requires
        forall|i: int| 0 <= i < order.len() ==> 0 <= #[trigger] order[i] < args.len(),
    ensures
        ids_of(args).len() == args.len(),
        layout_of(args).len() == args.len(),
        forall|i: int|
            0 <= i < args.len() ==> #[trigger] ids_of(args)[i] == args[i].1.spec_id()
                && layout_of(args)[i] == args[i].1.spec_binding_type(args[i].0),
        ids_of(reordered(args, order)) == reordered(ids_of(args), order),
        layout_of(reordered(args, order)) == reordered(layout_of(args), order),
{
    assert(ids_of(reordered(args, order)) =~= reordered(ids_of(args), order));
    assert(layout_of(reordered(args, order)) =~= reordered(layout_of(args), order));
}

/// A compute pipeline and the binding layout it was compiled against.
#[derive(Clone, Copy, Debug, PartialEq, Eq, Structural)]
pub struct ComputePipeline {
    pub id: ResourceId,
    pub layout: ResourceId,
}

/// A binding set: slot `i` holds `resources[i]`. Immutable once built.
#[derive(Clone, Debug)]
pub struct BindingSet {
    id: ResourceId,
    layout: ResourceId,
    resources: Vec<ResourceId>,
}

impl BindingSet {
    pub closed spec fn spec_id(&self) -> ResourceId {
        self.id
    }

    pub closed spec fn spec_layout(&self) -> ResourceId {
        self.layout
    }

    pub closed spec fn spec_resources(&self) -> Seq<ResourceId> {
        self.resources@
    }

    pub fn id(&self) -> (r: ResourceId)
        ensures
            r == self.spec_id(),
    {
        self.id
    }

    pub fn layout(&self) -> (r: ResourceId)
        ensures
            r == self.spec_layout(),
    {
        self.layout
    }

    /// The number of slots.
    pub fn len(&self) -> (r: usize)
        ensures
            r == self.spec_resources().len(),
    {
        self.resources.len()
    }

    /// The resource bound at `slot`.
    pub fn resource(&self, slot: usize) -> (r: ResourceId)
        requires
            slot < self.spec_resources().len(),
        ensures
            r == self.spec_resources()[slot as int],
    {
        self.resources[slot]
    }
}

/// Builds binding layouts, binding sets and the pipelines that use them.
pub struct Binder {}

impl Binder {
    /// The layout entries of `args`, or the first slot whose access is unsupported.
    fn layout_entries(args: &Vec<(BindAccess, Resource)>) -> (r: Result<
        Vec<BindingType>,
        BindError,
    >)
        ensures
            r is Ok <==> all_supported(args@),
            r matches Ok(v) ==> v@ == layout_of(args@),
            r matches Err(e) ==> unsupported_error(args@, e),
    {
        let mut out: Vec<BindingType> = Vec::new();
        let mut i: usize = 0;
        while i < args.len()
            invariant
                i <= args@.len(),
                all_supported(args@.take(i as int)),
                out@ == layout_of(args@.take(i as int)),
            decreases args@.len() - i,
        {
            let (access, res) = args[i];
            match res.binding_type(access) {
                Some(t) => {
                    out.push(t);
                    assert(out@ =~= layout_of(args@.take(i as int + 1)));
                    assert(all_supported(args@.take(i as int + 1))) by {
                        assert forall|j: int| 0 <= j < i + 1 implies (#[trigger] args@.take(
                            i as int + 1,
                        )[j]).1.spec_supports(args@.take(i as int + 1)[j].0) by {
                            if j < i {
                                assert(args@.take(i as int + 1)[j] == args@.take(i as int)[j]);
                            }
                        }
                    }
                },
                None => {
                    return Err(BindError::UnsupportedAccess { slot: i, access });
                },
            }
            i = i + 1;
        }
        assert(args@.take(args@.len() as int) =~= args@);
        Ok(out)
    }

    /// The resources of `args`, slot by slot.
    fn resource_ids(args: &Vec<(BindAccess, Resource)>) -> (r: Vec<ResourceId>)
        ensures
            r@ == ids_of(args@),
    {
        let mut out: Vec<ResourceId> = Vec::new();
        let mut i: usize = 0;
        while i < args.len()
            invariant
                i <= args@.len(),
                out@ == ids_of(args@.take(i as int)),
            decreases args@.len() - i,
        {
            out.push(args[i].1.binding_resource());
            assert(out@ =~= ids_of(args@.take(i as int + 1)));
            i = i + 1;
        }
        assert(args@.take(args@.len() as int) =~= args@);
        out
    }

    /// `s` is the binding set of `args` over `layout`, built as the last
    /// operation of `after` under the next identifier of `before`.
    pub open spec fn set_built(
        s: BindingSet,
        layout: ResourceId,
        args: Seq<(BindAccess, Resource)>,
        before: Recorder,
        after: Recorder,
    ) -> bool {
        &&& s.spec_id().id == before.spec_next_id()
        &&& s.spec_layout() == layout
        &&& s.spec_resources() == ids_of(args)
        &&& after.spec_next_id() == before.spec_next_id() + 1
        &&& after.spec_ops() == before.spec_ops().push(after.spec_ops().last())
        &&& after.spec_ops().last().is_bind_set(s.spec_id(), layout, ids_of(args))
    }

    /// Records a binding set of `args` over an existing `layout`.
    fn build_set(rec: &mut Recorder, layout: ResourceId, args: &Vec<(BindAccess, Resource)>) -> (r:
        BindingSet)
        requires
            old(rec).has_room(1),
        ensures
            Self::set_built(r, layout, args@, *old(rec), *final(rec)),
    {
        let id = rec.fresh_id();
        let resources = Self::resource_ids(args);
        let kept = Self::resource_ids(args);
        rec.push(GpuOp::CreateBindSet { id, layout, resources });
        BindingSet { id, layout, resources: kept }
    }

    /// `layout` is the layout of `args` for `stage` and `set` the binding set
    /// of `args` over it: identifiers `next` and `next + 1`, recorded just
    /// after the operations `before`, as a prefix of `after`.
    pub open spec fn bound(
        layout: ResourceId,
        set: BindingSet,
        stage: ShaderStage,
        args: Seq<(BindAccess, Resource)>,
        before: Seq<GpuOp>,
        next: nat,
        after: Seq<GpuOp>,
    ) -> bool {
        let n = before.len();
        &&& layout.id == next
        &&& set.spec_id().id == next + 1
        &&& set.spec_layout() == layout
        &&& set.spec_resources() == ids_of(args)
        &&& after.len() >= n + 2
        &&& after.take(n as int) == before
        &&& after[n as int].is_layout(layout, stage, layout_of(args))
        &&& after[n + 1int].is_bind_set(set.spec_id(), layout, ids_of(args))
    }

    /// Records a binding layout for `stage` whose slot `i` takes `args[i]`,
    /// and the binding set of `args` over it. Fails, recording nothing, where
    /// a resource does not support the access it is bound with.
    pub fn bind_set(rec: &mut Recorder, stage: ShaderStage, args: &Vec<(BindAccess, Resource)>) -> (r:
        Result<(ResourceId, BindingSet), BindError>)
        requires
            old(rec).has_room(2),
        ensures
            r is Ok <==> all_supported(args@),
            final(rec).extends(*old(rec)),
            r matches Err(e) ==> unsupported_error(args@, e) && *final(rec) == *old(rec),
            r matches Ok(p) ==> Self::bound(
                p.0,
                p.1,
                stage,
                args@,
                old(rec).spec_ops(),
                old(rec).spec_next_id(),
                final(rec).spec_ops(),
            ),
            r is Ok ==> final(rec).spec_ops().len() == old(rec).spec_ops().len() + 2
                && final(rec).spec_next_id() == old(rec).spec_next_id() + 2,
    {
        proof {
            Recorder::lemma_extends_refl(*old(rec));
        }
        let entries = match Self::layout_entries(args) {
            Ok(v) => v,
            Err(e) => {
                return Err(e);
            },
        };
        let layout = rec.fresh_id();
        rec.push(GpuOp::CreateBindLayout { id: layout, stage, entries });
        let ghost mid = *rec;
        let set = Self::build_set(rec, layout, args);
        assert(rec.spec_ops().take(old(rec).spec_ops().len() as int) =~= old(rec).spec_ops());
        assert(rec.spec_ops()[old(rec).spec_ops().len() as int] == mid.spec_ops().last());
        Ok((layout, set))
    }

    /// Records a compute pipeline running `entry_point` of `shader`, its
    /// binding layout built from `args` in order (slot `i` takes `args[i]`),
    /// and the binding set of `args`. Fails, recording nothing, where a
    /// resource does not support the access it is bound with.
    pub fn bind_up(
        rec: &mut Recorder,
        shader: ResourceId,
        entry_point: String,
        args: &Vec<(BindAccess, Resource)>,
    ) -> (r: Result<(ComputePipeline, BindingSet), BindError>)
        requires
            old(rec).has_room(3),
        ensures
            r is Ok <==> all_supported(args@),
            final(rec).extends(*old(rec)),
            r matches Err(e) ==> unsupported_error(args@, e) && *final(rec) == *old(rec),
            r matches Ok(p) ==> Self::compute_bound(p.0, p.1, shader, entry_point@, args@, *old(rec), *final(rec)),
    {
        let (layout, set) = match Self::bind_set(rec, ShaderStage::Compute, args) {
            Ok(p) => p,
            Err(e) => {
                return Err(e);
            },
        };
        let ghost mid = *rec;
        let id = rec.fresh_id();
        rec.push(GpuOp::CreateComputePipeline { id, layout, shader, entry_point });
        let pipeline = ComputePipeline { id, layout };
        proof {
            let n = old(rec).spec_ops().len();
            assert(rec.spec_ops().take(n as int) =~= mid.spec_ops().take(n as int));
        }
        Ok((pipeline, set))
    }

    /// `p` runs `entry_point` of `shader` with the binding layout of `args`,
    /// and `set` binds `args` over it: the layout, the set and the pipeline
    /// are the three operations recorded between `before` and `after`.
    pub open spec fn compute_bound(
        p: ComputePipeline,
        set: BindingSet,
        shader: ResourceId,
        entry_point: Seq<char>,
        args: Seq<(BindAccess, Resource)>,
        before: Recorder,
        after: Recorder,
    ) -> bool {
        let n = before.spec_ops().len();
        &&& Self::bound(
            p.layout,
            set,
            ShaderStage::Compute,
            args,
            before.spec_ops(),
            before.spec_next_id(),
            after.spec_ops(),
        )
        &&& p.id.id == before.spec_next_id() + 2
        &&& after.spec_next_id() == before.spec_next_id() + 3
        &&& after.spec_ops().len() == n + 3
        &&& after.spec_ops()[n + 2int].is_pipeline(p.id, p.layout, shader, entry_point)
    }

    fn same_layout(a: &Vec<BindingType>, b: &Vec<BindingType>) -> (r: bool)
        ensures
            r == (a@ == b@),
    {
        if a.len() != b.len() {
            return false;
        }
        let mut i: usize = 0;
        while i < a.len()
            invariant
                a@.len() == b@.len(),
                i <= a@.len(),
                forall|j: int| 0 <= j < i ==> a@[j] == b@[j],
            decreases a@.len() - i,
        {
            if a[i] != b[i] {
                return false;
            }
            i = i + 1;
        }
        assert(a@ =~= b@);
        true
    }

    /// `p` runs `entry_point` of `shader` with one layout, built from the
    /// forward list `fwd`, and `sets` holds for each phase the binding set
    /// of that phase's list: layout, forward set, backward set and pipeline
    /// are the four operations recorded between `before` and `after`.
    pub open spec fn phased_bound(
        p: ComputePipeline,
        sets: RenderMotion<BindingSet>,
        shader: ResourceId,
        entry_point: Seq<char>,
        fwd: Seq<(BindAccess, Resource)>,
        bwd: Seq<(BindAccess, Resource)>,
        before: Recorder,
        after: Recorder,
    ) -> bool {
        let n = before.spec_ops().len();
        let next = before.spec_next_id();
        let f = sets.spec_get(RenderDir::Forward);
        let b = sets.spec_get(RenderDir::Backward);
        &&& Self::bound(
            p.layout,
            f,
            ShaderStage::Compute,
            fwd,
            before.spec_ops(),
            next,
            after.spec_ops(),
        )
        &&& b.spec_id().id == next + 2
        &&& b.spec_layout() == p.layout
        &&& b.spec_resources() == ids_of(bwd)
        &&& after.spec_ops()[n + 2int].is_bind_set(b.spec_id(), p.layout, ids_of(bwd))
        &&& p.id.id == next + 3
        &&& after.spec_ops()[n + 3int].is_pipeline(p.id, p.layout, shader, entry_point)
        &&& after.spec_ops().len() == n + 4
        &&& after.spec_next_id() == next + 4
    }

    /// Records one compute pipeline running `entry_point` of `shader` and a
    /// binding set for each phase, from the list of that phase in `args`.
    /// The layout comes from the forward list. Fails, recording nothing,
    /// where a resource does not support its access (forward list first),
    /// or where the two lists give different layouts.
    pub fn bind_up_dir(
        rec: &mut Recorder,
        shader: ResourceId,
        entry_point: String,
        args: &RenderMotion<Vec<(BindAccess, Resource)>>,
    ) -> (r: Result<(ComputePipeline, RenderMotion<BindingSet>), BindError>)
        requires
            old(rec).has_room(4),
        ensures
            final(rec).extends(*old(rec)),
            ({
                let fwd = args.spec_get(RenderDir::Forward)@;
                let bwd = args.spec_get(RenderDir::Backward)@;
                &&& r is Ok <==> all_supported(fwd) && all_supported(bwd) && layout_of(fwd)
                    == layout_of(bwd)
                &&& r is Err ==> *final(rec) == *old(rec)
                &&& r matches Err(e) ==> if !all_supported(fwd) {
                    unsupported_error(fwd, e)
                } else if !all_supported(bwd) {
                    unsupported_error(bwd, e)
                } else {
                    e == BindError::PhaseLayoutMismatch
                }
                &&& r matches Ok(p) ==> Self::phased_bound(
                    p.0,
                    p.1,
                    shader,
                    entry_point@,
                    fwd,
                    bwd,
                    *old(rec),
                    *final(rec),
                )
            }),
    {
        proof {
            Recorder::lemma_extends_refl(*old(rec));
        }
        let fwd = args.get(RenderDir::Forward);
        let bwd = args.get(RenderDir::Backward);
        let entries = match Self::layout_entries(fwd) {
            Ok(v) => v,
            Err(e) => {
                return Err(e);
            },
        };
        let bwd_entries = match Self::layout_entries(bwd) {
            Ok(v) => v,
            Err(e) => {
                return Err(e);
            },
        };
        if !Self::same_layout(&entries, &bwd_entries) {
            return Err(BindError::PhaseLayoutMismatch);
        }
        let layout = rec.fresh_id();
        rec.push(GpuOp::CreateBindLayout { id: layout, stage: ShaderStage::Compute, entries });
        let ghost r1 = *rec;
        let fset = Self::build_set(rec, layout, fwd);
        let ghost r2 = *rec;
        let bset = Self::build_set(rec, layout, bwd);
        let ghost r3 = *rec;
        let id = rec.fresh_id();
        rec.push(GpuOp::CreateComputePipeline { id, layout, shader, entry_point });
        proof {
            let n = old(rec).spec_ops().len();
            assert(rec.spec_ops().take(n as int) =~= old(rec).spec_ops());
            assert(rec.spec_ops()[n as int] == r1.spec_ops()[n as int]);
            assert(rec.spec_ops()[n + 1int] == r2.spec_ops()[n + 1int]);
            assert(rec.spec_ops()[n + 2int] == r3.spec_ops()[n + 2int]);
        }
        Ok((ComputePipeline { id, layout }, RenderMotion::from_pair(fset, bset)))
    }
}

} // verus!
