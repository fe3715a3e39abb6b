use vstd::prelude::*;

use crate::bindable::{grid_fits, Buffer2D, GridElement, GridError};
use crate::dimensions::Dimensions;
use crate::gpu::{GpuOp, Recorder};

verus! {

/// A grid buffer for looking at the state of another from the host. Reading
/// it back waits for all earlier GPU work, so it is for diagnostics only.
pub struct DebugBuffer<T> {
    buf: Buffer2D<T>,
}

impl<T: GridElement> DebugBuffer<T> {
    pub closed spec fn spec_buf(&self) -> Buffer2D<T> {
        self.buf
    }

    pub fn new(rec: &mut Recorder, dim: Dimensions) -> (r: Self)
        requires
            old(rec).has_room(1),
            grid_fits::<T>(dim),
        ensures
            r.spec_buf().wf(),
            r.spec_buf().spec_dim() == dim,
            r.spec_buf().spec_buf().spec_id().id == old(rec).spec_next_id(),
            final(rec).spec_next_id() == old(rec).spec_next_id() + 1,
            final(rec).extends(*old(rec)),
            final(rec).spec_ops().len() == old(rec).spec_ops().len() + 1,
            final(rec).spec_ops().take(old(rec).spec_ops().len() as int) == old(rec).spec_ops(),
    {
        let buf = Buffer2D::new(rec, "debug buffer".to_owned(), dim);
        proof {
            assert(rec.spec_ops().take(old(rec).spec_ops().len() as int) =~= old(rec).spec_ops());
        }
        DebugBuffer { buf }
    }

    pub fn buf(&self) -> (r: &Buffer2D<T>)
        ensures
            *r == self.spec_buf(),
    {
        &self.buf
    }

    /// Records a copy of `buf` into this debug buffer; what a later read-back
    /// shows depends on that copy having been submitted. Fails, recording
    /// nothing, where the dimensions differ.
    pub fn enqueue_copyin(&self, rec: &mut Recorder, buf: &Buffer2D<T>) -> (r: Result<
        (),
        GridError,
    >)
        requires
            self.spec_buf().wf(),
        ensures
            r is Ok <==> buf.spec_dim() == self.spec_buf().spec_dim(),
            r is Err ==> *final(rec) == *old(rec),
            r is Ok ==> final(rec).one_more_op(*old(rec)) && final(rec).spec_ops().last()
                == self.spec_buf().spec_copy_op(*buf),
    {
        self.buf.copyin_buf(rec, buf)
    }

    /// Records a blocking read-back of this debug buffer for display.
    pub fn display(&self, rec: &mut Recorder)
        ensures
            final(rec).spec_ops() == old(rec).spec_ops().push(
                GpuOp::ReadBack { id: self.spec_buf().spec_buf().spec_id() },
            ),
            final(rec).spec_next_id() == old(rec).spec_next_id(),
    {
        rec.push(GpuOp::ReadBack { id: self.buf.buf().id() });
    }

    /// Records a copy of `buf` into this debug buffer followed by its
    /// read-back. Fails, recording nothing, where the dimensions differ.
    pub fn copyin_and_display(&self, rec: &mut Recorder, buf: &Buffer2D<T>) -> (r: Result<
        (),
        GridError,
    >)
        requires
            self.spec_buf().wf(),
        ensures
            r is Ok <==> buf.spec_dim() == self.spec_buf().spec_dim(),
            r is Err ==> *final(rec) == *old(rec),
            r is Ok ==> final(rec).spec_ops() == old(rec).spec_ops().push(
                self.spec_buf().spec_copy_op(*buf),
            ).push(GpuOp::ReadBack { id: self.spec_buf().spec_buf().spec_id() }),
    {
        let r = self.enqueue_copyin(rec, buf);
        if r.is_err() {
            return r;
        }
        self.display(rec);
        Ok(())
    }
}

} // verus!
