use vstd::prelude::*;

verus! {

/// The phase of the double-buffered grid: which of its two buffers is the
/// source of the next step.
#[derive(Clone, Copy, Debug, PartialEq, Eq, Structural)]
pub enum RenderDir {
    Forward,
    Backward,
}

impl RenderDir {
    /// The phase after `frame_num` steps: the parity of the step count.
    pub open spec fn spec_dir(frame_num: nat) -> RenderDir {
        if frame_num % 2 == 0 {
            RenderDir::Forward
        } else {
            RenderDir::Backward
        }
    }

    /// The phase as a number: 0 for `Forward`, 1 for `Backward`.
    pub open spec fn spec_index(self) -> nat {
        match self {
            RenderDir::Forward => 0,
            RenderDir::Backward => 1,
        }
    }

    pub open spec fn spec_other(self) -> RenderDir {
        match self {
            RenderDir::Forward => RenderDir::Backward,
            RenderDir::Backward => RenderDir::Forward,
        }
    }

    pub fn dir(frame_num: usize) -> (r: RenderDir)
        ensures
            r == Self::spec_dir(frame_num as nat),
            r.spec_index() == frame_num % 2,
    {
        if frame_num % 2 == 0 {
            RenderDir::Forward
        } else {
            RenderDir::Backward
        }
    }

    pub fn index(&self) -> (r: usize)
        ensures
            r == self.spec_index(),
    {
        match self {
            RenderDir::Forward => 0,
            RenderDir::Backward => 1,
        }
    }

    pub fn other(&self) -> (r: RenderDir)
        ensures
            r == self.spec_other(),
    {
        match self {
            RenderDir::Forward => RenderDir::Backward,
            RenderDir::Backward => RenderDir::Forward,
        }
    }
}

/// The phase after `n` steps is `n mod 2`, and each step flips it.
pub proof fn lemma_phase_parity(n: nat)
    ensures
        RenderDir::spec_dir(n).spec_index() == n % 2,
        RenderDir::spec_dir(n + 1) == RenderDir::spec_dir(n).spec_other(),
        RenderDir::spec_dir(n + 2) == RenderDir::spec_dir(n),
{
}

/// A value for each phase, built once by evaluating a mapping on both phases.
pub struct RenderMotion<T> {
    forward: T,
    backward: T,
}

impl<T> RenderMotion<T> {
    pub closed spec fn spec_get(&self, dir: RenderDir) -> T {
        match dir {
            RenderDir::Forward => self.forward,
            RenderDir::Backward => self.backward,
        }
    }

    /// Evaluates `f` once on each phase, `Forward` first, and keeps both results.
    pub fn new<F: Fn(RenderDir) -> T>(f: F) -> (r: Self)
        requires
            f.requires((RenderDir::Forward,)),
            f.requires((RenderDir::Backward,)),
        ensures
            f.ensures((RenderDir::Forward,), r.spec_get(RenderDir::Forward)),
            f.ensures((RenderDir::Backward,), r.spec_get(RenderDir::Backward)),
    {
        let forward = f(RenderDir::Forward);
        let backward = f(RenderDir::Backward);
        RenderMotion { forward, backward }
    }

    /// Holds the two given values, one for each phase.
    pub fn from_pair(forward: T, backward: T) -> (r: Self)
        ensures
            r.spec_get(RenderDir::Forward) == forward,
            r.spec_get(RenderDir::Backward) == backward,
    {
        RenderMotion { forward, backward }
    }

    pub fn get(&self, dir: RenderDir) -> (r: &T)
        ensures
            *r == self.spec_get(dir),
    {
        match dir {
            RenderDir::Forward => &self.forward,
            RenderDir::Backward => &self.backward,
        }
    }
}

/// The two buffers of a double-buffered grid: in phase `d` the buffer of `d`
/// is the source and the buffer of the other phase the destination.
pub struct RenderSources<T> {
    buffers: RenderMotion<T>,
}

impl<T> RenderSources<T> {
    pub closed spec fn spec_buffer(&self, dir: RenderDir) -> T {
        self.buffers.spec_get(dir)
    }

    pub open spec fn spec_src(&self, dir: RenderDir) -> T {
        self.spec_buffer(dir)
    }

    pub open spec fn spec_dst(&self, dir: RenderDir) -> T {
        self.spec_buffer(dir.spec_other())
    }

    pub fn new<F: Fn(RenderDir) -> T>(f: F) -> (r: Self)
        requires
            f.requires((RenderDir::Forward,)),
            f.requires((RenderDir::Backward,)),
        ensures
            f.ensures((RenderDir::Forward,), r.spec_buffer(RenderDir::Forward)),
            f.ensures((RenderDir::Backward,), r.spec_buffer(RenderDir::Backward)),
    {
        RenderSources { buffers: RenderMotion::new(f) }
    }

    pub fn from_pair(forward: T, backward: T) -> (r: Self)
        ensures
            r.spec_buffer(RenderDir::Forward) == forward,
            r.spec_buffer(RenderDir::Backward) == backward,
    {
        RenderSources { buffers: RenderMotion::from_pair(forward, backward) }
    }

    /// The buffer that holds the last completed state in phase `dir`.
    pub fn src(&self, dir: RenderDir) -> (r: &T)
        ensures
            *r == self.spec_src(dir),
    {
        self.buffers.get(dir)
    }

    /// The buffer that receives the next state in phase `dir`.
    pub fn dst(&self, dir: RenderDir) -> (r: &T)
        ensures
            *r == self.spec_dst(dir),
    {
        self.buffers.get(dir.other())
    }
}

} // verus!
