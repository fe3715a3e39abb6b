use vstd::prelude::*;

use crate::bindable::GridError;
use crate::buffer_copy::{copy_params, spec_copy_params, CopyParams};
use crate::dimensions::Dimensions;

verus! {

/// The value that the copy kernel leaves at cell `(x, y)` of the new grid:
/// inside the overlap, the matching cell of the old grid `src`; outside it,
/// `fill`, what the new buffer held before.
pub open spec fn kernel_cell<T>(p: CopyParams, src: Seq<T>, fill: T, x: int, y: int) -> T {
    if p.ndx <= x < p.ndx + p.width && p.ndy <= y < p.ndy + p.height {
        src[(y - p.ndy + p.ody) * p.owidth + (x - p.ndx + p.odx)]
    } else {
        fill
    }
}

/// The cells, in row-major order, of a grid of dimensions `n` that starts
/// out all `fill` and receives the copy of an old grid `src` of dimensions `o`.
pub open spec fn resized<T>(src: Seq<T>, o: Dimensions, n: Dimensions, fill: T) -> Seq<T> {
    let p = spec_copy_params(o, n);
    Seq::new(
        n.spec_area(),
        |k: int| kernel_cell(p, src, fill, k % (n.width as int), k / (n.width as int)),
    )
}

/// The row-major position of cell `(x, y)` in a grid `w` cells wide.
pub open spec fn cell_index(w: nat, x: int, y: int) -> int {
    y * w + x
}

pub proof fn lemma_cell_index(w: nat, x: int, y: int)
    requires
        0 <= x < w,
        0 <= y,
    ensures
        cell_index(w, x, y) % (w as int) == x,
        cell_index(w, x, y) / (w as int) == y,
{
    vstd::arithmetic::div_mod::lemma_fundamental_div_mod_converse(
        cell_index(w, x, y),
        w as int,
        y,
        x,
    );
}

pub proof fn lemma_cell_index_bound(w: nat, h: nat, x: int, y: int)
    requires
        0 <= x < w,
        0 <= y < h,
    ensures
        0 <= cell_index(w, x, y) < w * h,
{
    assert(0 <= y * w + x < w * h) by (nonlinear_arith)
        requires
            0 <= x < w,
            0 <= y < h,
    ;
}

/// A grid of cells held on the host, in row-major order.
pub struct HostGrid<T> {
    dim: Dimensions,
    cells: Vec<T>,
}

impl<T: Copy> HostGrid<T> {
    pub closed spec fn spec_dim(&self) -> Dimensions {
        self.dim
    }

    pub closed spec fn spec_cells(&self) -> Seq<T> {
        self.cells@
    }

    /// One cell per position of the dimensions.
    pub open spec fn wf(&self) -> bool {
        self.spec_cells().len() == self.spec_dim().spec_area()
    }

    /// The cell in column `x` of row `y`.
    pub open spec fn spec_cell(&self, x: int, y: int) -> T {
        self.spec_cells()[cell_index(self.spec_dim().width as nat, x, y)]
    }

    /// A grid with every cell `v`.
    pub fn filled(dim: Dimensions, v: T) -> (r: Self)
        requires
            dim.spec_area() <= usize::MAX,
        ensures
            r.wf(),
            r.spec_dim() == dim,
            forall|k: int| 0 <= k < r.spec_cells().len() ==> r.spec_cells()[k] == v,
    {
        let n = dim.area();
        let mut cells: Vec<T> = Vec::new();
        let mut i: usize = 0;
        while i < n
            invariant
                i <= n,
                cells@.len() == i,
                forall|k: int| 0 <= k < i ==> cells@[k] == v,
            decreases n - i,
        {
            cells.push(v);
            i = i + 1;
        }
        HostGrid { dim, cells }
    }

    /// The grid of dimensions `dim` holding `cells` in row-major order; fails
    /// where `cells` does not hold one value per cell.
    pub fn from_cells(dim: Dimensions, cells: Vec<T>) -> (r: Result<Self, GridError>)
        requires
            dim.spec_area() <= usize::MAX,
        ensures
            r is Ok <==> cells@.len() == dim.spec_area(),
            r matches Ok(g) ==> g.spec_dim() == dim && g.spec_cells() == cells@,
            r matches Err(e) ==> e == (GridError::LengthMismatch {
                expected: dim.spec_area() as usize,
                found: cells.len(),
            }),
    {
        let n = dim.area();
        if cells.len() != n {
            return Err(GridError::LengthMismatch { expected: n, found: cells.len() });
        }
        Ok(HostGrid { dim, cells })
    }

    pub fn dim(&self) -> (r: Dimensions)
        ensures
            r == self.spec_dim(),
    {
        self.dim
    }

    pub fn cells(&self) -> (r: &Vec<T>)
        ensures
            r@ == self.spec_cells(),
    {
        &self.cells
    }

    /// The cell in column `x` of row `y`.
    pub fn get(&self, x: u32, y: u32) -> (r: T)
        requires
            self.wf(),
            x < self.spec_dim().width,
            y < self.spec_dim().height,
        ensures
            r == self.spec_cell(x as int, y as int),
    {
        proof {
            lemma_cell_index_bound(
                self.dim.width as nat,
                self.dim.height as nat,
                x as int,
                y as int,
            );
        }
        let _len = self.cells.len();
        self.cells[y as usize * self.dim.width as usize + x as usize]
    }

    /// What the resizing copy kernel makes of this grid in a new grid of
    /// dimensions `new_dim` whose cells start out as `fill`: the centred
    /// overlap is copied, every other cell stays `fill`.
    pub fn resized(&self, new_dim: Dimensions, fill: T) -> (r: Self)
        requires
            self.wf(),
            new_dim.spec_area() <= usize::MAX,
        ensures
            r.wf(),
            r.spec_dim() == new_dim,
            r.spec_cells() == resized(self.spec_cells(), self.spec_dim(), new_dim, fill),
    {
        let p = copy_params(self.dim, new_dim);
        let ghost target = resized(self.cells@, self.dim, new_dim, fill);
        let nw = new_dim.width;
        let nh = new_dim.height;
        let ow = self.dim.width;
        let oh = self.dim.height;
        let old_len = self.cells.len();
        let mut out: Vec<T> = Vec::new();
        let mut y: u32 = 0;
        while y < nh
            invariant
                y <= nh,
                p == spec_copy_params(self.dim, new_dim),
                nw == new_dim.width,
                nh == new_dim.height,
                ow == self.dim.width,
                oh == self.dim.height,
                self.wf(),
                old_len == self.cells@.len(),
                target == resized(self.cells@, self.dim, new_dim, fill),
                out@.len() == y as nat * nw as nat,
                forall|k: int| 0 <= k < out@.len() ==> out@[k] == target[k],
            decreases nh - y,
        {
            let mut x: u32 = 0;
            while x < nw
                invariant
                    x <= nw,
                    y < nh,
                    p == spec_copy_params(self.dim, new_dim),
                    nw == new_dim.width,
                    nh == new_dim.height,
                    ow == self.dim.width,
                    oh == self.dim.height,
                    self.wf(),
                    old_len == self.cells@.len(),
                    target == resized(self.cells@, self.dim, new_dim, fill),
                    out@.len() == y as nat * nw as nat + x,
                    forall|k: int| 0 <= k < out@.len() ==> out@[k] == target[k],
                decreases nw - x,
            {
                let inside = x >= p.ndx && x - p.ndx < p.width && y >= p.ndy && y - p.ndy
                    < p.height;
                let v = if inside {
                    let row = y - p.ndy + p.ody;
                    let col = x - p.ndx + p.odx;
                    proof {
                        lemma_cell_index_bound(ow as nat, oh as nat, col as int, row as int);
                    }
                    self.cells[row as usize * ow as usize + col as usize]
                } else {
                    fill
                };
                proof {
                    lemma_cell_index(nw as nat, x as int, y as int);
                    lemma_cell_index_bound(nw as nat, nh as nat, x as int, y as int);
                }
                out.push(v);
                x = x + 1;
            }
            assert(y as nat * nw as nat + nw as nat == (y as nat + 1) * nw as nat)
                by (nonlinear_arith);
            y = y + 1;
        }
        assert(nh as nat * nw as nat == nw as nat * nh as nat) by (nonlinear_arith);
        assert(out@ =~= target);
        HostGrid { dim: new_dim, cells: out }
    }
}

/// Shrinking, or keeping, both dimensions of a grid whose cells are all `v`
/// gives a grid whose cells are all `v`: the overlap covers the new grid.
pub proof fn lemma_resize_shrink_uniform<T>(
    src: Seq<T>,
    o: Dimensions,
    n: Dimensions,
    fill: T,
    v: T,
)
    requires
        src.len() == o.spec_area(),
        forall|k: int| 0 <= k < src.len() ==> src[k] == v,
        n.width <= o.width,
        n.height <= o.height,
    ensures
        forall|k: int|
            0 <= k < n.spec_area() ==> #[trigger] resized(src, o, n, fill)[k] == v,
{
    let p = spec_copy_params(o, n);
    assert forall|k: int| 0 <= k < n.spec_area() implies #[trigger] resized(src, o, n, fill)[k]
        == v by {
        let w = n.width as int;
        let x = k % w;
        let y = k / w;
        assert(w > 0) by (nonlinear_arith)
            requires
                0 <= k < n.width as nat * n.height as nat,
                w == n.width,
        ;
        vstd::arithmetic::div_mod::lemma_fundamental_div_mod(k, w);
        vstd::arithmetic::div_mod::lemma_mod_bound(k, w);
        assert(0 <= y < n.height) by (nonlinear_arith)
            requires
                0 <= k < w * n.height,
                k == w * y + x,
                0 <= x < w,
        ;
        lemma_cell_index_bound(
            o.width as nat,
            o.height as nat,
            x + p.odx,
            y + p.ody,
        );
    }
}

/// Growing both dimensions of a grid whose cells are all `v` gives a grid
/// whose centred old-sized rectangle is all `v`; the cells around it are
/// not fixed by this.
pub proof fn lemma_resize_grow_uniform<T>(
    src: Seq<T>,
    o: Dimensions,
    n: Dimensions,
    fill: T,
    v: T,
)
    requires
        src.len() == o.spec_area(),
        forall|k: int| 0 <= k < src.len() ==> src[k] == v,
        n.width > o.width,
        n.height > o.height,
    ensures
        ({
            let dx = (n.width - o.width) / 2;
            let dy = (n.height - o.height) / 2;
            forall|x: int, y: int|
                dx <= x < dx + o.width && dy <= y < dy + o.height ==> #[trigger] resized(
                    src,
                    o,
                    n,
                    fill,
                )[cell_index(n.width as nat, x, y)] == v
        }),
{
    let p = spec_copy_params(o, n);
    let dx = (n.width - o.width) / 2;
    let dy = (n.height - o.height) / 2;
    assert forall|x: int, y: int|
        dx <= x < dx + o.width && dy <= y < dy + o.height implies #[trigger] resized(
        src,
        o,
        n,
        fill,
    )[cell_index(n.width as nat, x, y)] == v by {
        lemma_cell_index(n.width as nat, x, y);
        lemma_cell_index_bound(n.width as nat, n.height as nat, x, y);
        lemma_cell_index_bound(o.width as nat, o.height as nat, x - dx, y - dy);
    }
}

} // verus!
