//! Bookkeeping for the pool of GPU render targets, one slot per grid cell.
//! The GPU objects themselves are created and deleted by whoever owns the
//! GL context; the pool records their names and dimensions, keeps the slots
//! index-aligned with the engine array, and hands every recorded target back
//! on release so nothing leaks. It also carries the pure pixel work of the
//! copy-back display path: the vertical flip between the GL row order and
//! the UI's.

use vstd::prelude::*;

verus! {

/// One cell's render target: a framebuffer and its backing texture at a
/// fixed resolution. The ids are GL object names; the texture doubles as
/// the displayable handle.
#[derive(Debug, Clone, Copy, PartialEq, Eq, Structural)]
pub struct RenderTarget {
    pub fbo_id: u32,
    pub texture_id: u32,
    pub width: u32,
    pub height: u32,
}

/// The fixed-size set of render targets. An absent slot means creation
/// failed there: that cell shows a placeholder and its siblings go on.
pub struct RenderTargetPool {
    pub slots: Vec<Option<RenderTarget>>,
    pub width: u32,
    pub height: u32,
}

impl RenderTargetPool {
    /// Every present target has the pool's uniform dimensions.
    pub open spec fn wf(&self) -> bool {
        forall|i: int|
            0 <= i < self.slots@.len() && self.slots@[i] is Some ==> {
                &&& self.slots@[i]->Some_0.width == self.width
                &&& self.slots@[i]->Some_0.height == self.height
            }
    }

    /// An empty pool.
    pub fn new() -> (p: Self)
        ensures
            p.wf(),
            p.slots@.len() == 0,
            p.width == 0u32,
            p.height == 0u32,
    {
        RenderTargetPool { slots: Vec::new(), width: 0, height: 0 }
    }

    /// Replaces the pool's contents with freshly created targets (absent
    /// where creation failed) and returns the old slots so their GPU
    /// objects can be deleted.
    pub fn allocate(
        &mut self,
        created: Vec<Option<RenderTarget>>,
        width: u32,
        height: u32,
    ) -> (released: Vec<Option<RenderTarget>>)
        requires
            forall|i: int|
                0 <= i < created@.len() && created@[i] is Some ==> {
                    &&& created@[i]->Some_0.width == width
                    &&& created@[i]->Some_0.height == height
                },
        ensures
            final(self).wf(),
            final(self).slots == created,
            final(self).width == width,
            final(self).height == height,
            released == old(self).slots,
    {
        let mut taken = created;
        core::mem::swap(&mut self.slots, &mut taken);
        self.width = width;
        self.height = height;
        taken
    }

    /// Empties the pool and returns every slot it held, present or not, so
    /// the caller can delete the GPU objects; emptying an empty pool
    /// returns nothing and is harmless.
    pub fn release(&mut self) -> (released: Vec<Option<RenderTarget>>)
        ensures
            final(self).wf(),
            final(self).slots@.len() == 0,
            final(self).width == old(self).width,
            final(self).height == old(self).height,
            released == old(self).slots,
    {
        let mut taken: Vec<Option<RenderTarget>> = Vec::new();
        core::mem::swap(&mut self.slots, &mut taken);
        taken
    }

    /// The number of slots, present or absent.
    pub fn len(&self) -> (n: usize)
        ensures
            n == self.slots@.len(),
    {
        self.slots.len()
    }

    /// The target at `i`: absent for an out-of-range index or a slot whose
    /// creation failed.
    pub fn target(&self, i: usize) -> (r: Option<RenderTarget>)
        ensures
            r == if i < self.slots@.len() {
                self.slots@[i as int]
            } else {
                None::<RenderTarget>
            },
    {
        if i < self.slots.len() {
            self.slots[i]
        } else {
            None
        }
    }

    /// The displayable handle for cell `i`: its texture name, when the
    /// target exists.
    pub fn display_handle(&self, i: usize) -> (r: Option<u32>)
        ensures
            r == if i < self.slots@.len() && self.slots@[i as int] is Some {
                Some(self.slots@[i as int]->Some_0.texture_id)
            } else {
                None::<u32>
            },
    {
        if i < self.slots.len() {
            match self.slots[i] {
                Some(t) => Some(t.texture_id),
                None => None,
            }
        } else {
            None
        }
    }

    /// The framebuffer name for cell `i`, for the backend to draw into.
    pub fn fbo_id(&self, i: usize) -> (r: Option<u32>)
        ensures
            r == if i < self.slots@.len() && self.slots@[i as int] is Some {
                Some(self.slots@[i as int]->Some_0.fbo_id)
            } else {
                None::<u32>
            },
    {
        if i < self.slots.len() {
            match self.slots[i] {
                Some(t) => Some(t.fbo_id),
                None => None,
            }
        } else {
            None
        }
    }
}

/// Reverses the row order of a tightly packed pixel buffer of
/// `height` rows of `row_bytes` bytes each: row `y` of the result is row
/// `height - 1 - y` of the input. This is the flip between the GL
/// convention (origin at the bottom left) and the UI's (origin at the top
/// left) on the copy-back display path.
pub fn flip_rows(pixels: &Vec<u8>, row_bytes: usize, height: usize) -> (out: Vec<u8>)
    requires
        pixels@.len() == row_bytes * height,
    ensures
        out@.len() == pixels@.len(),
        forall|y: int, x: int|
            0 <= y < height && 0 <= x < row_bytes ==> #[trigger] out@[y * row_bytes + x]
                == pixels@[(height - 1 - y) * row_bytes + x],
{
    let total: usize = pixels.len();
    let mut out: Vec<u8> = Vec::new();
    let mut y: usize = 0;
    while y < height
        invariant
            total == pixels@.len(),
            pixels@.len() == row_bytes * height,
            y <= height,
            out@.len() == y * row_bytes,
            forall|yy: int, x: int|
                0 <= yy < y && 0 <= x < row_bytes ==> #[trigger] out@[yy * row_bytes + x]
                    == pixels@[(height - 1 - yy) * row_bytes + x],
        decreases height - y,
    {
        let src_row: usize = height - 1 - y;
        proof {
            assert((src_row + 1) * row_bytes <= height * row_bytes && src_row * row_bytes
                + row_bytes == (src_row + 1) * row_bytes && y * row_bytes + row_bytes == (y + 1)
                * row_bytes && (y + 1) * row_bytes <= height * row_bytes && height * row_bytes
                == row_bytes * height) by (nonlinear_arith)
                requires
                    src_row + 1 <= height,
                    y + 1 <= height,
                    row_bytes >= 0,
            ;
        }
        let base: usize = src_row * row_bytes;
        let mut x: usize = 0;
        while x < row_bytes
            invariant
                total == pixels@.len(),
                pixels@.len() == row_bytes * height,
                y < height,
                src_row == height - 1 - y,
                base == src_row * row_bytes,
                base + row_bytes <= total,
                x <= row_bytes,
                out@.len() == y * row_bytes + x,
                forall|yy: int, xx: int|
                    0 <= yy < y && 0 <= xx < row_bytes ==> #[trigger] out@[yy * row_bytes + xx]
                        == pixels@[(height - 1 - yy) * row_bytes + xx],
                forall|xx: int|
                    0 <= xx < x ==> #[trigger] out@[y * row_bytes + xx] == pixels@[src_row
                        * row_bytes + xx],
            decreases row_bytes - x,
        {
            out.push(pixels[base + x]);
            x = x + 1;
            proof {
                assert forall|yy: int, xx: int|
                    0 <= yy < y && 0 <= xx < row_bytes implies #[trigger] out@[yy * row_bytes + xx]
                        == pixels@[(height - 1 - yy) * row_bytes + xx] by {
                    assert(yy * row_bytes + xx < y * row_bytes) by (nonlinear_arith)
                        requires
                            0 <= yy < y,
                            0 <= xx < row_bytes,
                    ;
                }
            }
        }
        y = y + 1;
        proof {
            assert forall|yy: int, xx: int|
                0 <= yy < y && 0 <= xx < row_bytes implies #[trigger] out@[yy * row_bytes + xx]
                    == pixels@[(height - 1 - yy) * row_bytes + xx] by {
                if yy == y - 1 {
                    assert(out@[yy * row_bytes + xx] == pixels@[src_row * row_bytes + xx]);
                }
            }
        }
    }
    proof {
        assert(height * row_bytes == row_bytes * height) by (nonlinear_arith);
    }
    out
}

} // verus!
