use vstd::prelude::*;
use vstd::slice::slice_subrange;

verus! {

/// Byte offset of the first channel of cell `(x, y)` in a row-major RGBA
/// buffer whose rows are `w` cells wide. Each cell holds four bytes.
pub open spec fn offset_of(x: int, y: int, w: int) -> int {
    (x + y * w) * 4
}

/// An owned RGBA framebuffer: `width * height` cells in row-major order,
/// four bytes (red, green, blue, alpha) per cell. The dimensions are fixed
/// at construction; cell contents are read and written through
/// bounds-checked accessors that report a miss instead of failing.
pub struct WorldImage {
    width: u32,
    height: u32,
    buf: Vec<u8>,
}

impl View for WorldImage {
    type V = Seq<u8>;

    closed spec fn view(&self) -> Seq<u8> {
        self.buf@
    }
}

impl WorldImage {
    #[verifier::type_invariant]
    spec fn type_inv(self) -> bool {
        &&& self.width >= 1
        &&& self.height >= 1
        &&& self.buf@.len() == self.width * self.height * 4
    }

    pub closed spec fn spec_width(&self) -> u32 {
        self.width
    }

    pub closed spec fn spec_height(&self) -> u32 {
        self.height
    }

    /// Every framebuffer has nonzero dimensions and a buffer of exactly
    /// four bytes per cell; `width` and `height` reaffirm this on each call.
    pub open spec fn wf(&self) -> bool {
        &&& self.spec_width() >= 1
        &&& self.spec_height() >= 1
        &&& self@.len() == self.spec_width() * self.spec_height() * 4
        &&& self.spec_width() * self.spec_height() * 4 <= usize::MAX
    }

    /// A framebuffer of the given dimensions with every byte zero
    /// (transparent black).
    pub fn new(width: u32, height: u32) -> (r: Self)
        requires
            width >= 1,
            height >= 1,
            width * height * 4 <= usize::MAX,
        ensures
            r.spec_width() == width,
            r.spec_height() == height,
            r@.len() == width * height * 4,
            forall|i: int| 0 <= i < r@.len() ==> r@[i] == 0u8,
    {
        let n: usize = (width as usize) * (height as usize) * 4;
        let mut buf: Vec<u8> = Vec::new();
        while buf.len() < n
            invariant
                buf@.len() <= n,
                forall|i: int| 0 <= i < buf@.len() ==> buf@[i] == 0u8,
            decreases n - buf@.len(),
        {
            buf.push(0u8);
        }
        WorldImage { width, height, buf }
    }

    /// A framebuffer of the given dimensions with every cell set to `color`.
    pub fn filled(width: u32, height: u32, color: [u8; 4]) -> (r: Self)
        requires
            width >= 1,
            height >= 1,
            width * height * 4 <= usize::MAX,
        ensures
            r.spec_width() == width,
            r.spec_height() == height,
            r@.len() == width * height * 4,
            forall|i: int| 0 <= i < r@.len() ==> r@[i] == color@[i % 4],
    {
        let n: usize = (width as usize) * (height as usize) * 4;
        let mut buf: Vec<u8> = Vec::new();
        while buf.len() < n
            invariant
                buf@.len() <= n,
                forall|i: int| 0 <= i < buf@.len() ==> buf@[i] == color@[i % 4],
            decreases n - buf@.len(),
        {
            let k: usize = buf.len() % 4;
            buf.push(color[k]);
        }
        WorldImage { width, height, buf }
    }

    /// Width of the grid, in cells.
    #[verifier::when_used_as_spec(spec_width)]
    pub fn width(&self) -> (r: u32)
        ensures
            r == self.spec_width(),
            self.wf(),
    {
        proof {
            use_type_invariant(self);
            vstd::std_specs::vec::axiom_spec_len(&self.buf);
        }
        self.width
    }

    /// Height of the grid, in cells.
    #[verifier::when_used_as_spec(spec_height)]
    pub fn height(&self) -> (r: u32)
        ensures
            r == self.spec_height(),
            self.wf(),
    {
        proof {
            use_type_invariant(self);
            vstd::std_specs::vec::axiom_spec_len(&self.buf);
        }
        self.height
    }

    /// The raw byte buffer, row-major, four bytes per cell.
    pub fn buf(&self) -> (r: &[u8])
        ensures
            r@ == self@,
    {
        self.buf.as_slice()
    }

    /// Byte offset of cell `(x, y)`, or `None` when the cell is out of
    /// range.
    fn calc_offset(&self, x: u32, y: u32) -> (r: Option<usize>)
        ensures
            (match r {
                Some(off) => {
                    &&& x < self.spec_width()
                    &&& y < self.spec_height()
                    &&& off == offset_of(x as int, y as int, self.spec_width() as int)
                    &&& off + 4 <= self@.len()
                },
                None => x >= self.spec_width() || y >= self.spec_height(),
            }),
    {
        proof {
            use_type_invariant(self);
            vstd::std_specs::vec::axiom_spec_len(&self.buf);
        }
        if x < self.width && y < self.height {
            proof {
                lemma_offset_in_range(
                    x as int,
                    y as int,
                    self.width as int,
                    self.height as int,
                );
            }
            Some(((x as usize) + (y as usize) * (self.width as usize)) * 4)
        } else {
            None
        }
    }

    /// The four bytes of cell `(x, y)`, or `None` when the cell is out of
    /// range.
    pub fn get(&self, x: u32, y: u32) -> (r: Option<&[u8]>)
        ensures
            (match r {
                Some(s) => {
                    &&& x < self.spec_width()
                    &&& y < self.spec_height()
                    &&& s@ == self@.subrange(
                        offset_of(x as int, y as int, self.spec_width() as int),
                        offset_of(x as int, y as int, self.spec_width() as int) + 4,
                    )
                },
                None => x >= self.spec_width() || y >= self.spec_height(),
            }),
    {
        proof {
            vstd::std_specs::vec::axiom_spec_len(&self.buf);
        }
        match self.calc_offset(x, y) {
            Some(off) => Some(slice_subrange(self.buf.as_slice(), off, off + 4)),
            None => None,
        }
    }

    /// Writes `color` into cell `(x, y)`. Returns whether the cell was in
    /// range; an out-of-range write is a silent no-op.
    pub fn set(&mut self, x: u32, y: u32, color: [u8; 4]) -> (hit: bool)
        ensures
            hit == (x < old(self).spec_width() && y < old(self).spec_height()),
            final(self).spec_width() == old(self).spec_width(),
            final(self).spec_height() == old(self).spec_height(),
            final(self)@.len() == old(self)@.len(),
            hit ==> (forall|i: int|
                0 <= i < final(self)@.len()
                    && !(offset_of(x as int, y as int, old(self).spec_width() as int) <= i
                    < offset_of(x as int, y as int, old(self).spec_width() as int) + 4)
                    ==> final(self)@[i] == old(self)@[i]),
            hit ==> (forall|k: int|
                0 <= k < 4 ==> final(self)@[offset_of(
                    x as int,
                    y as int,
                    old(self).spec_width() as int,
                ) + k] == color@[k]),
            !hit ==> final(self)@ == old(self)@,
    {
        proof {
            use_type_invariant(&*self);
        }
        match self.calc_offset(x, y) {
            Some(off) => {
                self.buf[off] = color[0];
                self.buf[off + 1] = color[1];
                self.buf[off + 2] = color[2];
                self.buf[off + 3] = color[3];
                true
            },
            None => false,
        }
    }
}

/// For an in-range cell the four bytes at its offset lie inside a buffer of
/// `w * h * 4` bytes.
proof fn lemma_offset_in_range(x: int, y: int, w: int, h: int) by (nonlinear_arith)
    requires
        0 <= x < w,
        0 <= y < h,
    ensures
        0 <= y * w <= w * h,
        0 <= x + y * w < w * h,
        0 <= offset_of(x, y, w),
        offset_of(x, y, w) + 4 <= w * h * 4,
{
}

} // verus!
