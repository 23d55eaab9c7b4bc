use vstd::prelude::*;

verus! {

/// The four bytes of a 32-bit color, most significant first.
pub open spec fn be_bytes(v: u32) -> Seq<u8> {
    seq![(v >> 24u32) as u8, (v >> 16u32) as u8, (v >> 8u32) as u8, v as u8]
}

/// The pixels as a byte sequence: each pixel's four big-endian bytes, in order.
pub open spec fn plane8(pixels: Seq<u32>) -> Seq<u8>
    decreases pixels.len(),
{
    if pixels.len() == 0 {
        Seq::empty()
    } else {
        plane8(pixels.drop_last()) + be_bytes(pixels.last())
    }
}

/// The export holds four bytes per pixel.
pub proof fn lemma_plane8_len(pixels: Seq<u32>)
    ensures
        plane8(pixels).len() == 4 * pixels.len(),
    decreases pixels.len(),
{
    if pixels.len() > 0 {
        lemma_plane8_len(pixels.drop_last());
    }
}

/// A `width * height` buffer of 32-bit colors, addressed linearly as `y * width + x`.
pub struct Vram {
    memory: Vec<u32>,
    width: usize,
    height: usize,
}

/// The pixel buffer under the name that the presentation side uses for it.
pub type VideoMemory = Vram;

/// Read access to a whole pixel buffer, for presentation.
pub trait VideoOut {
    spec fn pixels_spec(&self) -> Seq<u32>;

    /// The pixels, one color each.
    fn get_video_buf_32(&self) -> (r: &Vec<u32>)
        ensures
            r@ == self.pixels_spec(),
    ;

    /// The pixels, four big-endian bytes each.
    fn get_video_buf_8(&self) -> (r: Vec<u8>)
        ensures
            r@ == plane8(self.pixels_spec()),
    ;
}

impl Vram {
    /// The pixels, row after row.
    pub closed spec fn pixels(&self) -> Seq<u32> {
        self.memory@
    }

    pub closed spec fn spec_width(&self) -> nat {
        self.width as nat
    }

    pub closed spec fn spec_height(&self) -> nat {
        self.height as nat
    }

    /// The buffer holds exactly one pixel per position.
    pub closed spec fn wf(&self) -> bool {
        self.memory@.len() == self.width * self.height
    }

    /// A buffer of `width * height` pixels, all off.
    pub fn new(width: usize, height: usize) -> (r: Self)
        requires
            width * height <= usize::MAX,
        ensures
            r.wf(),
            r.spec_width() == width,
            r.spec_height() == height,
            r.pixels() == Seq::new((width * height) as nat, |_i: int| 0u32),
    {
        let size = width * height;
        let mut memory: Vec<u32> = Vec::with_capacity(size);
        let mut i: usize = 0;
        while i < size
            invariant
                i <= size,
                memory@ == Seq::new(i as nat, |_i: int| 0u32),
            decreases size - i,
        {
            memory.push(0u32);
            i += 1;
            assert(memory@ =~= Seq::new(i as nat, |_i: int| 0u32));
        }
        Vram { memory, width, height }
    }

    pub fn width(&self) -> (r: usize)
        ensures
            r == self.spec_width(),
    {
        self.width
    }

    pub fn height(&self) -> (r: usize)
        ensures
            r == self.spec_height(),
    {
        self.height
    }

    /// The number of pixels.
    pub fn size(&self) -> (r: usize)
        requires
            self.wf(),
        ensures
            r == self.spec_width() * self.spec_height(),
            r == self.pixels().len(),
    {
        self.memory.len()
    }

    /// Turns every pixel off.
    pub fn clear(&mut self)
        requires
            old(self).wf(),
        ensures
            final(self).wf(),
            final(self).spec_width() == old(self).spec_width(),
            final(self).spec_height() == old(self).spec_height(),
            final(self).pixels() == Seq::new(old(self).pixels().len(), |_i: int| 0u32),
    {
        let n = self.memory.len();
        let mut i: usize = 0;
        while i < n
            invariant
                i <= n,
                n == self.memory@.len(),
                self.memory@.len() == self.width * self.height,
                self.width == old(self).width,
                self.height == old(self).height,
                forall|j: int| 0 <= j < i ==> self.memory@[j] == 0u32,
            decreases n - i,
        {
            self.memory.set(i, 0u32);
            i += 1;
        }
        assert(self.memory@ =~= Seq::new(old(self).pixels().len(), |_i: int| 0u32));
    }

    pub fn read_pixel(&self, addr: usize) -> (r: u32)
        requires
            addr < self.pixels().len(),
        ensures
            r == self.pixels()[addr as int],
    {
        self.memory[addr]
    }

    pub fn write_pixel(&mut self, addr: usize, pixel: u32)
        requires
            addr < old(self).pixels().len(),
        ensures
            final(self).pixels() == old(self).pixels().update(addr as int, pixel),
            final(self).spec_width() == old(self).spec_width(),
            final(self).spec_height() == old(self).spec_height(),
            old(self).wf() ==> final(self).wf(),
    {
        self.memory.set(addr, pixel);
    }

    /// The pixels, one color each.
    pub fn video_32(&self) -> (r: &Vec<u32>)
        ensures
            r@ == self.pixels(),
    {
        &self.memory
    }

    /// The pixels, four big-endian bytes each, row after row.
    pub fn video_8(&self) -> (r: Vec<u8>)
        ensures
            r@ == plane8(self.pixels()),
    {
        let n = self.memory.len();
        let mut out: Vec<u8> = Vec::new();
        let mut i: usize = 0;
        while i < n
            invariant
                i <= n,
                n == self.memory@.len(),
                out@ == plane8(self.memory@.take(i as int)),
            decreases n - i,
        {
            let v = self.memory[i];
            out.push((v >> 24u32) as u8);
            out.push((v >> 16u32) as u8);
            out.push((v >> 8u32) as u8);
            out.push(v as u8);
            proof {
                let t = self.memory@.take(i + 1);
                assert(t.drop_last() =~= self.memory@.take(i as int));
                assert(out@ =~= plane8(self.memory@.take(i as int)) + be_bytes(v));
            }
            i += 1;
        }
        assert(self.memory@.take(n as int) =~= self.memory@);
        out
    }
}

impl VideoOut for Vram {
    open spec fn pixels_spec(&self) -> Seq<u32> {
        self.pixels()
    }

    fn get_video_buf_32(&self) -> (r: &Vec<u32>) {
        self.video_32()
    }

    fn get_video_buf_8(&self) -> (r: Vec<u8>) {
        self.video_8()
    }
}

} // verus!
