use vstd::prelude::*;
use crate::errors::Error;

verus! {

/// What a frame buffer holds: its size and its pixels, row after row with the
/// top row of the picture first.
pub struct Frame {
    pub width: nat,
    pub height: nat,
    pub pixels: Seq<u32>,
}

impl Frame {
    /// Whether there is one pixel for each position of the frame.
    pub open spec fn wf(self) -> bool {
        self.pixels.len() == self.width * self.height
    }

    /// The place among the pixels of the one at column `x` and row `y`, where
    /// row 0 is the bottom of the picture.
    pub open spec fn index(self, x: int, y: int) -> int {
        (self.height - y - 1) * self.width + x
    }

    /// Whether column `x` and row `y` lie in the frame.
    pub open spec fn contains(self, x: int, y: int) -> bool {
        0 <= x < self.width && 0 <= y < self.height
    }

    /// Whether the pixel at column `x` and row `y` can be written: the row is
    /// one of the frame, and the pixel's place is one of those that are held.
    pub open spec fn accepts(self, x: int, y: int) -> bool {
        0 <= x && 0 <= y < self.height && self.index(x, y) < self.pixels.len()
    }

    /// The frame with the pixel at column `x` and row `y` set to `pixel`.
    pub open spec fn with_pixel(self, x: int, y: int, pixel: u32) -> Frame {
        Frame { pixels: self.pixels.update(self.index(x, y), pixel), ..self }
    }
}

/// Every position of a well-formed frame can be written, and two positions
/// share their place among the pixels only when they are the same.
pub proof fn lemma_frame_addresses(frame: Frame, x1: int, y1: int, x2: int, y2: int)
    requires
        frame.wf(),
        frame.contains(x1, y1),
        frame.contains(x2, y2),
    ensures
        frame.accepts(x1, y1),
        frame.index(x1, y1) == frame.index(x2, y2) ==> x1 == x2 && y1 == y2,
{
    let w = frame.width as int;
    let h = frame.height as int;
    let r1 = h - y1 - 1;
    let r2 = h - y2 - 1;
    assert(r1 * w + x1 < h * w) by (nonlinear_arith)
        requires
            0 <= r1 < h,
            0 <= x1 < w,
    ;
    assert(r1 * w + x1 == r2 * w + x2 ==> r1 == r2) by (nonlinear_arith)
        requires
            0 <= x1 < w,
            0 <= x2 < w,
    ;
}

/// The place among the pixels of a frame of the given size of the one at
/// column `x` and row `y`, counted from the bottom left.
pub fn pixel_index(width: usize, height: usize, x: usize, y: usize) -> (index: usize)
    requires
        y < height,
        (height - y - 1) * width + x <= usize::MAX,
    ensures
        index == (height - y - 1) * width + x,
{
    let row = height - y - 1;
    assert(0 <= row * width) by (nonlinear_arith);
    row * width + x
}

/// A picture of packed `0xRRGGBB` pixels.
pub struct FrameBuffer {
    buffer: Vec<u32>,
    width: usize,
    height: usize,
}

impl View for FrameBuffer {
    type V = Frame;

    closed spec fn view(&self) -> Frame {
        Frame { width: self.width as nat, height: self.height as nat, pixels: self.buffer@ }
    }
}

impl FrameBuffer {
    /// A black picture of the given size.
    pub fn new(width: usize, height: usize) -> (r: Result<Self, Error>)
        requires
            width * height <= usize::MAX,
        ensures
            r matches Ok(fb) && fb@ == (Frame {
                width: width as nat,
                height: height as nat,
                pixels: Seq::new((width * height) as nat, |i: int| 0u32),
            }),
    {
        let buffer = vec![0u32; width * height];
        let fb = FrameBuffer { buffer, width, height };
        assert(fb@.pixels =~= Seq::new((width * height) as nat, |i: int| 0u32));
        Ok(fb)
    }

    /// The number of rows.
    pub fn height(&self) -> (r: usize)
        ensures
            r == self@.height,
    {
        self.height
    }

    /// The number of columns.
    pub fn width(&self) -> (r: usize)
        ensures
            r == self@.width,
    {
        self.width
    }

    /// The pixels, row after row with the top row first.
    pub fn buffer(&self) -> (r: &Vec<u32>)
        ensures
            r@ == self@.pixels,
    {
        &self.buffer
    }

    /// The pixels, to be changed in place. What the caller leaves there are
    /// the picture's pixels afterwards; its size stays.
    pub fn buffer_mut(&mut self) -> (r: &mut Vec<u32>)
        ensures
            r@ == old(self)@.pixels,
            final(self)@ == (Frame { pixels: final(r)@, ..old(self)@ }),
    {
        &mut self.buffer
    }

    /// Sets the pixel at column `x` and row `y`, counted from the bottom left.
    pub fn set(&mut self, x: usize, y: usize, pixel: u32)
        requires
            old(self)@.accepts(x as int, y as int),
        ensures
            final(self)@ == old(self)@.with_pixel(x as int, y as int, pixel),
    {
        assert(self@.index(x as int, y as int) < self.buffer.len() <= usize::MAX);
        let index = pixel_index(self.width, self.height, x, y);
        self.buffer.set(index, pixel);
    }
}

/// What an accumulation buffer holds: its size and, for each pixel, three
/// running sums of samples, one for each channel, in the order of the
/// pixels of a frame.
pub struct Sums<T> {
    pub width: nat,
    pub height: nat,
    pub sums: Seq<T>,
}

impl<T> Sums<T> {
    /// Whether there are three sums for each position.
    pub open spec fn wf(self) -> bool {
        self.sums.len() == self.height * self.width * 3
    }

    /// The place of the first of the three sums of the pixel at column `x`
    /// and row `y`, where row 0 is the bottom of the picture.
    pub open spec fn start(self, x: int, y: int) -> int {
        (self.height - y - 1) * 3 * self.width + x * 3
    }

    /// Whether the sums of the pixel at column `x` and row `y` can be
    /// written: the row is one of the buffer, and the three places are among
    /// those that are held.
    pub open spec fn accepts(self, x: int, y: int) -> bool {
        0 <= x && 0 <= y < self.height && self.start(x, y) + 2 < self.sums.len()
    }
}

/// The sums of a pixel stand at three times its place in a frame of the same
/// size, and every position of the buffer can be written.
pub proof fn lemma_sums_addresses<T>(sums: Sums<T>, x: int, y: int)
    requires
        sums.wf(),
        0 <= x < sums.width,
        0 <= y < sums.height,
    ensures
        sums.accepts(x, y),
        sums.start(x, y) == 3 * (Frame {
            width: sums.width,
            height: sums.height,
            pixels: Seq::empty(),
        }).index(x, y),
{
    let w = sums.width as int;
    let h = sums.height as int;
    let row = h - y - 1;
    assert(row * 3 * w + x * 3 == 3 * (row * w + x)) by (nonlinear_arith);
    assert(row * w + x < h * w) by (nonlinear_arith)
        requires
            0 <= row < h,
            0 <= x < w,
    ;
    assert(h * w * 3 == 3 * (h * w)) by (nonlinear_arith);
}

/// Running sums of samples for each pixel of a picture, for rendering that
/// adds one sample to each pixel with each pass.
///
/// What a sum is, how a sample is added to it, and how three sums become a
/// pixel is the caller's to say.
pub struct IncrementalFrameBuffer<T> {
    buffer: Vec<T>,
    width: usize,
    height: usize,
}

impl<T> View for IncrementalFrameBuffer<T> {
    type V = Sums<T>;

    closed spec fn view(&self) -> Sums<T> {
        Sums { width: self.width as nat, height: self.height as nat, sums: self.buffer@ }
    }
}

impl<T: Copy> IncrementalFrameBuffer<T> {
    /// A buffer of the given size with every sum at `zero`.
    pub fn new(width: usize, height: usize, zero: T) -> (r: Result<Self, Error>)
        requires
            height * width * 3 <= usize::MAX,
        ensures
            r matches Ok(ifb) && ifb@ == (Sums {
                width: width as nat,
                height: height as nat,
                sums: Seq::new((height * width * 3) as nat, |i: int| zero),
            }),
    {
        assert(height * width <= height * width * 3) by (nonlinear_arith)
            requires
                0 <= height * width,
        ;
        let len = height * width * 3;
        let mut buffer: Vec<T> = Vec::new();
        let mut i: usize = 0;
        while i < len
            invariant
                i <= len,
                buffer.len() == i,
                forall|k: int| 0 <= k < i ==> buffer[k] == zero,
            decreases len - i,
        {
            buffer.push(zero);
            i += 1;
        }
        let ifb = IncrementalFrameBuffer { buffer, width, height };
        assert(ifb@.sums =~= Seq::new((height * width * 3) as nat, |i: int| zero));
        Ok(ifb)
    }

    /// The number of rows.
    pub fn height(&self) -> (r: usize)
        ensures
            r == self@.height,
    {
        self.height
    }

    /// The number of columns.
    pub fn width(&self) -> (r: usize)
        ensures
            r == self@.width,
    {
        self.width
    }

    /// Adds the sample `(r, g, b)` to the sums of the pixel at column `x` and
    /// row `y`, counted from the bottom left: each of the three sums becomes
    /// what `accumulate` makes of it and its channel of the sample. No other sum
    /// changes.
    pub fn set<F: Fn(T, T) -> T>(&mut self, x: usize, y: usize, r: T, g: T, b: T, accumulate: F)
        requires
            old(self)@.accepts(x as int, y as int),
            forall|sum: T, sample: T| accumulate.requires((sum, sample)),
        ensures
            final(self)@.width == old(self)@.width,
            final(self)@.height == old(self)@.height,
            final(self)@.sums.len() == old(self)@.sums.len(),
            ({
                let i = old(self)@.start(x as int, y as int);
                &&& accumulate.ensures((old(self)@.sums[i], r), final(self)@.sums[i])
                &&& accumulate.ensures((old(self)@.sums[i + 1], g), final(self)@.sums[i + 1])
                &&& accumulate.ensures((old(self)@.sums[i + 2], b), final(self)@.sums[i + 2])
                &&& forall|k: int|
                    0 <= k < old(self)@.sums.len() && !(i <= k <= i + 2) ==> final(self)@.sums[k]
                        == old(self)@.sums[k]
            }),
    {
        proof {
            let rows = (self.height - y - 1) as int;
            let w = self.width as int;
            assert(rows * 3 * w == rows * w * 3 && 0 <= rows * w <= rows * w * 3) by (nonlinear_arith)
                requires
                    0 <= rows,
                    0 <= w,
            ;
            assert(self@.start(x as int, y as int) + 2 < self.buffer.len() <= usize::MAX);
        }
        let start_index = (self.height - y - 1) * self.width * 3 + x * 3;
        let red = accumulate(self.buffer[start_index], r);
        let green = accumulate(self.buffer[start_index + 1], g);
        let blue = accumulate(self.buffer[start_index + 2], b);
        self.buffer.set(start_index, red);
        self.buffer.set(start_index + 1, green);
        self.buffer.set(start_index + 2, blue);
    }

    /// Fills `fb` with one pixel for each full three sums, in their order: the
    /// pixel that `pixel` makes of the three sums and of `n`, the number of
    /// passes before the last one. The size that `fb` reports stays.
    pub fn to_fb<F: Fn(T, T, T, u32) -> u32>(&mut self, n: u32, fb: &mut FrameBuffer, pixel: F)
        requires
            forall|r: T, g: T, b: T| pixel.requires((r, g, b, n)),
        ensures
            final(self)@ == old(self)@,
            final(fb)@.width == old(fb)@.width,
            final(fb)@.height == old(fb)@.height,
            final(fb)@.pixels.len() == old(self)@.sums.len() / 3,
            forall|k: int|
                0 <= k < old(self)@.sums.len() / 3 ==> pixel.ensures(
                    (
                        old(self)@.sums[3 * k],
                        old(self)@.sums[3 * k + 1],
                        old(self)@.sums[3 * k + 2],
                        n,
                    ),
                    #[trigger] final(fb)@.pixels[k],
                ),
    {
        let count = self.buffer.len() / 3;
        let mut pixels: Vec<u32> = Vec::new();
        let mut k: usize = 0;
        while k < count
            invariant
                k <= count,
                count == self.buffer.len() / 3,
                pixels.len() == k,
                forall|r: T, g: T, b: T| pixel.requires((r, g, b, n)),
                forall|j: int|
                    0 <= j < k ==> pixel.ensures(
                        (self.buffer[3 * j], self.buffer[3 * j + 1], self.buffer[3 * j + 2], n),
                        #[trigger] pixels[j],
                    ),
            decreases count - k,
        {
            let p = pixel(self.buffer[3 * k], self.buffer[3 * k + 1], self.buffer[3 * k + 2], n);
            pixels.push(p);
            k += 1;
        }
        *fb.buffer_mut() = pixels;
    }
}

} // verus!
