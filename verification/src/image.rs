//! A bitmap in memory, four bytes to the pixel.

use vstd::prelude::*;

verus! {

/// A bitmap of `width` by `height` pixels. Each pixel is four bytes: blue, green, red and
/// alpha. The rows follow each other without gaps.
pub struct Image {
    data: Vec<u8>,
    width: usize,
    height: usize,
}

impl Image {
    /// The bytes of the bitmap.
    pub closed spec fn bytes(&self) -> Seq<u8> {
        self.data@
    }

    /// The width of the bitmap in pixels.
    pub closed spec fn spec_width(&self) -> usize {
        self.width
    }

    /// The height of the bitmap in pixels.
    pub closed spec fn spec_height(&self) -> usize {
        self.height
    }

    /// The bitmap has four bytes for each of its pixels.
    pub open spec fn wf(&self) -> bool {
        self.bytes().len() == self.spec_width() * self.spec_height() * 4
    }

    /// The index of the first byte of the pixel at column `x` of row `y`.
    pub open spec fn offset(width: int, x: int, y: int) -> int {
        (y * width + x) * 4
    }

    /// A bitmap of the given size, every byte zero.
    pub fn new(width: usize, height: usize) -> (image: Image)
        requires
            width * height * 4 <= usize::MAX,
        ensures
            image.wf(),
            image.spec_width() == width,
            image.spec_height() == height,
            forall|i: int| 0 <= i < image.bytes().len() ==> image.bytes()[i] == 0,
    {
        proof {
            assert(width * height <= usize::MAX) by (nonlinear_arith)
                requires
                    width * height * 4 <= usize::MAX,
            ;
        }
        let size = width * height * 4;
        let mut data: Vec<u8> = Vec::new();
        let mut i: usize = 0;
        while i < size
            invariant
                i <= size,
                data@.len() == i,
                forall|k: int| 0 <= k < i ==> data@[k] == 0,
            decreases size - i,
        {
            data.push(0);
            i = i + 1;
        }
        Image { data, width, height }
    }

    /// The width of the bitmap in pixels.
    pub fn width(&self) -> (w: usize)
        ensures
            w == self.spec_width(),
    {
        self.width
    }

    /// The height of the bitmap in pixels.
    pub fn height(&self) -> (h: usize)
        ensures
            h == self.spec_height(),
    {
        self.height
    }

    /// The bytes of the bitmap.
    pub fn data(&self) -> (d: &Vec<u8>)
        ensures
            d@ == self.bytes(),
    {
        &self.data
    }

    /// A bitmap made from pixels of red, green, blue and alpha bytes, whose rows begin
    /// `stride` bytes apart: red and blue change places. The data must reach to the end of
    /// the last row's pixels.
    pub fn with_rgba32(width: usize, height: usize, stride: usize, data: &[u8]) -> (image: Image)
        requires
            width * height * 4 <= usize::MAX,
            width > 0 && height > 0 ==> (height - 1) * stride + width * 4 <= data@.len(),
        ensures
            image.wf(),
            image.spec_width() == width,
            image.spec_height() == height,
            forall|x: int, y: int|
                0 <= x < width && 0 <= y < height ==> {
                    let to = #[trigger] Image::offset(width as int, x, y);
                    let from = y * stride + x * 4;
                    &&& image.bytes()[to] == data@[from + 2]
                    &&& image.bytes()[to + 1] == data@[from + 1]
                    &&& image.bytes()[to + 2] == data@[from]
                    &&& image.bytes()[to + 3] == data@[from + 3]
                },
    {
        let mut image = Image::new(width, height);
        let total = data.len();
        let mut y: usize = 0;
        while y < height
            invariant
                y <= height,
                total == data@.len(),
                image.wf(),
                image.width == width,
                image.height == height,
                width * height * 4 <= usize::MAX,
                width > 0 && height > 0 ==> (height - 1) * stride + width * 4 <= data@.len(),
                forall|x: int, r: int|
                    0 <= x < width && 0 <= r < y ==> {
                        let to = #[trigger] Image::offset(width as int, x, r);
                        let from = r * stride + x * 4;
                        &&& image.data@[to] == data@[from + 2]
                        &&& image.data@[to + 1] == data@[from + 1]
                        &&& image.data@[to + 2] == data@[from]
                        &&& image.data@[to + 3] == data@[from + 3]
                    },
            decreases height - y,
        {
            if width == 0 {
                y = y + 1;
                continue ;
            }
            proof {
                lemma_row_bounds(width as int, height as int, stride as int, y as int);
            }
            let src_offset = y * stride;
            let dest_offset = y * width * 4;
            let mut x: usize = 0;
            while x < width
                invariant
                    x <= width,
                    y < height,
                    total == data@.len(),
                    width * height * 4 <= usize::MAX,
                    image.wf(),
                    image.width == width,
                    image.height == height,
                    src_offset == y * stride,
                    dest_offset == y * width * 4,
                    src_offset + width * 4 <= data@.len(),
                    dest_offset + width * 4 <= image.data@.len(),
                    forall|c: int, r: int|
                        0 <= c < width && 0 <= r < y ==> {
                            let to = #[trigger] Image::offset(width as int, c, r);
                            let from = r * stride + c * 4;
                            &&& image.data@[to] == data@[from + 2]
                            &&& image.data@[to + 1] == data@[from + 1]
                            &&& image.data@[to + 2] == data@[from]
                            &&& image.data@[to + 3] == data@[from + 3]
                        },
                    forall|c: int|
                        0 <= c < x ==> {
                            let to = #[trigger] Image::offset(width as int, c, y as int);
                            let from = y * stride + c * 4;
                            &&& image.data@[to] == data@[from + 2]
                            &&& image.data@[to + 1] == data@[from + 1]
                            &&& image.data@[to + 2] == data@[from]
                            &&& image.data@[to + 3] == data@[from + 3]
                        },
                decreases width - x,
            {
                let red = data[src_offset + x * 4];
                let green = data[src_offset + x * 4 + 1];
                let blue = data[src_offset + x * 4 + 2];
                let alpha = data[src_offset + x * 4 + 3];
                let ghost before = image.data@;
                let to = dest_offset + x * 4;
                proof {
                    assert(to == Image::offset(width as int, x as int, y as int))
                        by (nonlinear_arith)
                        requires
                            to == y * width * 4 + x * 4,
                    ;
                    assert forall|c: int, r: int| 0 <= c < width && 0 <= r < y implies #[trigger] Image::offset(
                        width as int,
                        c,
                        r,
                    ) + 3 < to by {
                        lemma_offsets_apart(width as int, c, r, x as int, y as int);
                    }
                    assert forall|c: int| 0 <= c < x implies #[trigger] Image::offset(
                        width as int,
                        c,
                        y as int,
                    ) + 3 < to by {
                        lemma_offsets_in_row(width as int, c, x as int, y as int);
                    }
                }
                image.data[to] = blue;
                image.data[to + 1] = green;
                image.data[to + 2] = red;
                image.data[to + 3] = alpha;
                x = x + 1;
            }
            y = y + 1;
        }
        image
    }
}

proof fn lemma_row_bounds(width: int, height: int, stride: int, y: int)
    requires
        0 <= y < height,
        0 <= width,
        0 <= stride,
    ensures
        y * stride + width * 4 <= (height - 1) * stride + width * 4,
        y * width * 4 + width * 4 <= width * height * 4,
        0 <= y * stride,
        0 <= y * width * 4,
{
    assert(y * stride <= (height - 1) * stride) by (nonlinear_arith)
        requires
            0 <= y < height,
            0 <= stride,
    ;
    assert(y * width * 4 + width * 4 <= width * height * 4) by (nonlinear_arith)
        requires
            0 <= y < height,
            0 <= width,
    ;
    assert(0 <= y * stride && 0 <= y * width * 4) by (nonlinear_arith)
        requires
            0 <= y,
            0 <= width,
            0 <= stride,
    ;
}

proof fn lemma_offsets_apart(width: int, c: int, r: int, x: int, y: int)
    requires
        0 <= c < width,
        0 <= r < y,
        0 <= x,
    ensures
        Image::offset(width, c, r) + 3 < Image::offset(width, x, y),
{
    assert((r * width + c) + 1 <= y * width + x) by (nonlinear_arith)
        requires
            0 <= c < width,
            0 <= r < y,
            0 <= x,
    ;
}

proof fn lemma_offsets_in_row(width: int, c: int, x: int, y: int)
    requires
        0 <= c < x,
    ensures
        Image::offset(width, c, y) + 3 < Image::offset(width, x, y),
{
}

} // verus!
