use vstd::prelude::*;

verus! {

/// The size of an image in pixels.
#[derive(Debug, Clone, Copy, PartialEq, Eq, Structural)]
pub struct Size {
    pub width: usize,
    pub height: usize,
}

impl Size {
    pub fn new(width: usize, height: usize) -> (r: Size)
        ensures
            r.width == width,
            r.height == height,
    {
        Size { width, height }
    }

    /// The number of pixels, as a mathematical integer.
    pub open spec fn area(self) -> int {
        self.width as int * self.height as int
    }

    /// The number of pixels.
    pub fn len(&self) -> (r: usize)
        requires
            self.area() <= usize::MAX,
        ensures
            r == self.area(),
    {
        self.width * self.height
    }

    /// Whether `(row, col)` names a pixel of the image.
    pub open spec fn contains(self, row: int, col: int) -> bool {
        0 <= row < self.height && 0 <= col < self.width
    }

    /// The position of pixel `(row, col)` in row-major order.
    pub open spec fn index_of(self, row: int, col: int) -> int {
        row * self.width + col
    }

    /// The row and column of the pixel at position `i` in row-major order:
    /// rows run top to bottom, columns left to right.
    pub fn pixel_coords(&self, i: usize) -> (r: (usize, usize))
        requires
            0 <= i < self.area(),
        ensures
            self.contains(r.0 as int, r.1 as int),
            self.index_of(r.0 as int, r.1 as int) == i,
    {
        let row = i / self.width;
        let col = i % self.width;
        proof {
            lemma_row_major(self.width as int, self.height as int, i as int);
        }
        (row, col)
    }

    /// The position of pixel `(row, col)` in row-major order.
    pub fn pixel_index(&self, row: usize, col: usize) -> (r: usize)
        requires
            self.contains(row as int, col as int),
            self.area() <= usize::MAX,
        ensures
            r == self.index_of(row as int, col as int),
            r < self.area(),
    {
        proof {
            lemma_index_below_area(self.width as int, self.height as int, row as int, col as int);
        }
        row * self.width + col
    }
}

proof fn lemma_row_major(width: int, height: int, i: int)
    requires
        0 <= i < width * height,
        width >= 0,
        height >= 0,
    ensures
        width > 0,
        0 <= i / width < height,
        0 <= i % width < width,
        (i / width) * width + i % width == i,
{
    if width == 0 {
        assert(width * height == 0) by (nonlinear_arith)
            requires width == 0;
    }
    assert(i == (i / width) * width + i % width) by (nonlinear_arith)
        requires width > 0;
    assert((i / width) < height) by (nonlinear_arith)
        requires width > 0, 0 <= i < width * height, i == (i / width) * width + i % width,
            0 <= i % width;
    assert(0 <= i / width) by (nonlinear_arith)
        requires width > 0, 0 <= i;
}

proof fn lemma_index_below_area(width: int, height: int, row: int, col: int)
    requires
        0 <= row < height,
        0 <= col < width,
    ensures
        0 <= row * width <= row * width + col < width * height,
{
    assert(row * width + col < width * height) by (nonlinear_arith)
        requires 0 <= row < height, 0 <= col < width;
    assert(0 <= row * width) by (nonlinear_arith)
        requires 0 <= row, 0 <= width;
}

/// The largest value of an 8-bit color channel, as written in the header of
/// the text pixel format.
pub const MAX_COLOR_CHANNEL: u8 = 255;

/// A pixel color quantized to 8 bits per channel.
#[derive(Debug, Clone, Copy, PartialEq, Eq, Structural)]
pub struct Rgb8 {
    pub r: u8,
    pub g: u8,
    pub b: u8,
}

impl Rgb8 {
    pub fn new(r: u8, g: u8, b: u8) -> (c: Rgb8)
        ensures
            c == (Rgb8 { r, g, b }),
    {
        Rgb8 { r, g, b }
    }
}

/// A finished image: its size and its pixel colors in row-major order.
pub struct Image {
    size: Size,
    pixel_data: Vec<Rgb8>,
}

/// The ASCII digits of `n` in base ten, most significant first, without
/// leading zeros.
pub open spec fn decimal(n: nat) -> Seq<u8>
    decreases n,
{
    if n < 10 {
        seq![(n + 48) as u8]
    } else {
        decimal(n / 10).push((n % 10 + 48) as u8)
    }
}

/// The three-line header of the text pixel format: the magic `P3`, the width
/// and height, and the largest channel value.
pub open spec fn ppm_header(size: Size) -> Seq<u8> {
    seq![80u8, 51u8, 10u8] + decimal(size.width as nat) + seq![32u8] + decimal(size.height as nat)
        + seq![10u8] + decimal(MAX_COLOR_CHANNEL as nat) + seq![10u8]
}

/// One line of the text pixel format: the three channels in decimal,
/// separated by spaces.
pub open spec fn ppm_line(c: Rgb8) -> Seq<u8> {
    decimal(c.r as nat) + seq![32u8] + decimal(c.g as nat) + seq![32u8] + decimal(c.b as nat)
        + seq![10u8]
}

/// The lines of all `pixels`, in order.
pub open spec fn ppm_lines(pixels: Seq<Rgb8>) -> Seq<u8>
    decreases pixels.len(),
{
    if pixels.len() == 0 {
        Seq::empty()
    } else {
        ppm_lines(pixels.drop_last()) + ppm_line(pixels.last())
    }
}

/// The whole text of an image of `size` with `pixels` in row-major order.
pub open spec fn ppm_text(size: Size, pixels: Seq<Rgb8>) -> Seq<u8> {
    ppm_header(size) + ppm_lines(pixels)
}

/// Appends the decimal digits of `n` to `out`.
fn push_decimal(out: &mut Vec<u8>, n: usize)
    ensures
        final(out)@ == old(out)@ + decimal(n as nat),
    decreases n,
{
    if n >= 10 {
        push_decimal(out, n / 10);
    }
    out.push((n % 10) as u8 + 48);
}

/// Appends `bytes` to `out`.
fn push_all(out: &mut Vec<u8>, bytes: &[u8])
    ensures
        final(out)@ == old(out)@ + bytes@,
{
    let mut i: usize = 0;
    while i < bytes.len()
        invariant
            i <= bytes@.len(),
            out@ == old(out)@ + bytes@.subrange(0, i as int),
        decreases bytes@.len() - i,
    {
        out.push(bytes[i]);
        i = i + 1;
        proof {
            assert(bytes@.subrange(0, i as int) == bytes@.subrange(0, i - 1).push(bytes@[i - 1]));
        }
    }
    proof {
        assert(bytes@.subrange(0, bytes@.len() as int) == bytes@);
    }
}

impl Image {
    /// A well-formed image holds one color for each pixel.
    pub open spec fn wf(&self) -> bool {
        self.pixels().len() == self.size_spec().area()
    }

    pub closed spec fn size_spec(&self) -> Size {
        self.size
    }

    pub closed spec fn pixels(&self) -> Seq<Rgb8> {
        self.pixel_data@
    }

    /// An image of `size` whose pixels in row-major order are `pixel_data`.
    pub fn new(size: Size, pixel_data: Vec<Rgb8>) -> (r: Image)
        requires
            pixel_data@.len() == size.area(),
        ensures
            r.wf(),
            r.size_spec() == size,
            r.pixels() == pixel_data@,
    {
        Image { size, pixel_data }
    }

    pub fn size(&self) -> (r: Size)
        ensures
            r == self.size_spec(),
    {
        self.size
    }

    /// The image in the plain-text pixel format: a header of `P3`, the width
    /// and height, and `255`, each on its own line; then one line of three
    /// decimal channels per pixel, top-left pixel first, in row-major order.
    pub fn to_ppm(&self) -> (r: Vec<u8>)
        ensures
            r@ == ppm_text(self.size_spec(), self.pixels()),
    {
        let mut out: Vec<u8> = Vec::new();
        push_all(&mut out, &[80u8, 51u8, 10u8]);
        push_decimal(&mut out, self.size.width);
        out.push(32u8);
        push_decimal(&mut out, self.size.height);
        out.push(10u8);
        push_decimal(&mut out, MAX_COLOR_CHANNEL as usize);
        out.push(10u8);
        proof {
            assert(out@ == ppm_header(self.size));
        }
        let ghost header = out@;
        let mut i: usize = 0;
        while i < self.pixel_data.len()
            invariant
                i <= self.pixel_data@.len(),
                header == ppm_header(self.size),
                out@ == header + ppm_lines(self.pixel_data@.subrange(0, i as int)),
            decreases self.pixel_data@.len() - i,
        {
            let c = self.pixel_data[i];
            let ghost before = out@;
            push_decimal(&mut out, c.r as usize);
            out.push(32u8);
            push_decimal(&mut out, c.g as usize);
            out.push(32u8);
            push_decimal(&mut out, c.b as usize);
            out.push(10u8);
            i = i + 1;
            proof {
                let done = self.pixel_data@.subrange(0, i as int);
                assert(done.drop_last() == self.pixel_data@.subrange(0, i - 1));
                assert(done.last() == c);
                assert(out@ == before + ppm_line(c));
            }
        }
        proof {
            assert(self.pixel_data@.subrange(0, i as int) == self.pixel_data@);
        }
        out
    }
}

} // verus!
