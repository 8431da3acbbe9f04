//! Bitmaps with four bytes to the pixel (red, green, blue, alpha), stored row by
//! row from the top-left corner, and the cutting of rectangles out of them.
use vstd::arithmetic::div_mod::*;
use vstd::arithmetic::mul::*;
use vstd::prelude::*;

verus! {

/// The smaller of two lengths.
pub open spec fn shorter(a: nat, b: nat) -> nat {
    if a <= b {
        a
    } else {
        b
    }
}

/// The byte of channel `c` of the pixel in column `x` and row `y`, in a buffer
/// whose rows are `width` pixels long.
pub open spec fn channel_at(bytes: Seq<u8>, width: int, x: int, y: int, c: int) -> u8 {
    bytes[(y * width + x) * 4 + c]
}

/// What a picture is: its size in pixels and its bytes.
pub struct PictureView {
    pub width: nat,
    pub height: nat,
    pub bytes: Seq<u8>,
}

impl PictureView {
    /// The buffer holds exactly the pixels of the stated size.
    pub open spec fn well_formed(self) -> bool {
        self.bytes.len() == 4 * self.width * self.height
    }

    /// The byte of channel `c` of the pixel in column `x` and row `y`.
    pub open spec fn channel(self, x: int, y: int, c: int) -> u8 {
        channel_at(self.bytes, self.width as int, x, y, c)
    }

    /// The column at which a cut asked for at column `x` starts.
    pub open spec fn cut_left(self, x: nat) -> nat {
        shorter(x, self.width)
    }

    /// The row at which a cut asked for at row `y` starts.
    pub open spec fn cut_top(self, y: nat) -> nat {
        shorter(y, self.height)
    }

    /// The width of a cut asked for at column `x` with width `w`.
    pub open spec fn cut_width(self, x: nat, w: nat) -> nat {
        shorter(w, (self.width - self.cut_left(x)) as nat)
    }

    /// The height of a cut asked for at row `y` with height `h`.
    pub open spec fn cut_height(self, y: nat, h: nat) -> nat {
        shorter(h, (self.height - self.cut_top(y)) as nat)
    }

    /// The rectangle with top-left corner `(x, y)`, width `w` and height `h`,
    /// cut down to what lies inside the picture.
    pub open spec fn crop(self, x: nat, y: nat, w: nat, h: nat) -> PictureView {
        let left = self.cut_left(x) as int;
        let top = self.cut_top(y) as int;
        let width = self.cut_width(x, w);
        let height = self.cut_height(y, h);
        PictureView {
            width,
            height,
            bytes: Seq::new(
                4 * width * height,
                |k: int| self.channel(left + (k / 4) % (width as int), top + (k / 4) / (width as int), k % 4),
            ),
        }
    }
}

/// Where byte `k` of a buffer with rows of `width` pixels lies: the column is
/// `(k / 4) % width`, the row `(k / 4) / width`, the channel `k % 4`, the row is
/// one of the `height` rows, and the three give `k` back.
pub proof fn lemma_byte_position(k: int, width: int, height: int)
    requires
        0 < width,
        0 <= height,
        0 <= k < 4 * width * height,
    ensures
        0 <= (k / 4) % width < width,
        0 <= (k / 4) / width < height,
        0 <= k % 4 < 4,
        (((k / 4) / width) * width + (k / 4) % width) * 4 + k % 4 == k,
{
    let p = k / 4;
    lemma_fundamental_div_mod(k, 4);
    lemma_fundamental_div_mod(p, width);
    assert(4 * width * height == 4 * (width * height)) by (nonlinear_arith);
    assert(p < width * height);
    assert(0 <= p / width) by {
        lemma_div_pos_is_pos(p, width);
    }
    assert(p / width < height) by {
        lemma_multiply_divide_lt(p, width, height);
    }
    lemma_mod_bound(p, width);
    assert(((p / width) * width + p % width) == p) by {
        lemma_mul_is_commutative(p / width, width);
    }
}

/// The bytes of pixel `(x, y)` start at `(y * width + x) * 4`, which
/// `lemma_byte_position` takes apart again.
pub proof fn lemma_position_byte(x: int, y: int, c: int, width: int, height: int)
    requires
        0 <= x < width,
        0 <= y < height,
        0 <= c < 4,
    ensures
        0 <= (y * width + x) * 4 + c < 4 * width * height,
        ((y * width + x) * 4 + c) % 4 == c,
        (((y * width + x) * 4 + c) / 4) % width == x,
        (((y * width + x) * 4 + c) / 4) / width == y,
{
    let p = y * width + x;
    let k = p * 4 + c;
    assert(0 <= y * width) by (nonlinear_arith)
        requires
            0 <= y,
            0 < width,
    ;
    assert(y * width + width <= height * width) by (nonlinear_arith)
        requires
            y < height,
            0 < width,
    ;
    assert(4 * width * height == 4 * (height * width)) by (nonlinear_arith);
    lemma_fundamental_div_mod_converse(k, 4, p, c);
    lemma_fundamental_div_mod_converse(p, width, y, x);
}

/// Each pixel of a cut is the pixel of the source that lies under it.
pub proof fn lemma_crop_channel(src: PictureView, x: nat, y: nat, w: nat, h: nat, i: int, j: int, c: int)
    requires
        0 <= i < src.cut_width(x, w),
        0 <= j < src.cut_height(y, h),
        0 <= c < 4,
    ensures
        src.crop(x, y, w, h).well_formed(),
        src.crop(x, y, w, h).channel(i, j, c) == src.channel(src.cut_left(x) + i, src.cut_top(y) + j, c),
{
    let width = src.cut_width(x, w) as int;
    let height = src.cut_height(y, h) as int;
    lemma_position_byte(i, j, c, width, height);
}

/// A rectangle that lies inside the picture is cut out as asked: its corner and
/// its size stay as they are.
pub proof fn lemma_crop_inside(src: PictureView, x: nat, y: nat, w: nat, h: nat)
    requires
        x + w <= src.width,
        y + h <= src.height,
    ensures
        src.cut_left(x) == x,
        src.cut_top(y) == y,
        src.crop(x, y, w, h).width == w,
        src.crop(x, y, w, h).height == h,
{
}

/// A bitmap with four bytes to the pixel.
#[derive(Debug)]
pub struct Picture {
    width: u32,
    height: u32,
    data: Vec<u8>,
}

impl View for Picture {
    type V = PictureView;

    closed spec fn view(&self) -> PictureView {
        PictureView { width: self.width as nat, height: self.height as nat, bytes: self.data@ }
    }
}

impl Clone for Picture {
    /// A second picture of the same size with the same bytes.
    fn clone(&self) -> (copy: Self)
        ensures
            copy@ == self@,
    {
        proof {
            use_type_invariant(self);
        }
        let data = self.data.clone();
        assert(data@ =~= self.data@);
        Picture { width: self.width, height: self.height, data }
    }
}

/// What `image::imageops::crop_imm` and `SubImage::to_image` of the `image` crate
/// give for a buffer of RGBA bytes: the size of the cut and its bytes.
///
/// The contract says what the crate's source shows. The corner is first moved
/// back onto the picture (`min(x, width)`, `min(y, height)`), then the size is
/// shortened to what is left from there. The new buffer holds exactly the cut's
/// pixels, and each is the source's pixel at the same place, counted from the
/// cut's corner.
#[verifier::external_body]
fn crop_rgba8(data: &Vec<u8>, width: u32, height: u32, x: u32, y: u32, w: u32, h: u32) -> (out: (
    u32,
    u32,
    Vec<u8>,
))
    requires
        data@.len() == 4 * width * height,
    ensures
        out.0 == shorter(w as nat, (width - shorter(x as nat, width as nat)) as nat),
        out.1 == shorter(h as nat, (height - shorter(y as nat, height as nat)) as nat),
        out.2@.len() == 4 * out.0 * out.1,
        forall|i: int, j: int, c: int|
            0 <= i < out.0 && 0 <= j < out.1 && 0 <= c < 4 ==> #[trigger] channel_at(
                out.2@,
                out.0 as int,
                i,
                j,
                c,
            ) == channel_at(
                data@,
                width as int,
                shorter(x as nat, width as nat) + i,
                shorter(y as nat, height as nat) + j,
                c,
            ),
{
    let source: image::RgbaImage = image::ImageBuffer::from_raw(width, height, data.clone()).unwrap();
    let cut = image::imageops::crop_imm(&source, x, y, w, h).to_image();
    (cut.width(), cut.height(), cut.into_raw())
}

impl Picture {
    #[verifier::type_invariant]
    spec fn holds_its_pixels(&self) -> bool {
        self.data@.len() == 4 * self.width * self.height
    }

    /// Makes a picture of `width` by `height` pixels from its bytes, or nothing
    /// where `data` is not exactly four bytes for each pixel.
    pub fn from_raw(width: u32, height: u32, data: Vec<u8>) -> (made: Option<Picture>)
        ensures
            made is Some <==> data@.len() == 4 * width * height,
            made matches Some(picture) ==> picture@ == (PictureView {
                width: width as nat,
                height: height as nat,
                bytes: data@,
            }),
    {
        assert(width * height <= 0xFFFF_FFFF * 0xFFFF_FFFF) by (nonlinear_arith)
            requires
                0 <= width <= 0xFFFF_FFFF,
                0 <= height <= 0xFFFF_FFFF,
        ;
        let pixels: u64 = width as u64 * height as u64;
        assert(4 * width * height == 4 * pixels) by (nonlinear_arith)
            requires
                pixels == width * height,
        ;
        let len: usize = data.len();
        if pixels <= u64::MAX / 4 && len as u64 == 4 * pixels {
            Some(Picture { width, height, data })
        } else {
            None
        }
    }

    /// The width in pixels.
    pub fn width(&self) -> (width: u32)
        ensures
            width == self@.width,
    {
        self.width
    }

    /// The height in pixels.
    pub fn height(&self) -> (height: u32)
        ensures
            height == self@.height,
    {
        self.height
    }

    /// Width and height in pixels.
    pub fn dimensions(&self) -> (size: (u32, u32))
        ensures
            size.0 == self@.width,
            size.1 == self@.height,
    {
        (self.width, self.height)
    }

    /// The bytes, row by row.
    pub fn as_raw(&self) -> (bytes: &Vec<u8>)
        ensures
            bytes@ == self@.bytes,
            self@.well_formed(),
    {
        proof {
            use_type_invariant(self);
        }
        &self.data
    }

    /// The bytes, row by row, given away.
    pub fn into_raw(self) -> (bytes: Vec<u8>)
        ensures
            bytes@ == self@.bytes,
            self@.well_formed(),
    {
        proof {
            use_type_invariant(&self);
        }
        self.data
    }

    /// The four bytes of the pixel in column `x` and row `y`, or nothing where
    /// the picture has no such pixel.
    pub fn get_pixel(&self, x: u32, y: u32) -> (pixel: Option<[u8; 4]>)
        ensures
            pixel is Some <==> x < self@.width && y < self@.height,
            pixel matches Some(p) ==> forall|c: int|
                0 <= c < 4 ==> #[trigger] p[c] == self@.channel(x as int, y as int, c),
    {
        proof {
            use_type_invariant(self);
        }
        if x >= self.width || y >= self.height {
            return None;
        }
        proof {
            lemma_position_byte(x as int, y as int, 0, self.width as int, self.height as int);
            lemma_position_byte(x as int, y as int, 3, self.width as int, self.height as int);
            assert(0 <= y * self.width) by (nonlinear_arith)
                requires
                    0 <= y,
                    0 <= self.width,
            ;
            assert((y * self.width + x) * 4 + 3 < self.data.len());
        }
        let start: usize = (y as usize * self.width as usize + x as usize) * 4;
        Some([self.data[start], self.data[start + 1], self.data[start + 2], self.data[start + 3]])
    }

    /// Cuts out the rectangle with top-left corner `(x, y)`, width `width` and
    /// height `height`, cut down to what lies inside the picture.
    pub fn crop_imm(&self, x: u32, y: u32, width: u32, height: u32) -> (cut: Picture)
        ensures
            cut@ == self@.crop(x as nat, y as nat, width as nat, height as nat),
    {
        proof {
            use_type_invariant(self);
        }
        let (cut_width, cut_height, data) = crop_rgba8(&self.data, self.width, self.height, x, y, width, height);
        let ghost want = self@.crop(x as nat, y as nat, width as nat, height as nat);
        assert(data@ =~= want.bytes) by {
            assert forall|k: int| 0 <= k < data@.len() implies data@[k] == want.bytes[k] by {
                assert(cut_width > 0) by (nonlinear_arith)
                    requires
                        0 <= k < 4 * cut_width * cut_height,
                ;
                lemma_byte_position(k, cut_width as int, cut_height as int);
                let i = (k / 4) % (cut_width as int);
                let j = (k / 4) / (cut_width as int);
                assert(data@[k] == channel_at(data@, cut_width as int, i, j, k % 4));
            }
        }
        Picture { width: cut_width, height: cut_height, data }
    }
}

} // verus!
