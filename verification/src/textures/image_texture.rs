use vstd::prelude::*;

use crate::utils::swap_elements;

verus! {

/// Texel values that can be scaled by a colour factor `S`.
pub trait ImageTextureData<S>: Sized {
    /// The value scaled by `factor`.
    spec fn scaled(self, factor: S) -> Self;

    /// Scales the value by `factor`.
    fn scale(&mut self, factor: &S)
        ensures
            *final(self) == old(self).scaled(*factor),
    ;
}

/// How texel data is prepared: every texel is scaled by `scale`, and the
/// rows are put bottom-up when `flip` is set (texture coordinates have
/// their origin at the lower left corner, images at the upper left).
pub struct ImageTextureParams<S> {
    pub scale: S,
    pub flip: bool,
}

/// Position of texel (row `r`, column `c`) in row-major storage of rows
/// of `w` texels.
pub open spec fn pixel(r: int, c: int, w: int) -> int {
    r * w + c
}

/// The storage position of the texel at column `i`, row `j`, each clamped
/// to the last column and row of a `width` by `height` image.
pub open spec fn texel_offset(i: int, j: int, width: int, height: int) -> int {
    let ci = if i > width - 1 { width - 1 } else { i };
    let cj = if j > height - 1 { height - 1 } else { j };
    ci + width * cj
}

/// A clamped texel offset lies inside the image.
pub proof fn lemma_texel_offset_inside(i: int, j: int, width: int, height: int)
    requires
        0 <= i,
        0 <= j,
        0 < width,
        0 < height,
    ensures
        0 <= texel_offset(i, j, width, height) < width * height,
{
    let ci = if i > width - 1 { width - 1 } else { i };
    let cj = if j > height - 1 { height - 1 } else { j };
    assert(0 <= ci + width * cj < width * height) by (nonlinear_arith)
        requires
            0 <= ci < width,
            0 <= cj < height,
    ;
}

/// Distinct rows and columns give distinct storage positions.
pub proof fn lemma_pixel_unique(r1: int, c1: int, r2: int, c2: int, w: int)
    requires
        0 <= r1,
        0 <= r2,
        0 <= c1 < w,
        0 <= c2 < w,
        pixel(r1, c1, w) == pixel(r2, c2, w),
    ensures
        r1 == r2,
        c1 == c2,
{
    if r1 < r2 {
        assert(r1 * w + w <= r2 * w) by (nonlinear_arith)
            requires
                r1 + 1 <= r2,
                0 < w,
        ;
    } else if r2 < r1 {
        assert(r2 * w + w <= r1 * w) by (nonlinear_arith)
            requires
                r2 + 1 <= r1,
                0 < w,
        ;
    }
}

/// A texel inside the image is stored before `w * h`.
pub proof fn lemma_pixel_inside(r: int, c: int, w: int, h: int)
    requires
        0 <= r < h,
        0 <= c < w,
    ensures
        0 <= pixel(r, c, w) < w * h,
{
    assert(0 <= r * w + c < w * h) by (nonlinear_arith)
        requires
            0 <= r < h,
            0 <= c < w,
    ;
}

/// Row-major texel storage of a `width` by `height` image.
pub struct MipMap<T> {
    data: Vec<T>,
    width: usize,
    height: usize,
}

impl<T: Copy> MipMap<T> {
    pub closed spec fn spec_data(&self) -> Seq<T> {
        self.data@
    }

    pub closed spec fn spec_width(&self) -> nat {
        self.width as nat
    }

    pub closed spec fn spec_height(&self) -> nat {
        self.height as nat
    }

    /// Storage of `data` as an image of the given size.
    pub fn new(width: usize, height: usize, data: Vec<T>) -> (m: Self)
        ensures
            m.spec_width() == width,
            m.spec_height() == height,
            m.spec_data() == data@,
    {
        MipMap { data, width, height }
    }

    /// The texel at column `i` and row `j`, each clamped to the image.
    pub fn get_value(&self, i: usize, j: usize) -> (v: T)
        requires
            self.spec_width() > 0,
            self.spec_height() > 0,
            self.spec_width() * self.spec_height() <= self.spec_data().len(),
        ensures
            v == self.spec_data()[texel_offset(i as int, j as int, self.spec_width() as int, self.spec_height() as int)],
    {
        let n = self.data.len();
        let k = texel_index(i, j, self.width, self.height);
        proof {
            lemma_texel_offset_inside(i as int, j as int, self.width as int, self.height as int);
        }
        self.data[k]
    }
}

/// The storage position of the texel at column `i`, row `j` of a `width`
/// by `height` image, each clamped to the last column and row.
pub fn texel_index(i: usize, j: usize, width: usize, height: usize) -> (k: usize)
    requires
        width > 0,
        height > 0,
        width * height <= usize::MAX,
    ensures
        k == texel_offset(i as int, j as int, width as int, height as int),
{
    let mut ci = i;
    let mut cj = j;
    if ci > width - 1 {
        ci = width - 1;
    }
    if cj > height - 1 {
        cj = height - 1;
    }
    proof {
        lemma_texel_offset_inside(i as int, j as int, width as int, height as int);
    }
    ci + width * cj
}

/// An image used as a texture.
pub struct ImageTexture<T> {
    mipmap: MipMap<T>,
}

impl<T: Copy> ImageTexture<T> {
    pub closed spec fn spec_mipmap(&self) -> &MipMap<T> {
        &self.mipmap
    }

    /// The image's width, in texels.
    pub fn width(&self) -> (w: usize)
        ensures
            w == self.spec_mipmap().spec_width(),
    {
        self.mipmap.width
    }

    /// The image's height, in texels.
    pub fn height(&self) -> (h: usize)
        ensures
            h == self.spec_mipmap().spec_height(),
    {
        self.mipmap.height
    }

    /// The number of texels stored.
    pub fn stored_len(&self) -> (n: usize)
        ensures
            n == self.spec_mipmap().spec_data().len(),
    {
        self.mipmap.data.len()
    }

    /// The texel at column `i` and row `j` of the stored image, each
    /// clamped to the image.
    pub fn texel(&self, i: usize, j: usize) -> (v: T)
        requires
            self.spec_mipmap().spec_width() > 0,
            self.spec_mipmap().spec_height() > 0,
            self.spec_mipmap().spec_width() * self.spec_mipmap().spec_height() <= self.spec_mipmap().spec_data().len(),
        ensures
            v == self.spec_mipmap().spec_data()[texel_offset(
                i as int,
                j as int,
                self.spec_mipmap().spec_width() as int,
                self.spec_mipmap().spec_height() as int,
            )],
    {
        self.mipmap.get_value(i, j)
    }
}

impl<T: Copy> ImageTexture<T> {
    /// The texture made of the `width` by `height` image `data` (row-major,
    /// top row first): every texel is scaled by `params.scale`, and when
    /// `params.flip` is set the rows of the image are stored in reverse
    /// order. Texels stored beyond the image are kept, scaled, in place.
    pub fn new<S: Copy>(width: usize, height: usize, data: Vec<T>, params: ImageTextureParams<S>) -> (t: Self)
        where
            T: ImageTextureData<S>,
        requires
            params.flip ==> width * height <= data@.len(),
        ensures
            t.spec_mipmap().spec_width() == width,
            t.spec_mipmap().spec_height() == height,
            t.spec_mipmap().spec_data().len() == data@.len(),
            !params.flip ==> forall|o: int|
                0 <= o < data@.len() ==> t.spec_mipmap().spec_data()[o] == data@[o].scaled(params.scale),
            params.flip ==> forall|r: int, c: int|
                0 <= r < height && 0 <= c < width ==> t.spec_mipmap().spec_data()[pixel(r, c, width as int)]
                    == data@[pixel(height - 1 - r, c, width as int)].scaled(params.scale),
            params.flip ==> forall|o: int|
                width * height <= o < data@.len() ==> t.spec_mipmap().spec_data()[o] == data@[o].scaled(params.scale),
    {
        let scale = params.scale;
        let mut scaled: Vec<T> = Vec::new();
        let mut k: usize = 0;
        while k < data.len()
            invariant
                k <= data@.len(),
                scaled@.len() == k,
                forall|o: int| 0 <= o < k ==> scaled@[o] == data@[o].scaled(scale),
            decreases data@.len() - k,
        {
            let mut v = data[k];
            v.scale(&scale);
            scaled.push(v);
            k = k + 1;
        }
        let ghost sc = scaled@;
        if params.flip {
            flip_rows(&mut scaled, width, height);
            assert forall|r: int, c: int| 0 <= r < height && 0 <= c < width implies scaled@[pixel(r, c, width as int)]
                == data@[pixel(height - 1 - r, c, width as int)].scaled(scale) by {
                lemma_pixel_inside(height - 1 - r, c, width as int, height as int);
                assert(scaled@[pixel(r, c, width as int)] == sc[pixel(height - 1 - r, c, width as int)]);
            }
        }
        ImageTexture { mipmap: MipMap::new(width, height, scaled) }
    }
}

/// Reverses the order of the first `height` rows of `width` texels.
fn flip_rows<T>(data: &mut Vec<T>, width: usize, height: usize)
    requires
        width * height <= old(data)@.len(),
    ensures
        final(data)@.len() == old(data)@.len(),
        forall|r: int, c: int|
            0 <= r < height && 0 <= c < width ==> #[trigger] final(data)@[pixel(r, c, width as int)]
                == old(data)@[pixel(height - 1 - r, c, width as int)],
        forall|o: int| width * height <= o < old(data)@.len() ==> final(data)@[o] == old(data)@[o],
{
    let n = data.len();
    let ghost sc = data@;
    let ghost w = width as int;
    let ghost h = height as int;
    let half = height / 2;
    let mut y: usize = 0;
    while y < half
        invariant
            half == height / 2,
            y <= half,
            w == width,
            h == height,
            w * h <= sc.len(),
            sc.len() == n,
            data@.len() == sc.len(),
            forall|r: int, c: int|
                0 <= r < h && 0 <= c < w ==> #[trigger] data@[pixel(r, c, w)] == (if r < y || r > h - 1 - y {
                    sc[pixel(h - 1 - r, c, w)]
                } else {
                    sc[pixel(r, c, w)]
                }),
            forall|o: int| w * h <= o < sc.len() ==> data@[o] == sc[o],
        decreases half - y,
    {
        let mut x: usize = 0;
        while x < width
            invariant
                half == height / 2,
                y < half,
                x <= width,
                w == width,
                h == height,
                w * h <= sc.len(),
                sc.len() == n,
                data@.len() == sc.len(),
                forall|r: int, c: int|
                    0 <= r < h && 0 <= c < w ==> #[trigger] data@[pixel(r, c, w)] == (if r < y || r > h - 1 - y
                        || ((r == y || r == h - 1 - y) && c < x) {
                        sc[pixel(h - 1 - r, c, w)]
                    } else {
                        sc[pixel(r, c, w)]
                    }),
                forall|o: int| w * h <= o < sc.len() ==> data@[o] == sc[o],
            decreases width - x,
        {
            let ghost before = data@;
            let ghost yy = y as int;
            let ghost xx = x as int;
            proof {
                lemma_pixel_inside(yy, xx, w, h);
                lemma_pixel_inside(h - 1 - yy, xx, w, h);
            }
            let o1 = y * width + x;
            let o2 = (height - 1 - y) * width + x;
            assert(o1 == pixel(yy, xx, w));
            assert(o2 == pixel(h - 1 - yy, xx, w));
            swap_elements(data, o1, o2);
            assert forall|r: int, c: int| 0 <= r < h && 0 <= c < w implies #[trigger] data@[pixel(r, c, w)] == (if r < y || r
                > h - 1 - y || ((r == y || r == h - 1 - y) && c < x + 1) {
                sc[pixel(h - 1 - r, c, w)]
            } else {
                sc[pixel(r, c, w)]
            }) by {
                lemma_pixel_inside(r, c, w, h);
                if pixel(r, c, w) == o1 {
                    lemma_pixel_unique(r, c, yy, xx, w);
                    assert(before[pixel(h - 1 - yy, xx, w)] == sc[pixel(h - 1 - yy, xx, w)]);
                } else if pixel(r, c, w) == o2 {
                    lemma_pixel_unique(r, c, h - 1 - yy, xx, w);
                    assert(before[pixel(yy, xx, w)] == sc[pixel(yy, xx, w)]);
                } else {
                    assert(data@[pixel(r, c, w)] == before[pixel(r, c, w)]);
                    if r == yy || r == h - 1 - yy {
                        assert(c != xx) by {
                            if c == xx {
                                assert(pixel(r, c, w) == o1 || pixel(r, c, w) == o2);
                            }
                        }
                    }
                }
            }
            assert forall|o: int| w * h <= o < sc.len() implies data@[o] == sc[o] by {
                assert(o != o1 && o != o2);
            }
            x = x + 1;
        }
        y = y + 1;
    }
    assert forall|r: int, c: int| 0 <= r < h && 0 <= c < w implies #[trigger] data@[pixel(r, c, w)] == sc[pixel(h - 1 - r, c, w)] by {
        if !(r < y || r > h - 1 - y) {
            assert(r == h - 1 - r);
        }
    }
}

} // verus!
