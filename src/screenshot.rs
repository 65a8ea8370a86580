use vstd::prelude::*;
use screenshots::image::{GenericImage, RgbaImage};

verus! {

/// An RGBA image as the `image` crate holds it.
#[derive(Debug)]
#[verifier::external_body]
pub struct Picture {
    pub rgba: RgbaImage,
}

/// The first `width * height` pixels of a picture, row by row, each as its
/// four channels.
pub uninterp spec fn rgba_pixels(img: Picture) -> Seq<[u8; 4]>;

/// The width a picture was made with.
pub uninterp spec fn rgba_width(img: Picture) -> nat;

/// The height a picture was made with.
pub uninterp spec fn rgba_height(img: Picture) -> nat;

/// The pixel in column `col` and row `row`.
pub open spec fn pixel_at(img: Picture, col: int, row: int) -> [u8; 4] {
    rgba_pixels(img)[row * rgba_width(img) + col]
}

impl Picture {
    /// Relies on `ImageBuffer::width`, which returns the width the buffer
    /// holds.
    #[verifier::external_body]
    fn width(&self) -> (r: u32)
        ensures
            r == rgba_width(*self),
    {
        self.rgba.width()
    }

    /// Relies on `ImageBuffer::height`, which returns the height the buffer
    /// holds.
    #[verifier::external_body]
    fn height(&self) -> (r: u32)
        ensures
            r == rgba_height(*self),
    {
        self.rgba.height()
    }

    /// Relies on `ImageBuffer::new`: an image of the given size with every
    /// channel zero. It panics when the channel count, computed as
    /// `4 * width` and then times `height`, overflows `usize`.
    #[verifier::external_body]
    fn blank(width: u32, height: u32) -> (r: Picture)
        requires
            4 * width <= usize::MAX,
            4 * width * height <= usize::MAX,
        ensures
            rgba_width(r) == width,
            rgba_height(r) == height,
            rgba_pixels(r) == Seq::new((width * height) as nat, |i: int| [0u8, 0u8, 0u8, 0u8]),
    {
        Picture { rgba: RgbaImage::new(width, height) }
    }

    /// Relies on `GenericImage::copy_from` (the trait's provided method, which
    /// `ImageBuffer` keeps): when `other` placed at `(x, y)` fits inside this
    /// picture, its pixels replace those under it and the rest stay;
    /// otherwise it fails and changes nothing. The sums `other.width() + x`
    /// and `other.height() + y` must not overflow.
    #[verifier::external_body]
    fn copy_from(&mut self, other: &Picture, x: u32, y: u32) -> (r: bool)
        requires
            rgba_width(*other) + x <= u32::MAX,
            rgba_height(*other) + y <= u32::MAX,
        ensures
            rgba_width(*final(self)) == rgba_width(*old(self)),
            rgba_height(*final(self)) == rgba_height(*old(self)),
            r == (rgba_width(*other) + x <= rgba_width(*old(self)) && rgba_height(*other) + y
                <= rgba_height(*old(self))),
            forall|c: int, rw: int|
                0 <= c < rgba_width(*old(self)) && 0 <= rw < rgba_height(*old(self))
                    ==> #[trigger] pixel_at(*final(self), c, rw) == if r && x <= c < x + rgba_width(
                    *other) && y <= rw < y + rgba_height(*other) {
                    pixel_at(*other, c - x, rw - y)
                } else {
                    pixel_at(*old(self), c, rw)
                },
    {
        self.rgba.copy_from(&other.rgba, x, y).is_ok()
    }
}

/// What one display showed, and where that display sits on the desktop.
#[derive(Debug)]
pub struct DisplayImage {
    pub x: i32,
    pub y: i32,
    pub image: Picture,
}

pub open spec fn seq_min(s: Seq<int>) -> int
    decreases s.len(),
{
    if s.len() <= 1 {
        s[0]
    } else {
        let m = seq_min(s.drop_last());
        if s.last() < m { s.last() } else { m }
    }
}

pub open spec fn seq_max(s: Seq<int>) -> int
    decreases s.len(),
{
    if s.len() <= 1 {
        s[0]
    } else {
        let m = seq_max(s.drop_last());
        if s.last() > m { s.last() } else { m }
    }
}

pub open spec fn lefts(ds: Seq<DisplayImage>) -> Seq<int> {
    ds.map_values(|d: DisplayImage| d.x as int)
}

pub open spec fn tops(ds: Seq<DisplayImage>) -> Seq<int> {
    ds.map_values(|d: DisplayImage| d.y as int)
}

pub open spec fn rights(ds: Seq<DisplayImage>) -> Seq<int> {
    ds.map_values(|d: DisplayImage| d.x + rgba_width(d.image))
}

pub open spec fn bottoms(ds: Seq<DisplayImage>) -> Seq<int> {
    ds.map_values(|d: DisplayImage| d.y + rgba_height(d.image))
}

pub open spec fn covers(d: DisplayImage, px: int, py: int) -> bool {
    d.x <= px < d.x + rgba_width(d.image) && d.y <= py < d.y + rgba_height(d.image)
}

/// The colour of desktop position `(px, py)`: that of the last display in
/// the list that covers it, else transparent black.
pub open spec fn desktop_pixel(ds: Seq<DisplayImage>, px: int, py: int) -> [u8; 4]
    decreases ds.len(),
{
    if ds.len() == 0 {
        [0u8, 0u8, 0u8, 0u8]
    } else if covers(ds.last(), px, py) {
        pixel_at(ds.last().image, px - ds.last().x, py - ds.last().y)
    } else {
        desktop_pixel(ds.drop_last(), px, py)
    }
}

/// Width and height of the box that holds every display.
pub open spec fn union_size(ds: Seq<DisplayImage>) -> (int, int) {
    (seq_max(rights(ds)) - seq_min(lefts(ds)), seq_max(bottoms(ds)) - seq_min(tops(ds)))
}

/// The union box fits an image whose channels can be counted in `usize`.
pub open spec fn union_fits(ds: Seq<DisplayImage>) -> bool {
    let (w, h) = union_size(ds);
    0 <= w <= u32::MAX && 0 <= h <= u32::MAX && 4 * w <= usize::MAX && 4 * w * h
        <= usize::MAX
}

proof fn lemma_min_step(s: Seq<int>, i: int)
    requires
        0 < i < s.len(),
    ensures
        seq_min(s.take(i + 1)) == if s[i] < seq_min(s.take(i)) { s[i] } else { seq_min(s.take(i)) },
        seq_max(s.take(i + 1)) == if s[i] > seq_max(s.take(i)) { s[i] } else { seq_max(s.take(i)) },
{
    assert(s.take(i + 1).drop_last() =~= s.take(i));
}

proof fn lemma_extremes(s: Seq<int>, j: int)
    requires
        0 <= j < s.len(),
    ensures
        seq_min(s) <= s[j] <= seq_max(s),
    decreases s.len(),
{
    if s.len() > 1 && j < s.len() - 1 {
        lemma_extremes(s.drop_last(), j);
    }
}

/// Composes what every display showed into one image that spans the box
/// around all displays, its top-left corner at the box's top-left corner.
/// Where displays overlap, the later one in the list is shown; where none
/// lies, the image is transparent black. There is no image when there is no
/// display, or when the box's channel count does not fit in `usize`.
pub fn take_screenshot_all_displays(displays: &Vec<DisplayImage>) -> (r: Option<Picture>)
    ensures
        r is Some <==> displays@.len() > 0 && union_fits(displays@),
        r matches Some(img) ==> {
            &&& rgba_width(img) == union_size(displays@).0
            &&& rgba_height(img) == union_size(displays@).1
            &&& forall|c: int, rw: int|
                0 <= c < rgba_width(img) && 0 <= rw < rgba_height(img) ==> #[trigger] pixel_at(
                    img,
                    c,
                    rw,
                ) == desktop_pixel(
                    displays@,
                    seq_min(lefts(displays@)) + c,
                    seq_min(tops(displays@)) + rw,
                )
        },
{
    let ghost ds = displays@;
    let n = displays.len();
    if n == 0 {
        return None;
    }
    let mut x_min: i64 = displays[0].x as i64;
    let mut y_min: i64 = displays[0].y as i64;
    let mut x_max: i64 = displays[0].x as i64 + displays[0].image.width() as i64;
    let mut y_max: i64 = displays[0].y as i64 + displays[0].image.height() as i64;
    let mut i: usize = 1;
    while i < n
        invariant
            1 <= i <= n,
            n == ds.len(),
            ds == displays@,
            x_min == seq_min(lefts(ds).take(i as int)),
            y_min == seq_min(tops(ds).take(i as int)),
            x_max == seq_max(rights(ds).take(i as int)),
            y_max == seq_max(bottoms(ds).take(i as int)),
            i32::MIN <= x_min <= i32::MAX,
            i32::MIN <= y_min <= i32::MAX,
            i32::MIN <= x_max <= i32::MAX + u32::MAX,
            i32::MIN <= y_max <= i32::MAX + u32::MAX,
        decreases n - i,
    {
        let d = &displays[i];
        let l: i64 = d.x as i64;
        let t: i64 = d.y as i64;
        let rt: i64 = d.x as i64 + d.image.width() as i64;
        let b: i64 = d.y as i64 + d.image.height() as i64;
        proof {
            lemma_min_step(lefts(ds), i as int);
            lemma_min_step(tops(ds), i as int);
            lemma_min_step(rights(ds), i as int);
            lemma_min_step(bottoms(ds), i as int);
        }
        if l < x_min {
            x_min = l;
        }
        if t < y_min {
            y_min = t;
        }
        if rt > x_max {
            x_max = rt;
        }
        if b > y_max {
            y_max = b;
        }
        i = i + 1;
    }
    proof {
        assert(lefts(ds).take(n as int) =~= lefts(ds));
        assert(tops(ds).take(n as int) =~= tops(ds));
        assert(rights(ds).take(n as int) =~= rights(ds));
        assert(bottoms(ds).take(n as int) =~= bottoms(ds));
    }
    let w: i64 = x_max - x_min;
    let h: i64 = y_max - y_min;
    if w < 0 || h < 0 || w > u32::MAX as i64 || h > u32::MAX as i64 {
        return None;
    }
    proof {
        assert(0 <= 4 * w * h <= 4 * u32::MAX * u32::MAX && 4 * w * h == 4 * (w * h)) by (nonlinear_arith)
            requires
                0 <= w <= u32::MAX,
                0 <= h <= u32::MAX,
        ;
    }
    let channels: u128 = 4 * (w as u128) * (h as u128);
    if 4 * (w as u128) > usize::MAX as u128 || channels > usize::MAX as u128 {
        return None;
    }
    let mut canvas = Picture::blank(w as u32, h as u32);
    proof {
        assert(ds.take(0) =~= Seq::<DisplayImage>::empty());
        assert forall|c: int, rw: int| 0 <= c < w && 0 <= rw < h implies #[trigger] pixel_at(
            canvas,
            c,
            rw,
        ) == desktop_pixel(ds.take(0), x_min + c, y_min + rw) by {
            assert(0 <= rw * w + c < w * h) by (nonlinear_arith)
                requires
                    0 <= c < w,
                    0 <= rw < h,
            ;
        }
    }
    let mut k: usize = 0;
    while k < n
        invariant
            k <= n,
            n == ds.len(),
            ds == displays@,
            0 <= w <= u32::MAX,
            0 <= h <= u32::MAX,
            x_min == seq_min(lefts(ds)),
            y_min == seq_min(tops(ds)),
            x_max == seq_max(rights(ds)),
            y_max == seq_max(bottoms(ds)),
            w == x_max - x_min,
            h == y_max - y_min,
            rgba_width(canvas) == w,
            rgba_height(canvas) == h,
            forall|c: int, rw: int|
                0 <= c < w && 0 <= rw < h ==> #[trigger] pixel_at(canvas, c, rw) == desktop_pixel(
                    ds.take(k as int),
                    x_min + c,
                    y_min + rw,
                ),
        decreases n - k,
    {
        let d = &displays[k];
        proof {
            lemma_extremes(lefts(ds), k as int);
            lemma_extremes(tops(ds), k as int);
            lemma_extremes(rights(ds), k as int);
            lemma_extremes(bottoms(ds), k as int);
        }
        let ox: u32 = (d.x as i64 - x_min) as u32;
        let oy: u32 = (d.y as i64 - y_min) as u32;
        let ghost before = canvas;
        let copied = canvas.copy_from(&d.image, ox, oy);
        proof {
            assert(copied);
            assert(ds.take(k + 1).drop_last() =~= ds.take(k as int));
            assert(ds.take(k + 1).last() == ds[k as int]);
            assert forall|c: int, rw: int| 0 <= c < w && 0 <= rw < h implies #[trigger] pixel_at(
                canvas,
                c,
                rw,
            ) == desktop_pixel(ds.take(k + 1), x_min + c, y_min + rw) by {
                assert(pixel_at(before, c, rw) == desktop_pixel(ds.take(k as int), x_min + c, y_min + rw));
            }
        }
        k = k + 1;
    }
    proof {
        assert(ds.take(n as int) =~= ds);
    }
    Some(canvas)
}

} // verus!
