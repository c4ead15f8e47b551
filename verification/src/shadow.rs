//! The soft shadow around decorated windows: how its outline is blurred and laid under the pixels.

use vstd::prelude::*;

verus! {

/// How often the outline of a shadow is blurred.
pub const WINDOW_SHADOW_BLUR_PASSES: usize = 3;

/// The widest blur whose sums fit however long a line is.
pub const MAX_BLUR_RADIUS: usize = 32768;

/// The longest line whose sums fit however wide the blur is.
pub const MAX_BLURRED_LINE: usize = 65537;

/// A pixel whose colours are multiplied by its alpha.
#[derive(Clone, Copy, Debug, PartialEq, Eq, Structural)]
pub struct Pixel {
    pub red: u8,
    pub green: u8,
    pub blue: u8,
    pub alpha: u8,
}

/// Where an element of a line in an image stands.
pub open spec fn place(start: int, stride: int, k: int) -> int {
    start + k * stride
}

/// The sum of the values at `lo`, ..., `hi - 1` of a line in an image.
pub open spec fn line_sum(src: Seq<u16>, start: int, stride: int, lo: int, hi: int) -> int
    decreases hi - lo,
{
    if hi <= lo {
        0
    } else {
        line_sum(src, start, stride, lo, hi - 1) + src[place(start, stride, hi - 1)]
    }
}

/// The first place of the window around a place.
pub open spec fn window_start(i: int, radius: int) -> int {
    if i < radius {
        0
    } else {
        i - radius
    }
}

/// The place after the window around a place.
pub open spec fn window_end(i: int, radius: int, count: int) -> int {
    if i + radius + 1 < count {
        i + radius + 1
    } else {
        count
    }
}

/// Whether the sums over all windows of a line fit, and the width of a window does.
pub open spec fn blur_fits(count: int, radius: int) -> bool {
    &&& 2 * radius + 1 <= u32::MAX
    &&& radius <= MAX_BLUR_RADIUS || count <= MAX_BLURRED_LINE
}

/// The mean of a line around a place. What lies outside the line counts as nothing.
pub open spec fn line_mean(
    src: Seq<u16>,
    start: int,
    stride: int,
    count: int,
    i: int,
    radius: int,
) -> int {
    line_sum(src, start, stride, window_start(i, radius), window_end(i, radius, count)) / (2
        * radius + 1)
}

/// An image whose rows are blurred.
pub open spec fn rows_blurred(src: Seq<u16>, width: int, radius: int) -> Seq<u16> {
    if radius == 0 {
        src
    } else {
        Seq::new(
            src.len(),
            |i: int| line_mean(src, (i / width) * width, 1, width, i % width, radius) as u16,
        )
    }
}

/// An image whose columns are blurred.
pub open spec fn columns_blurred(src: Seq<u16>, width: int, height: int, radius: int) -> Seq<u16> {
    if radius == 0 {
        src
    } else {
        Seq::new(
            src.len(),
            |i: int| line_mean(src, i % width, width, height, i / width, radius) as u16,
        )
    }
}

/// An image that has been blurred in both directions a number of times.
pub open spec fn blurred(src: Seq<u16>, width: int, height: int, radius: int, passes: nat) -> Seq<u16>
    decreases passes,
{
    if passes == 0 {
        src
    } else {
        columns_blurred(
            rows_blurred(blurred(src, width, height, radius, (passes - 1) as nat), width, radius),
            width,
            height,
            radius,
        )
    }
}

proof fn lemma_line_sum_bound(src: Seq<u16>, start: int, stride: int, lo: int, hi: int, most: int)
    requires
        lo <= hi,
        forall|k: int| lo <= k < hi ==> src[#[trigger] place(start, stride, k)] <= most,
    ensures
        0 <= line_sum(src, start, stride, lo, hi) <= (hi - lo) * most,
    decreases hi - lo,
{
    if lo < hi {
        lemma_line_sum_bound(src, start, stride, lo, hi - 1, most);
        assert(src[place(start, stride, hi - 1)] <= most);
        assert((hi - lo) * most == (hi - 1 - lo) * most + most) by (nonlinear_arith);
    } else {
        assert((hi - lo) * most == 0) by (nonlinear_arith)
            requires
                hi == lo,
        ;
    }
}

proof fn lemma_line_sum_drop_first(src: Seq<u16>, start: int, stride: int, lo: int, hi: int)
    requires
        lo < hi,
    ensures
        line_sum(src, start, stride, lo, hi) == src[place(start, stride, lo)] + line_sum(
            src,
            start,
            stride,
            lo + 1,
            hi,
        ),
    decreases hi - lo,
{
    if lo + 1 < hi {
        lemma_line_sum_drop_first(src, start, stride, lo, hi - 1);
    } else {
        assert(line_sum(src, start, stride, lo, lo) == 0);
        assert(line_sum(src, start, stride, lo + 1, hi) == 0);
    }
}

/// What is known of the places of a line that fits into an image.
spec fn line_fits(start: int, stride: int, count: int, len: int) -> bool {
    &&& forall|k: int| 0 <= k < count ==> start <= #[trigger] place(start, stride, k) < len
    &&& forall|j: int, k: int|
        0 <= j < k < count ==> #[trigger] place(start, stride, j) < #[trigger] place(
            start,
            stride,
            k,
        )
}

proof fn lemma_line_fits(start: int, stride: int, count: int, len: int)
    requires
        0 < stride,
        count > 0 ==> start + (count - 1) * stride < len,
    ensures
        line_fits(start, stride, count, len),
{
    assert forall|k: int| 0 <= k < count implies start <= #[trigger] place(start, stride, k)
        < len by {
        assert(0 <= k * stride <= (count - 1) * stride) by (nonlinear_arith)
            requires
                0 <= k <= count - 1,
                0 < stride,
        ;
    }
    assert forall|j: int, k: int| 0 <= j < k < count implies #[trigger] place(start, stride, j)
        < #[trigger] place(start, stride, k) by {
        assert(j * stride < k * stride) by (nonlinear_arith)
            requires
                j < k,
                0 < stride,
        ;
    }
}

/// The index of a place that fits.
fn index_of(start: usize, stride: usize, k: usize, Ghost(count): Ghost<int>, Ghost(len): Ghost<int>) -> (
i: usize)
    requires
        line_fits(start as int, stride as int, count, len),
        k < count,
        len <= usize::MAX,
    ensures
        i == place(start as int, stride as int, k as int),
        start <= i < len,
{
    assert(start <= place(start as int, stride as int, k as int) < len);
    assert(0 <= k * stride) by (nonlinear_arith);
    start + k * stride
}

/// Blurs one line of an image into another image.
fn blur_line(
    src: &Vec<u16>,
    dst: &mut Vec<u16>,
    start: usize,
    stride: usize,
    count: usize,
    radius: usize,
)
    requires
        0 < radius,
        blur_fits(count as int, radius as int),
        0 < stride,
        src@.len() == old(dst)@.len(),
        count > 0 ==> start + (count - 1) * stride < src@.len(),
    ensures
        final(dst)@.len() == old(dst)@.len(),
        forall|k: int|
            0 <= k < count ==> final(dst)@[#[trigger] place(start as int, stride as int, k)]
                == line_mean(
                src@,
                start as int,
                stride as int,
                count as int,
                k,
                radius as int,
            ),
        forall|i: int|
            0 <= i < final(dst)@.len() && (forall|k: int|
                0 <= k < count ==> i != #[trigger] place(start as int, stride as int, k))
                ==> final(dst)@[i] == old(dst)@[i],
{
    let divisor: u32 = (radius * 2 + 1) as u32;
    let total: usize = src.len();
    let ghost s = start as int;
    let ghost d = stride as int;
    proof {
        lemma_line_fits(s, d, count as int, total as int);
    }
    let mut sum: u32 = 0;
    let mut hi: usize = 0;
    while hi < count && hi <= radius
        invariant
            hi <= count,
            hi <= radius + 1,
            0 < radius,
            blur_fits(count as int, radius as int),
            s == start,
            d == stride,
            total == src@.len(),
            line_fits(s, d, count as int, total as int),
            sum == line_sum(src@, s, d, 0, hi as int),
            sum <= hi * 65535,
        decreases count - hi,
    {
        let at = index_of(start, stride, hi, Ghost(count as int), Ghost(total as int));
        sum = sum + src[at] as u32;
        hi = hi + 1;
    }
    let mut i: usize = 0;
    let ghost before = dst@;
    while i < count
        invariant
            i <= count,
            0 < radius,
            blur_fits(count as int, radius as int),
            divisor == 2 * radius + 1,
            s == start,
            d == stride,
            total == src@.len(),
            before == old(dst)@,
            before.len() == total,
            dst@.len() == total,
            line_fits(s, d, count as int, total as int),
            hi <= count,
            i < count ==> hi == window_end(i as int, radius as int, count as int),
            i < count ==> sum == line_sum(
                src@,
                s,
                d,
                window_start(i as int, radius as int),
                hi as int,
            ),
            forall|k: int|
                0 <= k < i ==> dst@[#[trigger] place(s, d, k)] == line_mean(
                    src@,
                    s,
                    d,
                    count as int,
                    k,
                    radius as int,
                ),
            forall|n: int|
                0 <= n < total && (forall|k: int| 0 <= k < count ==> n != #[trigger] place(s, d, k))
                    ==> dst@[n] == before[n],
        decreases count - i,
    {
        let ghost lo = window_start(i as int, radius as int);
        proof {
            lemma_line_sum_bound(src@, s, d, lo, hi as int, 65535);
            assert(sum <= (2 * radius + 1) * 65535) by (nonlinear_arith)
                requires
                    sum <= (hi - lo) * 65535,
                    hi - lo <= 2 * radius + 1,
            ;
            assert(sum / divisor <= 65535) by (nonlinear_arith)
                requires
                    sum <= divisor * 65535,
                    divisor > 0,
            ;
        }
        let mean: u32 = sum / divisor;
        let at = index_of(start, stride, i, Ghost(count as int), Ghost(total as int));
        dst.set(at, mean as u16);
        if i >= radius {
            let first = index_of(start, stride, i - radius, Ghost(count as int), Ghost(total as int));
            proof {
                lemma_line_sum_drop_first(src@, s, d, lo, hi as int);
                lemma_line_sum_bound(src@, s, d, lo + 1, hi as int, 65535);
            }
            sum = sum.saturating_sub(src[first] as u32);
        }
        let ghost next_lo = window_start(i + 1, radius as int);
        if hi < count {
            let last = index_of(start, stride, hi, Ghost(count as int), Ghost(total as int));
            proof {
                lemma_line_sum_bound(src@, s, d, next_lo, hi as int, 65535);
                assert(sum <= 65536 * 65535) by (nonlinear_arith)
                    requires
                        sum <= (hi - next_lo) * 65535,
                        hi - next_lo <= 65536,
                ;
            }
            sum = sum + src[last] as u32;
            hi = hi + 1;
        }
        i = i + 1;
    }
}

proof fn lemma_row_and_column(width: int, x: int, y: int)
    requires
        0 <= x < width,
        0 <= y,
    ensures
        (y * width + x) / width == y,
        (y * width + x) % width == x,
{
    vstd::arithmetic::div_mod::lemma_fundamental_div_mod_converse(y * width + x, width, y, x);
}

proof fn lemma_index_in_image(width: int, height: int, i: int)
    requires
        0 < width,
        0 <= i < width * height,
    ensures
        0 <= i / width < height,
        0 <= i % width < width,
        i == (i / width) * width + i % width,
{
    vstd::arithmetic::div_mod::lemma_fundamental_div_mod(i, width);
    assert(width * (i / width) == (i / width) * width) by (nonlinear_arith);
    assert(0 <= i / width < height) by (nonlinear_arith)
        requires
            0 < width,
            0 <= i < width * height,
    ;
}

/// Blurs the rows of an image into another.
pub fn box_blur_alpha_horizontal(
    src: &Vec<u16>,
    dst: &mut Vec<u16>,
    width: usize,
    height: usize,
    radius: usize,
)
    requires
        blur_fits(width as int, radius as int),
        src@.len() == width * height,
        old(dst)@.len() == width * height,
    ensures
        final(dst)@ == rows_blurred(src@, width as int, radius as int),
{
    if radius == 0 {
        copy_image(src, dst);
        return;
    }
    let ghost w = width as int;
    let ghost r = radius as int;
    let ghost want = rows_blurred(src@, w, r);
    let total: usize = src.len();
    let mut y: usize = 0;
    let mut start: usize = 0;
    if width == 0 {
        assert(0 == width * height) by (nonlinear_arith)
            requires
                width == 0,
        ;
        assert(dst@ =~= want);
        return;
    }
    while y < height
        invariant
            y <= height,
            w == width,
            r == radius,
            0 < width,
            0 < radius,
            blur_fits(width as int, radius as int),
            start == y * w,
            total == src@.len(),
            total == width * height,
            dst@.len() == total,
            want == rows_blurred(src@, w, r),
            forall|i: int| 0 <= i < start ==> dst@[i] == want[i],
        decreases height - y,
    {
        assert((y + 1) * w <= height * w) by (nonlinear_arith)
            requires
                y + 1 <= height,
                0 < w,
        ;
        assert((y + 1) * w == y * w + w) by (nonlinear_arith);
        assert(height * w == width * height) by (nonlinear_arith)
            requires
                w == width,
        ;
        let ghost before = dst@;
        blur_line(src, dst, start, 1, width, radius);
        proof {
            assert forall|i: int| 0 <= i < start + w implies dst@[i] == want[i] by {
                if i < start {
                    assert(dst@[i] == before[i]);
                } else {
                    let x = i - start;
                    assert(i == place(start as int, 1, x));
                    lemma_row_and_column(w, x, y as int);
                }
            }
        }
        start = start + width;
        y = y + 1;
    }
    assert(height * w == width * height) by (nonlinear_arith)
        requires
            w == width,
    ;
    assert(dst@ =~= want);
}

/// Blurs the columns of an image into another.
pub fn box_blur_alpha_vertical(
    src: &Vec<u16>,
    dst: &mut Vec<u16>,
    width: usize,
    height: usize,
    radius: usize,
)
    requires
        blur_fits(height as int, radius as int),
        src@.len() == width * height,
        old(dst)@.len() == width * height,
    ensures
        final(dst)@ == columns_blurred(src@, width as int, height as int, radius as int),
{
    if radius == 0 {
        copy_image(src, dst);
        return;
    }
    let ghost w = width as int;
    let ghost h = height as int;
    let ghost r = radius as int;
    let ghost want = columns_blurred(src@, w, h, r);
    let total: usize = src.len();
    let mut x: usize = 0;
    while x < width
        invariant
            x <= width,
            w == width,
            h == height,
            r == radius,
            0 < radius,
            blur_fits(height as int, radius as int),
            total == src@.len(),
            total == width * height,
            dst@.len() == total,
            want == columns_blurred(src@, w, h, r),
            forall|i: int| 0 <= i < total && i % w < x ==> dst@[i] == want[i],
        decreases width - x,
    {
        let ghost before = dst@;
        assert(height > 0 ==> x + (height - 1) * width < total) by (nonlinear_arith)
            requires
                x < width,
                total == width * height,
        ;
        blur_line(src, dst, x, width, height, radius);
        proof {
            assert forall|i: int| 0 <= i < total && i % w < x + 1 implies dst@[i] == want[i] by {
                lemma_index_in_image(w, h, i);
                let y = i / w;
                if i % w == x {
                    assert(i == place(x as int, w, y));
                } else {
                    assert forall|k: int| 0 <= k < height implies i != #[trigger] place(
                        x as int,
                        w,
                        k,
                    ) by {
                        if i == place(x as int, w, k) {
                            lemma_row_and_column(w, x as int, k);
                        }
                    }
                    assert(dst@[i] == before[i]);
                }
            }
        }
        x = x + 1;
    }
    proof {
        assert forall|i: int| 0 <= i < total implies dst@[i] == want[i] by {
            assert(0 < w) by (nonlinear_arith)
                requires
                    0 <= i < total,
                    total == w * h,
                    0 <= w,
                    0 <= h,
            ;
            lemma_index_in_image(w, h, i);
        }
        assert(dst@ =~= want);
    }
}

/// Copies an image over another of its size.
fn copy_image(src: &Vec<u16>, dst: &mut Vec<u16>)
    requires
        src@.len() == old(dst)@.len(),
    ensures
        final(dst)@ == src@,
{
    let mut i: usize = 0;
    while i < src.len()
        invariant
            i <= src@.len(),
            dst@.len() == src@.len(),
            forall|k: int| 0 <= k < i ==> dst@[k] == src@[k],
        decreases src.len() - i,
    {
        dst.set(i, src[i]);
        i = i + 1;
    }
    assert(dst@ =~= src@);
}

/// Blurs the outline of a shadow.
pub fn blur_alpha(alpha: &mut Vec<u16>, width: usize, height: usize, radius: usize)
    requires
        blur_fits(width as int, radius as int),
        blur_fits(height as int, radius as int),
        old(alpha)@.len() == width * height,
    ensures
        final(alpha)@ == blurred(
            old(alpha)@,
            width as int,
            height as int,
            radius as int,
            WINDOW_SHADOW_BLUR_PASSES as nat,
        ),
{
    let ghost first = alpha@;
    let mut scratch: Vec<u16> = Vec::new();
    let total: usize = alpha.len();
    while scratch.len() < total
        invariant
            scratch@.len() <= total,
        decreases total - scratch.len(),
    {
        scratch.push(0);
    }
    let mut pass: usize = 0;
    while pass < WINDOW_SHADOW_BLUR_PASSES
        invariant
            pass <= WINDOW_SHADOW_BLUR_PASSES,
            blur_fits(width as int, radius as int),
            blur_fits(height as int, radius as int),
            total == width * height,
            scratch@.len() == total,
            alpha@.len() == total,
            alpha@ == blurred(first, width as int, height as int, radius as int, pass as nat),
        decreases WINDOW_SHADOW_BLUR_PASSES - pass,
    {
        box_blur_alpha_horizontal(alpha, &mut scratch, width, height, radius);
        box_blur_alpha_vertical(&scratch, alpha, width, height, radius);
        pass = pass + 1;
    }
}

/// A channel that is covered in part.
pub open spec fn covered(channel: u8, coverage: int) -> int {
    (channel as int * coverage + 127) / 255
}

/// A channel over another, of which a share is left.
pub open spec fn over(top: int, base: u8, left: int) -> int {
    let sum = top + (base as int * left + 127) / 255;
    if sum < 255 {
        sum
    } else {
        255
    }
}

/// Whether the colours of a pixel are multiplied by its alpha.
pub open spec fn is_premultiplied(pixel: Pixel) -> bool {
    pixel.red <= pixel.alpha && pixel.green <= pixel.alpha && pixel.blue <= pixel.alpha
}

/// A colour that covers a pixel in part, laid over it.
pub open spec fn composited(pixel: Pixel, color: Pixel, coverage: int) -> Pixel {
    let alpha = covered(color.alpha, coverage);
    let left = 255 - alpha;
    let result = Pixel {
        red: over(covered(color.red, coverage), pixel.red, left) as u8,
        green: over(covered(color.green, coverage), pixel.green, left) as u8,
        blue: over(covered(color.blue, coverage), pixel.blue, left) as u8,
        alpha: over(alpha, pixel.alpha, left) as u8,
    };
    if alpha == 0 {
        pixel
    } else if is_premultiplied(result) {
        result
    } else {
        Pixel { red: 0, green: 0, blue: 0, alpha: 0 }
    }
}

/// `tiny_skia::PremultipliedColorU8::from_rgba`: the pixel, if no colour exceeds its alpha.
#[verifier::external_body]
fn premultiplied(red: u8, green: u8, blue: u8, alpha: u8) -> (pixel: Option<Pixel>)
    ensures
        pixel == (if red <= alpha && green <= alpha && blue <= alpha {
            Some(Pixel { red, green, blue, alpha })
        } else {
            None
        }),
{
    let color = tiny_skia::PremultipliedColorU8::from_rgba(red, green, blue, alpha)?;
    Some(
        Pixel {
            red: color.red(),
            green: color.green(),
            blue: color.blue(),
            alpha: color.alpha(),
        },
    )
}

/// A channel that is covered in part.
fn cover(channel: u8, coverage: u16) -> (r: u32)
    requires
        coverage <= 255,
    ensures
        r == covered(channel, coverage as int),
        r <= 255,
{
    assert(channel * coverage <= 65025) by (nonlinear_arith)
        requires
            channel <= 255,
            coverage <= 255,
    ;
    assert(0 <= channel * coverage) by (nonlinear_arith);
    (channel as u32 * coverage as u32 + 127) / 255
}

/// A channel over another, of which a share is left.
fn lay_over(top: u32, base: u8, left: u32) -> (r: u8)
    requires
        top <= 255,
        left <= 255,
    ensures
        r == over(top as int, base, left as int),
{
    assert(base * left <= 65025) by (nonlinear_arith)
        requires
            base <= 255,
            left <= 255,
    ;
    assert(0 <= base * left) by (nonlinear_arith);
    let sum: u32 = top + (base as u32 * left + 127) / 255;
    if sum < 255 {
        sum as u8
    } else {
        255
    }
}

/// Lays a colour that covers a pixel in part over it.
pub fn composite_premultiplied_with_coverage(pixel: &mut Pixel, color: Pixel, coverage: u16)
    requires
        coverage <= 255,
    ensures
        *final(pixel) == composited(*old(pixel), color, coverage as int),
{
    let src_alpha = cover(color.alpha, coverage);
    if src_alpha == 0 {
        return;
    }
    let left: u32 = 255 - src_alpha;
    let red = lay_over(cover(color.red, coverage), pixel.red, left);
    let green = lay_over(cover(color.green, coverage), pixel.green, left);
    let blue = lay_over(cover(color.blue, coverage), pixel.blue, left);
    let alpha = lay_over(src_alpha, pixel.alpha, left);
    *pixel = match premultiplied(red, green, blue, alpha) {
        Some(pixel) => pixel,
        None => Pixel { red: 0, green: 0, blue: 0, alpha: 0 },
    };
}

/// Lays a shadow of one colour over pixels.
pub fn composite_shadow_alpha(pixels: &mut Vec<Pixel>, alpha: &Vec<u16>, color: Pixel)
    requires
        forall|i: int| 0 <= i < alpha@.len() ==> alpha@[i] <= 255,
    ensures
        final(pixels)@ == Seq::new(
            old(pixels)@.len(),
            |i: int|
                if i < alpha@.len() {
                    composited(old(pixels)@[i], color, alpha@[i] as int)
                } else {
                    old(pixels)@[i]
                },
        ),
{
    let ghost before = pixels@;
    let ghost want = Seq::new(
        before.len(),
        |i: int|
            if i < alpha@.len() {
                composited(before[i], color, alpha@[i] as int)
            } else {
                before[i]
            },
    );
    if color.alpha == 0 {
        assert forall|i: int| 0 <= i < want.len() implies want[i] == before[i] by {
            if i < alpha@.len() {
                assert(0 * alpha@[i] == 0) by (nonlinear_arith);
            }
        }
        assert(pixels@ =~= want);
        return;
    }
    let mut i: usize = 0;
    while i < pixels.len() && i < alpha.len()
        invariant
            i <= pixels@.len(),
            i <= alpha@.len(),
            pixels@.len() == before.len(),
            want == Seq::new(
                before.len(),
                |i: int|
                    if i < alpha@.len() {
                        composited(before[i], color, alpha@[i] as int)
                    } else {
                        before[i]
                    },
            ),
            forall|k: int| 0 <= k < alpha@.len() ==> alpha@[k] <= 255,
            forall|k: int| 0 <= k < i ==> pixels@[k] == want[k],
            forall|k: int| i <= k < pixels@.len() ==> pixels@[k] == before[k],
        decreases pixels.len() - i,
    {
        if alpha[i] != 0 {
            let mut pixel = pixels[i];
            composite_premultiplied_with_coverage(&mut pixel, color, alpha[i]);
            pixels.set(i, pixel);
        } else {
            assert(covered(color.alpha, 0) == 0);
        }
        i = i + 1;
    }
    assert(pixels@ =~= want);
}

/// One byte of a pixel in a buffer.
pub open spec fn buffer_byte(pixel: Pixel, k: int) -> u8 {
    if k == 0 {
        pixel.blue
    } else if k == 1 {
        pixel.green
    } else if k == 2 {
        pixel.red
    } else {
        pixel.alpha
    }
}

/// Writes pixels into a buffer that the compositor reads, as far as both reach.
pub fn draw_pixmap_to_buffer(pixels: &Vec<Pixel>, buffer: &mut Vec<u8>)
    ensures
        final(buffer)@ == Seq::new(
            old(buffer)@.len(),
            |i: int|
                if i / 4 < old(buffer)@.len() / 4 && i / 4 < pixels@.len() {
                    buffer_byte(pixels@[i / 4], i % 4)
                } else {
                    old(buffer)@[i]
                },
        ),
{
    let ghost before = buffer@;
    let ghost want = Seq::new(
        before.len(),
        |i: int|
            if i / 4 < before.len() / 4 && i / 4 < pixels@.len() {
                buffer_byte(pixels@[i / 4], i % 4)
            } else {
                before[i]
            },
    );
    let len: usize = buffer.len();
    let mut n: usize = 0;
    while n < pixels.len() && n < len / 4
        invariant
            n <= pixels@.len(),
            n <= len / 4,
            len == before.len(),
            buffer@.len() == len,
            want == Seq::new(
                before.len(),
                |i: int|
                    if i / 4 < before.len() / 4 && i / 4 < pixels@.len() {
                        buffer_byte(pixels@[i / 4], i % 4)
                    } else {
                        before[i]
                    },
            ),
            forall|k: int| 0 <= k < 4 * n ==> buffer@[k] == want[k],
            forall|k: int| 4 * n <= k < len ==> buffer@[k] == before[k],
        decreases len / 4 - n,
    {
        let pixel = pixels[n];
        buffer.set(4 * n, pixel.blue);
        buffer.set(4 * n + 1, pixel.green);
        buffer.set(4 * n + 2, pixel.red);
        buffer.set(4 * n + 3, pixel.alpha);
        n = n + 1;
    }
    assert(buffer@ =~= want);
}

proof fn lemma_covered_monotonic(a: u8, b: u8, coverage: int)
    requires
        a <= b,
        0 <= coverage,
    ensures
        covered(a, coverage) <= covered(b, coverage),
{
    assert(a * coverage <= b * coverage) by (nonlinear_arith)
        requires
            a <= b,
            0 <= coverage,
    ;
}

proof fn lemma_channel_stays_below_alpha(
    channel: u8,
    alpha: u8,
    color: u8,
    color_alpha: u8,
    coverage: int,
)
    requires
        channel <= alpha,
        color <= color_alpha,
        0 <= coverage <= 255,
    ensures
        ({
            let left = 255 - covered(color_alpha, coverage);
            &&& 0 <= left
            &&& 0 <= over(covered(color, coverage), channel, left) <= over(
                covered(color_alpha, coverage),
                alpha,
                left,
            ) <= 255
        }),
{
    lemma_covered_monotonic(color, color_alpha, coverage);
    assert(0 <= color * coverage) by (nonlinear_arith)
        requires
            0 <= coverage,
    ;
    assert(color_alpha * coverage <= 255 * 255) by (nonlinear_arith)
        requires
            color_alpha <= 255,
            coverage <= 255,
            0 <= coverage,
    ;
    let left = 255 - covered(color_alpha, coverage);
    lemma_covered_monotonic(channel, alpha, left);
    assert(0 <= channel * left) by (nonlinear_arith)
        requires
            0 <= left,
    ;
}

/// A colour multiplied by its alpha, laid over a pixel of that kind, gives a pixel of that kind:
/// no pixel is lost for want of alpha.
pub proof fn law_shadow_keeps_pixels_premultiplied(pixel: Pixel, color: Pixel, coverage: int)
    requires
        is_premultiplied(pixel),
        is_premultiplied(color),
        0 <= coverage <= 255,
    ensures
        is_premultiplied(composited(pixel, color, coverage)),
        composited(pixel, color, coverage).alpha == (if covered(color.alpha, coverage) == 0 {
            pixel.alpha as int
        } else {
            over(
                covered(color.alpha, coverage),
                pixel.alpha,
                255 - covered(color.alpha, coverage),
            )
        }),
{
    lemma_channel_stays_below_alpha(pixel.red, pixel.alpha, color.red, color.alpha, coverage);
    lemma_channel_stays_below_alpha(pixel.green, pixel.alpha, color.green, color.alpha, coverage);
    lemma_channel_stays_below_alpha(pixel.blue, pixel.alpha, color.blue, color.alpha, coverage);
}

/// Where a shadow covers nothing it changes nothing, and where an opaque colour covers all it is
/// all that is seen.
pub proof fn law_coverage_ends(pixel: Pixel, color: Pixel)
    requires
        color.alpha == 255,
    ensures
        composited(pixel, color, 0) == pixel,
        composited(pixel, color, 255) == color,
{
    let left = 255 - covered(color.alpha, 255);
    assert(covered(color.alpha, 255) == 255);
    assert(left == 0);
    assert(over(covered(color.red, 255), pixel.red, 0) == color.red);
    assert(over(covered(color.green, 255), pixel.green, 0) == color.green);
    assert(over(covered(color.blue, 255), pixel.blue, 0) == color.blue);
    assert(over(covered(color.alpha, 255), pixel.alpha, 0) == 255);
}

/// Blurring makes nothing brighter than the brightest place, so that a shadow never covers more
/// than all.
pub proof fn law_blur_stays_in_bounds(
    src: Seq<u16>,
    width: int,
    height: int,
    radius: int,
    passes: nat,
    most: int,
)
    requires
        0 <= width,
        0 <= height,
        0 <= radius,
        src.len() == width * height,
        0 <= most <= 65535,
        forall|i: int| 0 <= i < src.len() ==> src[i] <= most,
    ensures
        blurred(src, width, height, radius, passes).len() == src.len(),
        forall|i: int|
            0 <= i < src.len() ==> #[trigger] blurred(src, width, height, radius, passes)[i]
                <= most,
    decreases passes,
{
    if passes > 0 && radius > 0 {
        let before = blurred(src, width, height, radius, (passes - 1) as nat);
        law_blur_stays_in_bounds(src, width, height, radius, (passes - 1) as nat, most);
        let rows = rows_blurred(before, width, radius);
        assert forall|i: int| 0 <= i < rows.len() implies #[trigger] rows[i] <= most by {
            lemma_positive_width(width, height, i);
            lemma_index_in_image(width, height, i);
            let y = i / width;
            assert forall|k: int| 0 <= k < width implies before[#[trigger] place(
                y * width,
                1,
                k,
            )] <= most by {
                assert(y * width + width <= height * width) by (nonlinear_arith)
                    requires
                        y < height,
                        0 < width,
                ;
                assert(height * width == width * height) by (nonlinear_arith);
                assert(0 <= y * width) by (nonlinear_arith)
                    requires
                        0 <= y,
                        0 < width,
                ;
            }
            lemma_mean_bound(before, y * width, 1, width, i % width, radius, most);
        }
        let columns = columns_blurred(rows, width, height, radius);
        assert forall|i: int| 0 <= i < columns.len() implies #[trigger] columns[i] <= most by {
            lemma_positive_width(width, height, i);
            lemma_index_in_image(width, height, i);
            let x = i % width;
            assert forall|k: int| 0 <= k < height implies rows[#[trigger] place(x, width, k)]
                <= most by {
                assert(0 <= k * width && x + k * width < width * height) by (nonlinear_arith)
                    requires
                        0 <= k < height,
                        0 <= x < width,
                ;
            }
            lemma_mean_bound(rows, x, width, height, i / width, radius, most);
        }
    } else if passes > 0 {
        law_blur_stays_in_bounds(src, width, height, radius, (passes - 1) as nat, most);
    }
}

proof fn lemma_positive_width(width: int, height: int, i: int)
    requires
        0 <= width,
        0 <= height,
        0 <= i < width * height,
    ensures
        0 < width,
{
    assert(0 < width) by (nonlinear_arith)
        requires
            0 <= width,
            0 <= height,
            0 <= i < width * height,
    ;
}

proof fn lemma_mean_bound(
    src: Seq<u16>,
    start: int,
    stride: int,
    count: int,
    i: int,
    radius: int,
    most: int,
)
    requires
        0 < radius,
        0 <= i < count,
        0 <= most,
        forall|k: int| 0 <= k < count ==> src[#[trigger] place(start, stride, k)] <= most,
    ensures
        0 <= line_mean(src, start, stride, count, i, radius) <= most,
{
    let lo = window_start(i, radius);
    let hi = window_end(i, radius, count);
    lemma_line_sum_bound(src, start, stride, lo, hi, most);
    let sum = line_sum(src, start, stride, lo, hi);
    assert(sum <= (2 * radius + 1) * most) by (nonlinear_arith)
        requires
            sum <= (hi - lo) * most,
            hi - lo <= 2 * radius + 1,
            0 <= most,
    ;
    assert(0 <= sum / (2 * radius + 1) <= most) by (nonlinear_arith)
        requires
            0 <= sum <= (2 * radius + 1) * most,
            0 < radius,
    ;
}

/// The sum over a stretch of equal values is the value as often as the stretch is long.
proof fn lemma_even_sum(src: Seq<u16>, start: int, stride: int, lo: int, hi: int, value: int)
    requires
        lo <= hi,
        forall|k: int| lo <= k < hi ==> src[#[trigger] place(start, stride, k)] == value,
    ensures
        line_sum(src, start, stride, lo, hi) == (hi - lo) * value,
    decreases hi - lo,
{
    if lo < hi {
        lemma_even_sum(src, start, stride, lo, hi - 1, value);
        assert(src[place(start, stride, hi - 1)] == value);
        assert((hi - lo) * value == (hi - 1 - lo) * value + value) by (nonlinear_arith);
    } else {
        assert((hi - lo) * value == 0) by (nonlinear_arith)
            requires
                hi == lo,
        ;
    }
}

/// Where a line is even as far as a blur reaches, the blur leaves it as it is; at the ends it fades
/// by what lies outside.
pub proof fn law_even_stretches_stay_even(
    src: Seq<u16>,
    start: int,
    stride: int,
    count: int,
    i: int,
    radius: int,
    value: int,
)
    requires
        0 <= i < count,
        0 <= radius,
        forall|k: int|
            0 <= k < count && i - radius <= k <= i + radius ==> src[#[trigger] place(
                start,
                stride,
                k,
            )] == value,
    ensures
        radius <= i && i + radius < count ==> line_mean(src, start, stride, count, i, radius)
            == value,
        ({
            let reach = (if i + radius < count { i + radius + 1 } else { count }) - (
            if radius <= i { i - radius } else { 0 });
            line_mean(src, start, stride, count, i, radius) == (reach * value) / (2 * radius + 1)
        }),
{
    let lo = window_start(i, radius);
    let hi = window_end(i, radius, count);
    lemma_even_sum(src, start, stride, lo, hi, value);
    if radius <= i && i + radius < count {
        assert((hi - lo) * value / (2 * radius + 1) == value) by (nonlinear_arith)
            requires
                hi - lo == 2 * radius + 1,
                radius >= 0,
        ;
    }
}

/// A blurred row takes from its own row only, and a blurred column from its own column.
pub proof fn law_blur_keeps_to_its_line(
    src: Seq<u16>,
    width: int,
    height: int,
    radius: int,
    x: int,
    y: int,
)
    requires
        0 < radius,
        0 <= x < width,
        0 <= y < height,
        src.len() == width * height,
    ensures
        rows_blurred(src, width, radius)[y * width + x] == line_mean(
            src,
            y * width,
            1,
            width,
            x,
            radius,
        ) as u16,
        columns_blurred(src, width, height, radius)[y * width + x] == line_mean(
            src,
            x,
            width,
            height,
            y,
            radius,
        ) as u16,
        rows_blurred(src, width, 0) == src,
        columns_blurred(src, width, height, 0) == src,
{
    lemma_row_and_column(width, x, y);
    assert(0 <= y * width + x < width * height) by (nonlinear_arith)
        requires
            0 <= x < width,
            0 <= y < height,
    ;
}

/// A share of a channel is as near to it as whole numbers come, and a channel laid over another adds
/// what is left of the other, up to all.
pub proof fn law_shares_of_a_channel(channel: u8, coverage: int, top: int, left: int)
    requires
        0 <= coverage <= 255,
        0 <= top <= 255,
        0 <= left <= 255,
    ensures
        -127 <= channel * coverage - 255 * covered(channel, coverage) <= 127,
        0 <= over(top, channel, left) <= 255,
        over(top, channel, left) < 255 ==> over(top, channel, left) == top + covered(
            channel,
            left,
        ),
        over(top, channel, 0) == top,
        over(0, channel, 255) == channel,
{
    assert(0 <= channel * coverage) by (nonlinear_arith)
        requires
            0 <= coverage,
            0 <= channel,
    ;
    assert(0 <= channel * left) by (nonlinear_arith)
        requires
            0 <= left,
            0 <= channel,
    ;
    assert(channel * 0 == 0) by (nonlinear_arith);
}

} // verus!
