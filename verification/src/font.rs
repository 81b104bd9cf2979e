//! Painting rasterised glyphs onto an RGBA canvas of premultiplied pixels:
//! coverage-weighted source-over blending, with clipping at the canvas edges.

use vstd::prelude::*;

verus! {

/// The glyph's alpha scaled by the text colour's alpha.
pub open spec fn source_alpha(coverage: u8, color_a: u8) -> int {
    coverage as int * color_a as int / 255
}

/// Alpha after painting a source of alpha `src_a` over a pixel of alpha `dst_a`.
pub open spec fn out_alpha(src_a: int, dst_a: u8) -> int {
    src_a + dst_a as int * (255 - src_a) / 255
}

/// One premultiplied colour channel after painting the straight colour
/// channel `src` at alpha `src_a` over the premultiplied channel `dst`
/// (source over: `src·a + dst·(1 − a)`, on the 0–255 scale).
pub open spec fn blend_channel(src: u8, dst: u8, src_a: int) -> int {
    (src as int * src_a + dst as int * (255 - src_a)) / 255
}

/// The premultiplied pixel `(r, g, b, a)` after a glyph pixel of the given
/// coverage is painted over it in the straight colour `color`.
pub open spec fn blend_pixel(r: u8, g: u8, b: u8, a: u8, coverage: u8, color: [u8; 4]) -> (
    u8,
    u8,
    u8,
    u8,
) {
    let src_a = source_alpha(coverage, color[3]);
    (
        blend_channel(color[0], r, src_a) as u8,
        blend_channel(color[1], g, src_a) as u8,
        blend_channel(color[2], b, src_a) as u8,
        out_alpha(src_a, a) as u8,
    )
}

/// A premultiplied pixel: no colour channel exceeds its alpha.
pub open spec fn premultiplied_valid(r: u8, g: u8, b: u8, a: u8) -> bool {
    r <= a && g <= a && b <= a
}

/// Blending never leaves the byte range, keeps a premultiplied pixel valid,
/// leaves the pixel as it was when the colour is fully transparent, and gives
/// the colour itself where an opaque colour fully covers the pixel.
pub proof fn lemma_blend_pixel(r: u8, g: u8, b: u8, a: u8, coverage: u8, color: [u8; 4])
    ensures
        0 <= source_alpha(coverage, color[3]) <= 255,
        0 <= blend_channel(color[0], r, source_alpha(coverage, color[3])) <= 255,
        0 <= blend_channel(color[1], g, source_alpha(coverage, color[3])) <= 255,
        0 <= blend_channel(color[2], b, source_alpha(coverage, color[3])) <= 255,
        0 <= out_alpha(source_alpha(coverage, color[3]), a) <= 255,
        premultiplied_valid(r, g, b, a) ==> {
            let p = blend_pixel(r, g, b, a, coverage, color);
            premultiplied_valid(p.0, p.1, p.2, p.3)
        },
        color[3] == 0 ==> blend_pixel(r, g, b, a, coverage, color) == (r, g, b, a),
        color[3] == 255 && coverage == 255 ==> blend_pixel(r, g, b, a, coverage, color) == (
            color[0],
            color[1],
            color[2],
            255u8,
        ),
{
    let sa = source_alpha(coverage, color[3]);
    assert(0 <= coverage as int * color[3] as int <= 65025) by (nonlinear_arith);
    assert(0 <= sa <= 255);
    assert(color[3] == 0 ==> sa == 0) by (nonlinear_arith)
        requires
            sa == coverage as int * color[3] as int / 255,
    ;
    assert(color[3] == 255 && coverage == 255 ==> sa == 255) by (nonlinear_arith)
        requires
            sa == coverage as int * color[3] as int / 255,
    ;
    assert(0 <= a as int * (255 - sa) / 255 <= 255 - sa) by (nonlinear_arith)
        requires
            0 <= sa <= 255,
            a <= 255,
    ;
    assert(sa == 0 ==> a as int * (255 - sa) / 255 == a) by (nonlinear_arith);
    assert(sa == 255 ==> a as int * (255 - sa) / 255 == 0) by (nonlinear_arith);
    lemma_channel_bounds(color[0], r, a, sa);
    lemma_channel_bounds(color[1], g, a, sa);
    lemma_channel_bounds(color[2], b, a, sa);
    assert(0 <= a as int * (255 - sa) <= 65025) by (nonlinear_arith)
        requires
            0 <= sa <= 255,
    ;
}

/// One channel stays in range, and below the new alpha when it was below the
/// old one.
proof fn lemma_channel_bounds(src: u8, dst: u8, dst_a: u8, sa: int)
    requires
        0 <= sa <= 255,
    ensures
        0 <= blend_channel(src, dst, sa) <= 255,
        dst <= dst_a ==> blend_channel(src, dst, sa) <= out_alpha(sa, dst_a),
        sa == 0 ==> blend_channel(src, dst, sa) == dst,
        sa == 255 ==> blend_channel(src, dst, sa) == src,
{
    let num = src as int * sa + dst as int * (255 - sa);
    assert(0 <= num <= 65025) by (nonlinear_arith)
        requires
            0 <= sa <= 255,
            num == src as int * sa + dst as int * (255 - sa),
    ;
    assert(sa == 0 ==> num == 255 * dst) by (nonlinear_arith)
        requires
            num == src as int * sa + dst as int * (255 - sa),
    ;
    assert(sa == 255 ==> num == 255 * src) by (nonlinear_arith)
        requires
            num == src as int * sa + dst as int * (255 - sa),
    ;
    if dst <= dst_a {
        assert(num <= 255 * sa + dst_a as int * (255 - sa)) by (nonlinear_arith)
            requires
                0 <= sa <= 255,
                dst <= dst_a,
                src <= 255,
                num == src as int * sa + dst as int * (255 - sa),
        ;
        assert((255 * sa + dst_a as int * (255 - sa)) / 255 == sa + dst_a as int * (255 - sa)
            / 255) by {
            vstd::arithmetic::div_mod::lemma_hoist_over_denominator(
                dst_a as int * (255 - sa),
                sa,
                255,
            );
        }
        assert(num / 255 <= (255 * sa + dst_a as int * (255 - sa)) / 255) by {
            vstd::arithmetic::div_mod::lemma_div_is_ordered(
                num,
                255 * sa + dst_a as int * (255 - sa),
                255,
            );
        }
    }
}

/// Channel `c` (0 to 3) of a pixel.
pub open spec fn channel(p: (u8, u8, u8, u8), c: int) -> u8 {
    if c == 0 {
        p.0
    } else if c == 1 {
        p.1
    } else if c == 2 {
        p.2
    } else {
        p.3
    }
}

/// The glyph's coverage at canvas position `(px, py)` when its top-left
/// corner stands at `(x_off, y_off)`; zero outside the glyph.
pub open spec fn coverage_at(
    bitmap: Seq<u8>,
    gw: int,
    gh: int,
    x_off: int,
    y_off: int,
    px: int,
    py: int,
) -> u8 {
    let col = px - x_off;
    let row = py - y_off;
    if 0 <= col < gw && 0 <= row < gh {
        bitmap[row * gw + col]
    } else {
        0
    }
}

/// Glyph position `(row, col)` comes before `(r, c)` in row-major order.
pub open spec fn comes_before(row: int, col: int, r: int, c: int) -> bool {
    row < r || (row == r && col < c)
}

/// The canvas after the glyph positions before `(r, c)` have been painted.
pub open spec fn painted_upto(
    canvas: Seq<u8>,
    w: int,
    bitmap: Seq<u8>,
    gw: int,
    gh: int,
    x_off: int,
    y_off: int,
    color: [u8; 4],
    r: int,
    c: int,
) -> Seq<u8> {
    Seq::new(
        canvas.len(),
        |i: int|
            {
                let k = i / 4;
                let px = k % w;
                let py = k / w;
                let cov = coverage_at(bitmap, gw, gh, x_off, y_off, px, py);
                if cov != 0 && comes_before(py - y_off, px - x_off, r, c) {
                    channel(
                        blend_pixel(
                            canvas[4 * k],
                            canvas[4 * k + 1],
                            canvas[4 * k + 2],
                            canvas[4 * k + 3],
                            cov,
                            color,
                        ),
                        i % 4,
                    )
                } else {
                    canvas[i]
                }
            },
    )
}

/// The canvas with the whole glyph painted: every canvas pixel under a glyph
/// pixel of non-zero coverage is blended, all others are kept.
pub open spec fn glyph_painted(
    canvas: Seq<u8>,
    w: int,
    bitmap: Seq<u8>,
    gw: int,
    gh: int,
    x_off: int,
    y_off: int,
    color: [u8; 4],
) -> Seq<u8> {
    painted_upto(canvas, w, bitmap, gw, gh, x_off, y_off, color, gh, 0)
}

/// Where a glyph's top-left corner lands for a pen at `(x, y)` (baseline) and
/// the glyph's metrics.
pub open spec fn glyph_origin(x: i32, y: i32, xmin: i32, ymin: i32, gh: usize) -> (int, int) {
    (x + xmin, y - gh - ymin)
}


/// A canvas byte lies in a pixel whose column and row are on the canvas.
proof fn lemma_canvas_pixel(i: int, w: int, h: int)
    requires
        0 <= w,
        0 <= h,
        0 <= i < 4 * w * h,
    ensures
        w > 0,
        0 <= (i / 4) % w < w,
        0 <= (i / 4) / w < h,
        i / 4 == w * ((i / 4) / w) + (i / 4) % w,
{
    let k = i / 4;
    assert(w > 0 && h > 0) by (nonlinear_arith)
        requires
            0 <= w,
            0 <= h,
            0 <= i < 4 * w * h,
    ;
    assert(k < w * h) by (nonlinear_arith)
        requires
            0 <= i < 4 * w * h,
            k == i / 4,
    ;
    vstd::arithmetic::div_mod::lemma_fundamental_div_mod(k, w);
    vstd::arithmetic::div_mod::lemma_mod_bound(k, w);
    vstd::arithmetic::div_mod::lemma_div_pos_is_pos(k, w);
    assert(k / w < h) by (nonlinear_arith)
        requires
            k == w * (k / w) + k % w,
            0 <= k % w,
            k < w * h,
            w > 0,
    ;
}

/// Finishing a row is the same as starting the next.
proof fn lemma_row_done(
    start: Seq<u8>,
    w: int,
    bm: Seq<u8>,
    gw: int,
    gh: int,
    x_off: int,
    y_off: int,
    color: [u8; 4],
    r: int,
)
    ensures
        painted_upto(start, w, bm, gw, gh, x_off, y_off, color, r, gw) == painted_upto(
            start,
            w,
            bm,
            gw,
            gh,
            x_off,
            y_off,
            color,
            r + 1,
            0,
        ),
{
    assert(painted_upto(start, w, bm, gw, gh, x_off, y_off, color, r, gw) =~= painted_upto(
        start,
        w,
        bm,
        gw,
        gh,
        x_off,
        y_off,
        color,
        r + 1,
        0,
    ));
}

/// A glyph position with no coverage, or off the canvas, changes nothing.
proof fn lemma_step_skipped(
    start: Seq<u8>,
    cur: Seq<u8>,
    w: int,
    h: int,
    bm: Seq<u8>,
    gw: int,
    gh: int,
    x_off: int,
    y_off: int,
    color: [u8; 4],
    r: int,
    c: int,
)
    requires
        0 <= w,
        0 <= h,
        start.len() == 4 * w * h,
        0 <= r < gh,
        0 <= c < gw,
        cur == painted_upto(start, w, bm, gw, gh, x_off, y_off, color, r, c),
        bm[r * gw + c] == 0 || !(0 <= x_off + c < w && 0 <= y_off + r < h),
    ensures
        cur == painted_upto(start, w, bm, gw, gh, x_off, y_off, color, r, c + 1),
{
    let next = painted_upto(start, w, bm, gw, gh, x_off, y_off, color, r, c + 1);
    assert forall|i: int| 0 <= i < start.len() implies #[trigger] cur[i] == next[i] by {
        lemma_canvas_pixel(i, w, h);
    }
    assert(cur =~= next);
}

/// Painting the glyph position `(r, c)` onto canvas pixel `idx`.
proof fn lemma_step_painted(
    start: Seq<u8>,
    cur: Seq<u8>,
    new: Seq<u8>,
    w: int,
    h: int,
    bm: Seq<u8>,
    gw: int,
    gh: int,
    x_off: int,
    y_off: int,
    color: [u8; 4],
    r: int,
    c: int,
    idx: int,
)
    requires
        0 <= w,
        0 <= h,
        start.len() == 4 * w * h,
        0 <= r < gh,
        0 <= c < gw,
        cur == painted_upto(start, w, bm, gw, gh, x_off, y_off, color, r, c),
        bm[r * gw + c] != 0,
        0 <= x_off + c < w,
        0 <= y_off + r < h,
        idx == w * (y_off + r) + (x_off + c),
        0 <= idx < w * h,
        idx / w == y_off + r,
        idx % w == x_off + c,
        new.len() == cur.len(),
        forall|i: int|
            0 <= i < cur.len() && i / 4 != idx ==> #[trigger] new[i] == cur[i],
        forall|j: int|
            0 <= j < 4 ==> #[trigger] new[4 * idx + j] == channel(
                blend_pixel(
                    cur[4 * idx],
                    cur[4 * idx + 1],
                    cur[4 * idx + 2],
                    cur[4 * idx + 3],
                    bm[r * gw + c],
                    color,
                ),
                j,
            ),
    ensures
        new == painted_upto(start, w, bm, gw, gh, x_off, y_off, color, r, c + 1),
{
    let next = painted_upto(start, w, bm, gw, gh, x_off, y_off, color, r, c + 1);
    assert(4 * w * h == 4 * (w * h)) by (nonlinear_arith);
    assert forall|i: int| 0 <= i < start.len() implies #[trigger] new[i] == next[i] by {
        lemma_canvas_pixel(i, w, h);
        let k = i / 4;
        if k == idx {
            assert(i == 4 * idx + i % 4);
            assert forall|j: int| 0 <= j < 4 implies #[trigger] cur[4 * idx + j] == start[4 * idx
                + j] by {
                assert((4 * idx + j) / 4 == idx);
            }
            assert(cur[4 * idx + 0] == start[4 * idx + 0]);
            assert(cur[4 * idx + 1] == start[4 * idx + 1]);
            assert(cur[4 * idx + 2] == start[4 * idx + 2]);
            assert(cur[4 * idx + 3] == start[4 * idx + 3]);
            assert(new[4 * idx + i % 4] == next[i]);
        } else {
            if (k / w) - y_off == r && (k % w) - x_off == c {
                assert(k == idx);
            }
        }
    }
    assert(new =~= next);
}

proof fn lemma_pixel_index(px: int, py: int, w: int)
    requires
        0 <= px < w,
        0 <= py,
    ensures
        (py * w + px) / w == py,
        (py * w + px) % w == px,
{
    vstd::arithmetic::div_mod::lemma_fundamental_div_mod_converse(py * w + px, w, py, px);
}

/// Paints one rasterised glyph (`bitmap`, `gw` × `gh` coverage values, row
/// by row) onto an RGBA canvas of `w` × `h` premultiplied pixels, for a pen at
/// `(x, y)` on the baseline and glyph metrics `xmin`, `ymin`. Glyph pixels of
/// zero coverage and pixels off the canvas are skipped.
pub fn blend_glyph(
    canvas: &mut [u8],
    w: u32,
    h: u32,
    bitmap: &[u8],
    gw: usize,
    gh: usize,
    x: i32,
    y: i32,
    xmin: i32,
    ymin: i32,
    color: [u8; 4],
)
    requires
        old(canvas)@.len() == 4 * (w as int) * (h as int),
        gw * gh <= bitmap@.len(),
        gw <= i32::MAX,
        gh <= i32::MAX,
    ensures
        final(canvas)@ == glyph_painted(
            old(canvas)@,
            w as int,
            bitmap@,
            gw as int,
            gh as int,
            glyph_origin(x, y, xmin, ymin, gh).0,
            glyph_origin(x, y, xmin, ymin, gh).1,
            color,
        ),
{
    let x_off: i64 = x as i64 + xmin as i64;
    let y_off: i64 = y as i64 - gh as i64 - ymin as i64;
    let ghost start = canvas@;
    let ghost wi = w as int;
    let ghost bm = bitmap@;
    let blen = bitmap.len();
    let clen = canvas.len();
    let mut row: usize = 0;
    while row < gh
        invariant
            start.len() == 4 * (w as int) * (h as int),
            canvas@.len() == start.len(),
            gw * gh <= bm.len(),
            bm == bitmap@,
            blen == bm.len(),
            clen == start.len(),
            wi == w,
            gw <= i32::MAX,
            gh <= i32::MAX,
            x_off == x + xmin,
            y_off == y - gh - ymin,
            row <= gh,
            canvas@ == painted_upto(start, wi, bm, gw as int, gh as int, x_off as int, y_off as int, color, row as int, 0),
        decreases gh - row,
    {
        let mut col: usize = 0;
        while col < gw
            invariant
                start.len() == 4 * (w as int) * (h as int),
                canvas@.len() == start.len(),
                gw * gh <= bm.len(),
                bm == bitmap@,
                blen == bm.len(),
                clen == start.len(),
                wi == w,
                gw <= i32::MAX,
                gh <= i32::MAX,
                x_off == x + xmin,
                y_off == y - gh - ymin,
                row < gh,
                col <= gw,
                canvas@ == painted_upto(start, wi, bm, gw as int, gh as int, x_off as int, y_off as int, color, row as int, col as int),
            decreases gw - col,
        {
            let ghost cur = canvas@;
            assert(row * gw + col < gw * gh) by (nonlinear_arith)
                requires
                    row < gh,
                    col < gw,
            ;
            let alpha = bitmap[row * gw + col];
            let px_x: i64 = x_off + col as i64;
            let px_y: i64 = y_off + row as i64;
            if alpha != 0 && px_x >= 0 && px_y >= 0 && px_x < w as i64 && px_y < h as i64 {
                assert(px_y * w + px_x < (w as int) * (h as int) && (w as int) * (h as int) <= clen) by (nonlinear_arith)
                    requires
                        0 <= px_x < w,
                        0 <= px_y < h,
                        clen == 4 * (w as int) * (h as int),
                ;
                let idx: usize = px_y as usize * w as usize + px_x as usize;
                assert(4 * idx + 3 < clen && idx == w * px_y + px_x) by (nonlinear_arith)
                    requires
                        idx == px_y * w + px_x,
                        idx < (w as int) * (h as int),
                        clen == 4 * (w as int) * (h as int),
                ;
                let base = 4 * idx;
                assert(alpha as u32 * color[3] as u32 <= 65025) by (nonlinear_arith)
                    requires
                        alpha <= 255,
                        color[3] <= 255,
                ;
                let src_a: u32 = alpha as u32 * color[3] as u32 / 255;
                let dst_a: u32 = canvas[base + 3] as u32;
                assert(src_a <= 255 && dst_a * (255 - src_a) <= 65025) by (nonlinear_arith)
                    requires
                        src_a == alpha as u32 * color[3] as u32 / 255,
                        alpha as u32 * color[3] as u32 <= 65025,
                        dst_a <= 255,
                ;
                let out_a: u32 = src_a + dst_a * (255 - src_a) / 255;
                assert(src_a <= 255 && out_a <= 255) by (nonlinear_arith)
                    requires
                        src_a == alpha as u32 * color[3] as u32 / 255,
                        dst_a <= 255,
                        out_a == src_a + dst_a * (255 - src_a) / 255,
                        alpha <= 255,
                        color[3] <= 255,
                ;
                let r0 = canvas[base];
                let g0 = canvas[base + 1];
                let b0 = canvas[base + 2];
                proof {
                    lemma_blend_pixel(r0, g0, b0, cur[4 * idx + 3], alpha, color);
                }
                assert(color[0] as u32 * src_a <= 65025 && color[1] as u32 * src_a <= 65025
                    && color[2] as u32 * src_a <= 65025) by (nonlinear_arith)
                    requires
                        src_a <= 255,
                        color[0] <= 255,
                        color[1] <= 255,
                        color[2] <= 255,
                ;
                assert(r0 as u32 * (255 - src_a) <= 65025 && g0 as u32 * (255 - src_a) <= 65025
                    && b0 as u32 * (255 - src_a) <= 65025) by (nonlinear_arith)
                    requires
                        src_a <= 255,
                        r0 <= 255,
                        g0 <= 255,
                        b0 <= 255,
                ;
                let red = ((color[0] as u32 * src_a + r0 as u32 * (255 - src_a)) / 255) as u8;
                let green = ((color[1] as u32 * src_a + g0 as u32 * (255 - src_a)) / 255) as u8;
                let blue = ((color[2] as u32 * src_a + b0 as u32 * (255 - src_a)) / 255) as u8;
                let p = (red, green, blue, out_a as u8);
                assert(p == blend_pixel(r0, g0, b0, cur[4 * idx + 3], alpha, color));
                canvas[base] = p.0;
                canvas[base + 1] = p.1;
                canvas[base + 2] = p.2;
                canvas[base + 3] = p.3;
                proof {
                    lemma_pixel_index(px_x as int, px_y as int, wi);
                    lemma_step_painted(start, cur, canvas@, wi, h as int, bm, gw as int, gh as int, x_off as int, y_off as int, color, row as int, col as int, idx as int);
                }
            } else {
                proof {
                    lemma_step_skipped(start, cur, wi, h as int, bm, gw as int, gh as int, x_off as int, y_off as int, color, row as int, col as int);
                }
            }
            col = col + 1;
        }
        proof {
            lemma_row_done(start, wi, bm, gw as int, gh as int, x_off as int, y_off as int, color, row as int);
        }
        row = row + 1;
    }
}

} // verus!
