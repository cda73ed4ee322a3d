//! The renderer: it owns the pixel buffer, the camera and the viewport,
//! exposes `draw_triangle` and `draw_line`, and drives the clipper, the
//! line rasterizer and the trapezoid/scanline provider.
//!
//! Every draw call's effect on the byte buffer is pinned down by a spec
//! function of the old buffer and the call's arguments.

use vstd::prelude::*;
use crate::camera::Camera;
use crate::clip::{clip_spec_rec, cohen_sutherland_line_clip, pt_view, CLIP_STEPS};
use crate::fixed::{
    abs_int, clamp32, fx_add, fx_mul, fx_sub, lemma_tdiv_bound, tdiv, Fx,
};
use crate::image::{set_pixel_spec, ColorAttachment, MAX_DIM};
use crate::math::{div_scalar_spec, mul_mat4_spec, mul_vec4_spec, Mat4, Vec2, Vec3, Vec4};
use crate::scanline::{
    scanline_spec, trap_row_end, trap_row_start, from_triangle_spec, Scanline, Trapezoid,
};

verus! {

/// The drawable region within the pixel buffer: integer origin and
/// unsigned size, set once at construction.
#[derive(Clone, Copy, PartialEq, Eq, Debug)]
pub struct Viewport {
    pub x: i32,
    pub y: i32,
    pub w: u32,
    pub h: u32,
}

/// The renderer: pixel buffer, camera and viewport.
pub struct Renderer {
    pub color_attachment: ColorAttachment,
    pub camera: Camera,
    pub viewport: Viewport,
}

/// The buffer after one scanline is drawn: starting at the span's left
/// endpoint, one pixel per whole unit of width (a fractional tail still
/// writes its pixel), each write dropped unless its column is within the
/// canvas.
pub open spec fn scanline_writes(s: Seq<u8>, bw: int, bh: int, sl: Scanline, c: Vec4) -> Seq<u8>
    decreases
            (if sl.width.v() > 0 {
                sl.width.v()
            } else {
                0
            }),
{
    if sl.width.v() <= 0 {
        s
    } else {
        let s2 = if sl.vertex.x.v() >= 0 && sl.vertex.x.v() < bw * 65536 {
            set_pixel_spec(s, bw, bh, tdiv(sl.vertex.x.v(), 65536), sl.y as int, c)
        } else {
            s
        };
        scanline_writes(
            s2,
            bw,
            bh,
            Scanline {
                vertex: Vec2 {
                    x: Fx { raw: fx_add(sl.vertex.x.v(), sl.step.x.v()) as i64 },
                    y: Fx { raw: fx_add(sl.vertex.y.v(), sl.step.y.v()) as i64 },
                },
                step: sl.step,
                width: Fx { raw: fx_sub(sl.width.v(), 65536) as i64 },
                y: sl.y,
            },
            c,
        )
    }
}

/// The buffer after the run-length line rasterizer finishes from a state:
/// the major coordinate `x` advances by `sx` toward `gx` every step and
/// one pixel is written per step (un-swapping coordinates when `steep`),
/// while the error term `e` advances the minor coordinate. The loop stops
/// at `gx`, so the final pixel of the segment is never written.
pub open spec fn bres_write(
    s: Seq<u8>,
    bw: int,
    bh: int,
    x: int,
    y: int,
    gx: int,
    sx: int,
    sy: int,
    e: int,
    step: int,
    desc: int,
    steep: bool,
    c: Vec4,
) -> Seq<u8>
    decreases abs_int(gx - x),
{
    if x == gx {
        s
    } else if !((sx == 1 && x < gx) || (sx == -1 && x > gx)) {
        s
    } else {
        let s2 = if steep {
            set_pixel_spec(s, bw, bh, y, x, c)
        } else {
            set_pixel_spec(s, bw, bh, x, y, c)
        };
        let e2 = e + step;
        let y2 = if e2 >= 0 {
            y + sy
        } else {
            y
        };
        let e3 = if e2 >= 0 {
            e2 + desc
        } else {
            e2
        };
        bres_write(s2, bw, bh, x + sx, y2, gx, sx, sy, e3, step, desc, steep, c)
    }
}

/// The buffer after an integer line is rasterized: the axis with the
/// larger delta becomes the major axis, and the error accumulator starts
/// at minus the major length.
pub open spec fn line_write(
    s: Seq<u8>,
    bw: int,
    bh: int,
    x0: int,
    y0: int,
    x1: int,
    y1: int,
    c: Vec4,
) -> Seq<u8> {
    let dx = abs_int(x1 - x0);
    let dy = abs_int(y1 - y0);
    let sx: int = if x1 >= x0 {
        1
    } else {
        -1
    };
    let sy: int = if y1 >= y0 {
        1
    } else {
        -1
    };
    if dx < dy {
        bres_write(s, bw, bh, y0, x0, y1, sy, sx, -dy, 2 * dx, -2 * dy, true, c)
    } else {
        bres_write(s, bw, bh, x0, y0, x1, sx, sy, -dx, 2 * dy, -2 * dx, false, c)
    }
}

/// The buffer after a horizontal run of pixels `x0 ..< x1` at row `y`.
pub open spec fn hline_write(s: Seq<u8>, bw: int, bh: int, x0: int, x1: int, y: int, c: Vec4) -> Seq<
    u8,
>
    decreases
            (if x1 - x0 >= 0 {
                x1 - x0
            } else {
                0
            }),
{
    if x0 >= x1 {
        s
    } else {
        hline_write(set_pixel_spec(s, bw, bh, x0, y, c), bw, bh, x0 + 1, x1, y, c)
    }
}

/// A horizontal rasterizer state whose error term stays negative never
/// moves the minor coordinate: it writes one pixel per column.
proof fn lemma_bres_horizontal(
    s: Seq<u8>,
    bw: int,
    bh: int,
    x: int,
    y: int,
    gx: int,
    sy: int,
    e: int,
    desc: int,
    c: Vec4,
)
    requires
        x <= gx,
        e < 0,
    ensures
        bres_write(s, bw, bh, x, y, gx, 1, sy, e, 0, desc, false, c) == hline_write(
            s,
            bw,
            bh,
            x,
            gx,
            y,
            c,
        ),
    decreases gx - x,
{
    if x == gx {
    } else {
        lemma_bres_horizontal(
            set_pixel_spec(s, bw, bh, x, y, c),
            bw,
            bh,
            x + 1,
            y,
            gx,
            sy,
            e,
            desc,
            c,
        );
    }
}

/// Rasterizing a left-to-right horizontal line writes exactly one pixel
/// per column from `x0` inclusive to `x1` exclusive, all on row `y0`:
/// the final column is omitted by the rasterizer's exclusive stop.
pub proof fn lemma_horizontal_line_coverage(
    s: Seq<u8>,
    bw: int,
    bh: int,
    x0: int,
    x1: int,
    y0: int,
    c: Vec4,
)
    requires
        x0 < x1,
    ensures
        line_write(s, bw, bh, x0, y0, x1, y0, c) == hline_write(s, bw, bh, x0, x1, y0, c),
{
    lemma_bres_horizontal(s, bw, bh, x0, y0, x1, 1, -(x1 - x0), -2 * (x1 - x0), c);
}

/// The buffer after one trapezoid is filled: rows `y ..= yend`, one
/// scanline each.
pub open spec fn trap_fill_rows(
    s: Seq<u8>,
    bw: int,
    bh: int,
    t: Trapezoid,
    c: Vec4,
    y: int,
    yend: int,
) -> Seq<u8>
    decreases
            (if yend + 1 - y >= 0 {
                yend + 1 - y
            } else {
                0
            }),
{
    if y > yend {
        s
    } else {
        trap_fill_rows(scanline_writes(s, bw, bh, scanline_spec(t, y), c), bw, bh, t, c, y + 1, yend)
    }
}

/// The buffer after a line is drawn: the segment is clipped against the
/// canvas rectangle `[(0, 0), (bw - 1, bh - 1)]`, and what is left of it
/// is rasterized from truncated integer endpoint coordinates. A fully
/// outside segment draws nothing.
pub open spec fn draw_line_spec(s: Seq<u8>, bw: int, bh: int, p1: Vec2, p2: Vec2, c: Vec4) -> Seq<
    u8,
> {
    let lo = (0int, 0int);
    let hi = ((bw - 1) * 65536, (bh - 1) * 65536);
    match clip_spec_rec(p1.x.v(), pt_view(p1), pt_view(p2), lo, hi, CLIP_STEPS as nat) {
        None => s,
        Some((a, b)) => line_write(
            s,
            bw,
            bh,
            clamp32(tdiv(a.0, 65536)),
            clamp32(tdiv(a.1, 65536)),
            clamp32(tdiv(b.0, 65536)),
            clamp32(tdiv(b.1, 65536)),
            c,
        ),
    }
}

/// The viewport mapping of an NDC x: `(x + 1) * 0.5 * (w - 1) + origin.x`
/// in fixed point, so NDC -1 lands on the viewport origin and NDC +1 on
/// its last valid column.
pub open spec fn viewport_x_spec(xv: int, bw: int, vpx: int) -> int {
    fx_add(fx_mul(fx_mul(fx_add(xv, 65536), 32768), (bw - 1) * 65536), vpx * 65536)
}

/// The viewport mapping of an NDC y, flipped so y grows downward:
/// `h - (y + 1) * 0.5 * (h - 1) + origin.y` in fixed point.
pub open spec fn viewport_y_spec(yv: int, bh: int, vpy: int) -> int {
    fx_add(
        fx_sub(bh * 65536, fx_mul(fx_mul(fx_add(yv, 65536), 32768), (bh - 1) * 65536)),
        vpy * 65536,
    )
}

/// A model-space point carried through the pipeline: lifted to
/// homogeneous form with `w = 1`, transformed by `m`, perspective-divided
/// by its own `w` (every lane, `w` itself included), then mapped by the
/// viewport into screen space.
pub open spec fn project_point_spec(m: Mat4, v: Vec3, bw: int, bh: int, vpx: int, vpy: int) -> Vec2 {
    let hv = Vec4 { x: v.x, y: v.y, z: v.z, w: Fx { raw: 65536 } };
    let cv = mul_vec4_spec(m, hv);
    let nd = div_scalar_spec(cv, cv.w);
    Vec2 {
        x: Fx { raw: viewport_x_spec(nd.x.v(), bw, vpx) as i64 },
        y: Fx { raw: viewport_y_spec(nd.y.v(), bh, vpy) as i64 },
    }
}

/// The viewport mapping sends the NDC corner `(-1, -1)` of a 100 x 100
/// canvas at origin `(0, 0)` to column 0 of row 100 (one below the last
/// valid row, per the Y flip over the full height), and NDC `(1, 1)` to
/// column 99 of row 1: `(dimension - 1)` scaling maps NDC +1 onto the
/// last valid pixel column, not one past it.
pub proof fn lemma_viewport_corner_mapping()
    ensures
        viewport_x_spec(-65536, 100, 0) == 0,
        viewport_y_spec(-65536, 100, 0) == 100 * 65536,
        viewport_x_spec(65536, 100, 0) == 99 * 65536,
        viewport_y_spec(65536, 100, 0) == 1 * 65536,
{
    assert(0int / 65536 == 0) by (nonlinear_arith);
    assert(fx_add(-65536, 65536) == 0);
    assert(fx_mul(0, 32768) == 0);
    assert(fx_mul(0, 99int * 65536) == 0);
    assert(fx_add(65536, 65536) == 131072);
    assert(131072 * 32768 == 0x1_0000_0000int) by (nonlinear_arith);
    assert(0x1_0000_0000int / 65536 == 65536) by (nonlinear_arith);
    assert(fx_mul(131072, 32768) == 65536);
    assert(65536 * 6488064 == 425201762304int) by (nonlinear_arith);
    assert(425201762304int / 65536 == 6488064) by (nonlinear_arith);
    assert(fx_mul(65536, 99int * 65536) == 99int * 65536);
    assert(fx_sub(100int * 65536, 0) == 100int * 65536);
    assert(fx_sub(100int * 65536, 99int * 65536) == 65536);
}

/// The buffer after a triangle is drawn: the three vertices are projected
/// by `view_projection * model` into screen space, the triangle is split
/// into at most two trapezoids which are filled, and the three edges are
/// then drawn as clipped lines over the same screen-space vertices.
pub open spec fn draw_triangle_spec(
    s: Seq<u8>,
    bw: int,
    bh: int,
    vpx: int,
    vpy: int,
    cm: Mat4,
    model: Mat4,
    v0: Vec3,
    v1: Vec3,
    v2: Vec3,
    c: Vec4,
) -> Seq<u8> {
    let m = mul_mat4_spec(cm, model);
    let s0 = project_point_spec(m, v0, bw, bh, vpx, vpy);
    let s1 = project_point_spec(m, v1, bw, bh, vpx, vpy);
    let s2 = project_point_spec(m, v2, bw, bh, vpx, vpy);
    let traps = from_triangle_spec(s0, s1, s2);
    let f1 = match traps.0 {
        Some(t) => trap_fill_spec(s, bw, bh, t, c),
        None => s,
    };
    let f2 = match traps.1 {
        Some(t) => trap_fill_spec(f1, bw, bh, t, c),
        None => f1,
    };
    let l1 = draw_line_spec(f2, bw, bh, s0, s1, c);
    let l2 = draw_line_spec(l1, bw, bh, s1, s2, c);
    draw_line_spec(l2, bw, bh, s2, s0, c)
}

/// The buffer after one trapezoid is filled over its whole scan range.
pub open spec fn trap_fill_spec(s: Seq<u8>, bw: int, bh: int, t: Trapezoid, c: Vec4) -> Seq<u8> {
    trap_fill_rows(s, bw, bh, t, c, trap_row_start(t), trap_row_end(t, bh))
}

impl Renderer {
    /// The buffer is well formed and the viewport covers it exactly.
    pub open spec fn wf(&self) -> bool {
        &&& self.color_attachment.wf()
        &&& self.viewport.w == self.color_attachment.width
        &&& self.viewport.h == self.color_attachment.height
    }

    /// Everything but the pixel bytes is kept by a draw call.
    pub open spec fn same_frame(&self, o: &Renderer) -> bool {
        &&& self.camera == o.camera
        &&& self.viewport == o.viewport
        &&& self.color_attachment.width == o.color_attachment.width
        &&& self.color_attachment.height == o.color_attachment.height
    }

    /// A renderer over a fresh black canvas of the given size, with the
    /// viewport at the origin covering the whole canvas.
    pub fn new(w: u32, h: u32, camera: Camera) -> (r: Renderer)
        requires
            w <= MAX_DIM,
            h <= MAX_DIM,
        ensures
            r.wf(),
            r.color_attachment.width == w,
            r.color_attachment.height == h,
            r.camera == camera,
            r.viewport == (Viewport { x: 0, y: 0, w, h }),
            forall|i: int|
                0 <= i < r.color_attachment.data.len() ==> r.color_attachment.data[i] == 0u8,
    {
        Renderer {
            color_attachment: ColorAttachment::new(w, h),
            camera,
            viewport: Viewport { x: 0, y: 0, w, h },
        }
    }

    /// Fill the whole canvas with the color.
    pub fn clear(&mut self, color: &Vec4)
        requires
            old(self).wf(),
        ensures
            final(self).wf(),
            final(self).same_frame(old(self)),
            final(self).color_attachment.data.len() == old(self).color_attachment.data.len(),
            forall|i: int|
                0 <= i < final(self).color_attachment.data.len()
                    ==> final(self).color_attachment.data[i] == (if i % 4 == 0 {
                    crate::image::byte_of(color.x.v())
                } else if i % 4 == 1 {
                    crate::image::byte_of(color.y.v())
                } else if i % 4 == 2 {
                    crate::image::byte_of(color.z.v())
                } else {
                    crate::image::byte_of(color.w.v())
                }),
    {
        self.color_attachment.clear(color);
    }

    pub fn get_canva_width(&self) -> (r: u32)
        ensures
            r == self.color_attachment.width,
    {
        self.color_attachment.width()
    }

    pub fn get_canva_height(&self) -> (r: u32)
        ensures
            r == self.color_attachment.height,
    {
        self.color_attachment.height()
    }

    /// Read-only snapshot of the rendered bytes.
    pub fn get_rendered_image(&self) -> (r: &[u8])
        ensures
            r@ == self.color_attachment.data@,
    {
        self.color_attachment.data()
    }

    /// Fill one horizontal span, dropping writes outside the canvas.
    fn draw_scanline(&mut self, scanline: &mut Scanline, color: &Vec4)
        requires
            old(self).wf(),
            old(scanline).y >= 0,
        ensures
            final(self).wf(),
            final(self).same_frame(old(self)),
            final(self).color_attachment.data@ == scanline_writes(
                old(self).color_attachment.data@,
                old(self).color_attachment.width as int,
                old(self).color_attachment.height as int,
                *old(scanline),
                *color,
            ),
    {
        let ghost bw = self.color_attachment.width as int;
        let ghost bh = self.color_attachment.height as int;
        let ghost target = scanline_writes(
            self.color_attachment.data@,
            bw,
            bh,
            *scanline,
            *color,
        );
        let y = scanline.y as u32;
        let wlimit: i64 = (self.color_attachment.width as i64) * 65536;
        while scanline.width.raw > 0
            invariant
                self.wf(),
                self.same_frame(old(self)),
                scanline.y == old(scanline).y,
                scanline.y >= 0,
                bw == self.color_attachment.width as int,
                bh == self.color_attachment.height as int,
                y == scanline.y as u32,
                wlimit == bw * 65536,
                scanline_writes(self.color_attachment.data@, bw, bh, *scanline, *color) == target,
            decreases
                    (if scanline.width.raw > 0 {
                        scanline.width.raw as int
                    } else {
                        0
                    }),
        {
            let x = scanline.vertex.x;
            if x.raw >= 0 && x.raw < wlimit {
                proof {
                    lemma_tdiv_bound(x.v(), bw);
                }
                let xi = x.to_i32_trunc();
                self.color_attachment.set(xi as u32, y, color);
            }
            scanline.width = scanline.width.sub(Fx::from_i32(1));
            scanline.vertex = Vec2 {
                x: scanline.vertex.x.add(scanline.step.x),
                y: scanline.vertex.y.add(scanline.step.y),
            };
        }
    }

    /// Fill one trapezoid: one scanline per row of its scan range.
    fn draw_trapezoid(&mut self, trap: &Trapezoid, color: &Vec4)
        requires
            old(self).wf(),
        ensures
            final(self).wf(),
            final(self).same_frame(old(self)),
            final(self).color_attachment.data@ == trap_fill_spec(
                old(self).color_attachment.data@,
                old(self).color_attachment.width as int,
                old(self).color_attachment.height as int,
                *trap,
                *color,
            ),
    {
        let ghost bw = self.color_attachment.width as int;
        let ghost bh = self.color_attachment.height as int;
        let ghost target = trap_fill_spec(self.color_attachment.data@, bw, bh, *trap, *color);
        let bounds = trap.row_bounds(self.color_attachment.height);
        let start = bounds.0;
        let end = bounds.1;
        let mut yrow: i64 = start;
        while yrow <= end
            invariant
                self.wf(),
                self.same_frame(old(self)),
                bw == self.color_attachment.width as int,
                bh == self.color_attachment.height as int,
                start == trap_row_start(*trap),
                end == trap_row_end(*trap, bh),
                start <= yrow,
                trap_fill_rows(self.color_attachment.data@, bw, bh, *trap, *color, yrow as int, end as int)
                    == target,
            decreases
                    (if end + 1 - yrow >= 0 {
                        end + 1 - yrow
                    } else {
                        0
                    }),
        {
            proof {
                assert(0 <= yrow <= 0xffff);
            }
            let mut sl = Scanline::from_trapezoid(trap, yrow as i32);
            self.draw_scanline(&mut sl, color);
            yrow = yrow + 1;
        }
    }

    /// Rasterize a line whose endpoints are already clipped into the
    /// canvas-sized coordinate range, writing one pixel per major-axis
    /// step and stopping before the final endpoint pixel.
    fn draw_line_without_clip(&mut self, x0: i32, y0: i32, x1: i32, y1: i32, color: &Vec4)
        requires
            old(self).wf(),
            -32768 <= x0 <= 32768,
            -32768 <= y0 <= 32768,
            -32768 <= x1 <= 32768,
            -32768 <= y1 <= 32768,
        ensures
            final(self).wf(),
            final(self).same_frame(old(self)),
            final(self).color_attachment.data@ == line_write(
                old(self).color_attachment.data@,
                old(self).color_attachment.width as int,
                old(self).color_attachment.height as int,
                x0 as int,
                y0 as int,
                x1 as int,
                y1 as int,
                *color,
            ),
    {
        let ghost bw = self.color_attachment.width as int;
        let ghost bh = self.color_attachment.height as int;
        let ghost target = line_write(
            self.color_attachment.data@,
            bw,
            bh,
            x0 as int,
            y0 as int,
            x1 as int,
            y1 as int,
            *color,
        );
        let dxv = x1 - x0;
        let mut dx: i32 = if dxv < 0 {
            -dxv
        } else {
            dxv
        };
        let dyv = y1 - y0;
        let mut dy: i32 = if dyv < 0 {
            -dyv
        } else {
            dyv
        };
        let mut sx: i32 = if x1 >= x0 {
            1
        } else {
            -1
        };
        let mut sy: i32 = if y1 >= y0 {
            1
        } else {
            -1
        };
        let mut x = x0;
        let mut y = y0;
        let steep = dx < dy;
        let final_x = if dx < dy {
            y1
        } else {
            x1
        };
        if dx < dy {
            let t = dx;
            dx = dy;
            dy = t;
            let t2 = x;
            x = y;
            y = t2;
            let t3 = sx;
            sx = sy;
            sy = t3;
        }
        let mut e: i32 = -dx;
        let step = 2 * dy;
        let desc = -2 * dx;
        let ghost gx0 = x as int;
        let ghost gy0 = y as int;
        while x != final_x
            invariant
                self.wf(),
                self.same_frame(old(self)),
                bw == self.color_attachment.width as int,
                bh == self.color_attachment.height as int,
                sx as int == 1 || sx as int == -1,
                sy as int == 1 || sy as int == -1,
                0 <= dy as int <= dx as int <= 65536,
                step as int == 2 * (dy as int),
                desc as int == -2 * (dx as int),
                -2 * (dx as int) <= e as int <= 2 * (dy as int),
                abs_int(final_x as int) <= 32768,
                abs_int(gx0) <= 32768,
                abs_int(gy0) <= 32768,
                (final_x as int - x as int) * (sx as int) >= 0,
                (x as int - gx0) * (sx as int) >= 0,
                abs_int(y as int - gy0) <= abs_int(x as int - gx0),
                abs_int(x as int - gx0) <= 65536,
                bres_write(
                    self.color_attachment.data@,
                    bw,
                    bh,
                    x as int,
                    y as int,
                    final_x as int,
                    sx as int,
                    sy as int,
                    e as int,
                    step as int,
                    desc as int,
                    steep,
                    *color,
                ) == target,
            decreases abs_int(final_x as int - x as int),
        {
            if steep {
                if y >= 0 && x >= 0 {
                    self.color_attachment.set(y as u32, x as u32, color);
                }
            } else {
                if x >= 0 && y >= 0 {
                    self.color_attachment.set(x as u32, y as u32, color);
                }
            }
            e = e + step;
            if e >= 0 {
                y = y + sy;
                e = e + desc;
            }
            x = x + sx;
        }
    }

    /// Clip the line against the canvas rectangle, then rasterize what
    /// is left of it; a fully outside segment draws nothing.
    pub fn draw_line(&mut self, p1: &Vec2, p2: &Vec2, color: &Vec4)
        requires
            old(self).wf(),
        ensures
            final(self).wf(),
            final(self).same_frame(old(self)),
            final(self).color_attachment.data@ == draw_line_spec(
                old(self).color_attachment.data@,
                old(self).color_attachment.width as int,
                old(self).color_attachment.height as int,
                *p1,
                *p2,
                *color,
            ),
    {
        let ghost bw = self.color_attachment.width as int;
        let ghost bh = self.color_attachment.height as int;
        let w = self.color_attachment.width();
        let h = self.color_attachment.height();
        let rect_min = Vec2::zero();
        let rect_max = Vec2 {
            x: Fx::from_raw(((w as i64) - 1) * 65536),
            y: Fx::from_raw(((h as i64) - 1) * 65536),
        };
        let clip_result = cohen_sutherland_line_clip(p1, p2, &rect_min, &rect_max);
        if let Some((q1, q2)) = clip_result {
            proof {
                lemma_tdiv_bound(q1.x.v(), bw);
                lemma_tdiv_bound(q1.y.v(), bh);
                lemma_tdiv_bound(q2.x.v(), bw);
                lemma_tdiv_bound(q2.y.v(), bh);
            }
            self.draw_line_without_clip(
                q1.x.to_i32_trunc(),
                q1.y.to_i32_trunc(),
                q2.x.to_i32_trunc(),
                q2.y.to_i32_trunc(),
                color,
            );
        }
    }

    /// One vertex through the transform, perspective divide and viewport
    /// mapping.
    pub fn project_point(&self, m: &Mat4, v: &Vec3) -> (r: Vec2)
        requires
            self.wf(),
        ensures
            r == project_point_spec(
                *m,
                *v,
                self.viewport.w as int,
                self.viewport.h as int,
                self.viewport.x as int,
                self.viewport.y as int,
            ),
    {
        let hv = Vec4::from_vec3(v, Fx::from_i32(1));
        let cv = m.mul_vec4(&hv);
        let nd = cv.div_scalar(cv.w);
        let one = Fx::from_i32(1);
        let half = Fx::from_raw(32768);
        let wm1 = Fx::from_raw(((self.viewport.w as i64) - 1) * 65536);
        let hm1 = Fx::from_raw(((self.viewport.h as i64) - 1) * 65536);
        let hfull = Fx::from_raw((self.viewport.h as i64) * 65536);
        let sx = nd.x.add(one).mul(half).mul(wm1).add(Fx::from_i32(self.viewport.x));
        let sy = hfull.sub(nd.y.add(one).mul(half).mul(hm1)).add(Fx::from_i32(self.viewport.y));
        Vec2 { x: sx, y: sy }
    }

    /// Draw a filled, outlined triangle: transform the three model-space
    /// vertices by `view_projection * model`, perspective-divide, map to
    /// screen space, fill the split trapezoids, then draw the three edges
    /// as clipped lines over the same screen-space vertices.
    #[verifier::rlimit(100)]
    pub fn draw_triangle(&mut self, model: &Mat4, vertices: &[Vec3; 3], color: &Vec4)
        requires
            old(self).wf(),
        ensures
            final(self).wf(),
            final(self).same_frame(old(self)),
            final(self).color_attachment.data@ == draw_triangle_spec(
                old(self).color_attachment.data@,
                old(self).color_attachment.width as int,
                old(self).color_attachment.height as int,
                old(self).viewport.x as int,
                old(self).viewport.y as int,
                old(self).camera.frustum.mat,
                *model,
                vertices[0],
                vertices[1],
                vertices[2],
                *color,
            ),
    {
        let ghost data0 = self.color_attachment.data@;
        let ghost bw = self.color_attachment.width as int;
        let ghost bh = self.color_attachment.height as int;
        let ghost vpx = self.viewport.x as int;
        let ghost vpy = self.viewport.y as int;
        let m = self.camera.get_frustum().get_mat().mul_mat4(model);
        let v0 = vertices[0];
        let v1 = vertices[1];
        let v2 = vertices[2];
        let s0 = self.project_point(&m, &v0);
        let s1 = self.project_point(&m, &v1);
        let s2 = self.project_point(&m, &v2);
        proof {
            assert(s0 == project_point_spec(
                mul_mat4_spec(old(self).camera.frustum.mat, *model),
                vertices[0],
                bw,
                bh,
                vpx,
                vpy,
            ));
        }
        let pts = [s0, s1, s2];
        let traps = Trapezoid::from_triangle(&pts);
        proof {
            assert(traps == from_triangle_spec(s0, s1, s2));
        }
        if let Some(t) = traps.0 {
            self.draw_trapezoid(&t, color);
        }
        let ghost f1 = self.color_attachment.data@;
        proof {
            assert(f1 == match from_triangle_spec(s0, s1, s2).0 {
                Some(t) => trap_fill_spec(data0, bw, bh, t, *color),
                None => data0,
            });
        }
        if let Some(t) = traps.1 {
            self.draw_trapezoid(&t, color);
        }
        let ghost f2 = self.color_attachment.data@;
        proof {
            assert(f2 == match from_triangle_spec(s0, s1, s2).1 {
                Some(t) => trap_fill_spec(f1, bw, bh, t, *color),
                None => f1,
            });
        }
        self.draw_line(&s0, &s1, color);
        let ghost l1 = self.color_attachment.data@;
        proof {
            assert(l1 == draw_line_spec(f2, bw, bh, s0, s1, *color));
        }
        self.draw_line(&s1, &s2, color);
        let ghost l2 = self.color_attachment.data@;
        proof {
            assert(l2 == draw_line_spec(l1, bw, bh, s1, s2, *color));
        }
        self.draw_line(&s2, &s0, color);
        proof {
            assert(self.color_attachment.data@ == draw_line_spec(l2, bw, bh, s2, s0, *color));
        }
    }
}

} // verus!
