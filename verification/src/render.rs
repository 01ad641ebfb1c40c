//! The tiled renderer: the image is cut into contiguous horizontal bands,
//! each rendered independently into a flat RGB byte buffer and
//! concatenated in row order.
//!
//! Every pixel is a pure function of the scene, the camera, its
//! coordinates and the sampling seed, so the output is independent of how
//! the image was cut into bands — the law `lemma_rows_concat` and the
//! contract of `render_rgb_flat`, which does not mention `thread_count`,
//! say so.  A host that renders bands on separate threads and
//! concatenates them in order produces these same bytes.

use vstd::prelude::*;
use crate::fixed::{fx_sub_s, fx_mul_s, fx_div_s, fx_sub, fx_mul, fx_div, fx_neg, sat64,
    SCALE};
use crate::general::{Color, gamma_byte_s, gamma_byte};
use crate::scene::Scene;
use crate::camera::PerspectiveCamera;
use crate::ray::Ray;

verus! {

/// Samples per pixel: each pixel is averaged over this many jittered
/// camera rays (stochastic supersampling against aliasing).
pub const AA_ITERATION_COUNT: usize = 25;

/// Traces of each sample ray: reflections recurse this deep.
pub const TRACE_DEPTH: usize = 6;

/// One step of the mixed congruential generator behind the jitter.
pub open spec fn lcg_s(x: int) -> int {
    (x * 6364136223846793005 + 1442695040888963407) % 0x1_0000_0000_0000_0000
}

/// The jitter hash: pixel coordinates and sample index folded into the
/// seed, then two generator steps.
pub open spec fn mix_s(seed: int, ix: int, iy: int, j: int) -> int {
    let h = (seed + (ix * 0x9E3779B97F4A7C15) % 0x1_0000_0000_0000_0000 + (iy
        * 0xC2B2AE3D27D4EB4F) % 0x1_0000_0000_0000_0000 + (j * 0xD6E8FEB86659FD93)
        % 0x1_0000_0000_0000_0000) % 0x1_0000_0000_0000_0000;
    lcg_s(lcg_s(h))
}

/// Jitter offset in `[0, 1)`, raw, for one sample axis.
pub open spec fn jitter_s(seed: int, ix: int, iy: int, j: int) -> int {
    mix_s(seed, ix, iy, j) % (SCALE as int)
}

fn lcg(x: u64) -> (r: u64)
    ensures
        r as int == lcg_s(x as int),
{
    let p: u128 = x as u128 * 6364136223846793005u128 + 1442695040888963407u128;
    (p % 0x1_0000_0000_0000_0000u128) as u64
}

fn jitter(seed: u64, ix: u64, iy: u64, j: u64) -> (r: i64)
    ensures
        r as int == jitter_s(seed as int, ix as int, iy as int, j as int),
        0 <= r < SCALE,
{
    let tx = (ix as u128 * 0x9E3779B97F4A7C15u128) % 0x1_0000_0000_0000_0000u128;
    let ty = (iy as u128 * 0xC2B2AE3D27D4EB4Fu128) % 0x1_0000_0000_0000_0000u128;
    let tj = (j as u128 * 0xD6E8FEB86659FD93u128) % 0x1_0000_0000_0000_0000u128;
    let p: u128 = seed as u128 + tx + ty + tj;
    let h = (p % 0x1_0000_0000_0000_0000u128) as u64;
    let m = lcg(lcg(h));
    (m % (SCALE as u64)) as i64
}

/// A scene with the camera that renders it.
pub struct Raycaster {
    pub scene: Scene,
    pub camera: PerspectiveCamera,
}

impl Raycaster {
    /// The bounds sampling arithmetic relies on.
    pub open spec fn wf(self) -> bool {
        self.camera.wf()
    }

    /// The color one jittered sample contributes: the traced color of
    /// the camera ray through the sample point, the scene's normal
    /// coloring in debug mode, or the ambient color for a degenerate
    /// ray.  Image-plane coordinates run over `[-1, 1]`, with `y`
    /// flipped from raster space to screen space.
    pub open spec fn sample_s(self, ix: int, iy: int, seed: int, debug: bool, j: int) -> Color {
        let tx = jitter_s(seed, ix, iy, 2 * j);
        let ty = jitter_s(seed, ix, iy, 2 * j + 1);
        let w = self.camera.image_width as int;
        let h = self.camera.image_height as int;
        let x = fx_sub_s(
            fx_mul_s(fx_div_s(ix * SCALE + tx, w * SCALE), 2 * SCALE as int),
            SCALE as int,
        );
        let y = sat64(
            -fx_sub_s(
                fx_mul_s(fx_div_s(iy * SCALE + ty, h * SCALE), 2 * SCALE as int),
                SCALE as int,
            ),
        );
        let aim = self.camera.aim_s(x, y);
        if aim.normalize_ok() {
            let ray = Ray {
                origin: self.camera.position,
                direction: crate::vector::UnitVector3 { v: aim.normalize_s() },
            };
            if debug {
                self.scene.color_debug_s(ray)
            } else {
                self.scene.trace_s(ray, TRACE_DEPTH as nat)
            }
        } else {
            self.scene.ambient_color
        }
    }

    /// The sample colors accumulated onto `acc`, from sample `j` on.
    pub open spec fn samples_from_s(
        self,
        ix: int,
        iy: int,
        seed: int,
        debug: bool,
        j: int,
        acc: Color,
    ) -> Color
        decreases AA_ITERATION_COUNT - j,
    {
        if j < 0 || j >= AA_ITERATION_COUNT {
            acc
        } else {
            self.samples_from_s(
                ix,
                iy,
                seed,
                debug,
                j + 1,
                acc.add_s(self.sample_s(ix, iy, seed, debug, j)),
            )
        }
    }

    /// The three bytes of one pixel: the sample average, gamma-encoded.
    #[verifier::opaque]
    pub open spec fn pixel_bytes_s(self, ix: int, iy: int, seed: int, debug: bool) -> Seq<u8> {
        let total = self.samples_from_s(
            ix,
            iy,
            seed,
            debug,
            0,
            Color { r: 0i64, g: 0i64, b: 0i64 },
        );
        let avg = total.scale_s(fx_div_s(SCALE as int, AA_ITERATION_COUNT as int * SCALE));
        seq![
            gamma_byte_s(avg.r as int) as u8,
            gamma_byte_s(avg.g as int) as u8,
            gamma_byte_s(avg.b as int) as u8,
        ]
    }

    /// The bytes of one row, pixels left to right from column `ix`.
    pub open spec fn row_from_s(self, iy: int, seed: int, debug: bool, ix: int) -> Seq<u8>
        decreases self.camera.image_width - ix,
    {
        if ix < 0 || ix >= self.camera.image_width {
            Seq::empty()
        } else {
            self.pixel_bytes_s(ix, iy, seed, debug) + self.row_from_s(iy, seed, debug, ix + 1)
        }
    }

    /// The bytes of rows `y0` (inclusive) to `y1` (exclusive), in row
    /// order.
    pub open spec fn rows_s(self, y0: int, y1: int, seed: int, debug: bool) -> Seq<u8>
        decreases y1 - y0,
    {
        if y0 >= y1 {
            Seq::empty()
        } else {
            self.row_from_s(y0, seed, debug, 0) + self.rows_s(y0 + 1, y1, seed, debug)
        }
    }

    /// LAW — band partitioning introduces no seams: the rows of two
    /// adjacent bands, concatenated, are exactly the rows of the joined
    /// band, for every cut point.  With `render_rgb_flat`'s contract,
    /// which does not mention `thread_count`, any per-band rendering
    /// concatenated in row order yields the same bytes as any other.
    pub proof fn lemma_rows_concat(self, a: int, m: int, b: int, seed: int, debug: bool)
        requires
            a <= m <= b,
        ensures
            self.rows_s(a, b, seed, debug) == self.rows_s(a, m, seed, debug) + self.rows_s(
                m,
                b,
                seed,
                debug,
            ),
        decreases m - a,
    {
        if a >= m {
            assert(self.rows_s(a, m, seed, debug) + self.rows_s(m, b, seed, debug)
                =~= self.rows_s(a, b, seed, debug));
        } else {
            self.lemma_rows_concat(a + 1, m, b, seed, debug);
            assert(self.rows_s(a, m, seed, debug) + self.rows_s(m, b, seed, debug)
                =~= self.rows_s(a, b, seed, debug));
        }
    }

    fn sample(&self, ix: usize, iy: usize, seed: u64, debug: bool, j: usize) -> (c: Color)
        requires
            self.wf(),
            ix < self.camera.image_width,
            iy < self.camera.image_height,
            j < AA_ITERATION_COUNT,
        ensures
            c == self.sample_s(ix as int, iy as int, seed as int, debug, j as int),
    {
        let tx = jitter(seed, ix as u64, iy as u64, 2 * j as u64);
        let ty = jitter(seed, ix as u64, iy as u64, 2 * j as u64 + 1);
        let x = fx_sub(
            fx_mul(
                fx_div(ix as i64 * SCALE + tx, self.camera.image_width as i64 * SCALE),
                2 * SCALE,
            ),
            SCALE,
        );
        let y = fx_neg(
            fx_sub(
                fx_mul(
                    fx_div(iy as i64 * SCALE + ty, self.camera.image_height as i64 * SCALE),
                    2 * SCALE,
                ),
                SCALE,
            ),
        );
        match self.camera.shoot_at(x, y) {
            Some(ray) => if debug {
                self.scene.color_debug(&ray)
            } else {
                self.scene.trace(&ray, TRACE_DEPTH)
            },
            None => self.scene.ambient_color,
        }
    }

    /// The three bytes of one pixel: `AA_ITERATION_COUNT` jittered
    /// samples averaged, then gamma-encoded.
    pub fn shade_pixel(&self, ix: usize, iy: usize, seed: u64, debug: bool) -> (r: [u8; 3])
        requires
            self.wf(),
            ix < self.camera.image_width,
            iy < self.camera.image_height,
        ensures
            seq![r[0], r[1], r[2]] == self.pixel_bytes_s(
                ix as int,
                iy as int,
                seed as int,
                debug,
            ),
    {
        proof {
            reveal(Raycaster::pixel_bytes_s);
        }
        let mut color = Color::black();
        let mut j: usize = 0;
        while j < AA_ITERATION_COUNT
            invariant
                self.wf(),
                ix < self.camera.image_width,
                iy < self.camera.image_height,
                j <= AA_ITERATION_COUNT,
                self.samples_from_s(
                    ix as int,
                    iy as int,
                    seed as int,
                    debug,
                    0,
                    Color { r: 0i64, g: 0i64, b: 0i64 },
                ) == self.samples_from_s(ix as int, iy as int, seed as int, debug, j as int, color),
            decreases AA_ITERATION_COUNT - j,
        {
            let s = self.sample(ix, iy, seed, debug, j);
            color = color.add(s);
            j = j + 1;
        }
        let avg = color.scale(fx_div(SCALE, AA_ITERATION_COUNT as i64 * SCALE));
        [gamma_byte(avg.r), gamma_byte(avg.g), gamma_byte(avg.b)]
    }

    /// The bytes of rows `y0` (inclusive) to `y1` (exclusive): one band.
    #[verifier::rlimit(100)]
    pub fn render_band(&self, y0: usize, y1: usize, seed: u64, debug: bool) -> (r: Vec<u8>)
        requires
            self.wf(),
            y0 <= y1 <= self.camera.image_height,
        ensures
            r@ == self.rows_s(y0 as int, y1 as int, seed as int, debug),
    {
        let mut out: Vec<u8> = Vec::new();
        let mut iy: usize = y0;
        while iy < y1
            invariant
                self.wf(),
                y0 <= iy <= y1 <= self.camera.image_height,
                self.rows_s(y0 as int, y1 as int, seed as int, debug) == out@ + self.rows_s(
                    iy as int,
                    y1 as int,
                    seed as int,
                    debug,
                ),
            decreases y1 - iy,
        {
            let mut ix: usize = 0;
            while ix < self.camera.image_width
                invariant
                    self.wf(),
                    y0 <= iy < y1 <= self.camera.image_height,
                    ix <= self.camera.image_width,
                    self.rows_s(y0 as int, y1 as int, seed as int, debug) == out@
                        + self.row_from_s(iy as int, seed as int, debug, ix as int)
                        + self.rows_s(iy as int + 1, y1 as int, seed as int, debug),
                decreases self.camera.image_width - ix,
            {
                let px = self.shade_pixel(ix, iy, seed, debug);
                out.push(px[0]);
                out.push(px[1]);
                out.push(px[2]);
                proof {
                    assert(out@ =~= out@.subrange(0, out@.len() - 3) + seq![
                        px[0],
                        px[1],
                        px[2],
                    ]);
                    assert(out@.subrange(0, out@.len() - 3) + (self.pixel_bytes_s(
                        ix as int,
                        iy as int,
                        seed as int,
                        debug,
                    ) + self.row_from_s(iy as int, seed as int, debug, ix as int + 1))
                        + self.rows_s(iy as int + 1, y1 as int, seed as int, debug) =~= out@
                        + self.row_from_s(iy as int, seed as int, debug, ix as int + 1)
                        + self.rows_s(iy as int + 1, y1 as int, seed as int, debug));
                }
                ix = ix + 1;
            }
            iy = iy + 1;
        }
        out
    }

    /// Render the scene into a flat row-major RGB byte buffer, three
    /// bytes per pixel, band by band: `thread_count` contiguous
    /// horizontal bands of `height / thread_count` rows, the final band
    /// absorbing the remainder.  The bytes depend only on the scene, the
    /// camera and the seed — not on the band count.
    #[verifier::rlimit(100)]
    pub fn render_rgb_flat(self, thread_count: usize, debug: bool, seed: u64) -> (r: Vec<u8>)
        requires
            self.wf(),
            thread_count >= 1,
        ensures
            r@ == self.rows_s(0, self.camera.image_height as int, seed as int, debug),
    {
        let height = self.camera.image_height;
        let segment_height = height / thread_count;
        let mut img: Vec<u8> = Vec::new();
        let mut i: usize = 0;
        let mut done: usize = 0;
        while i < thread_count
            invariant
                self.wf(),
                thread_count >= 1,
                i <= thread_count,
                height == self.camera.image_height,
                done <= height,
                i == thread_count ==> done == height,
                img@ == self.rows_s(0, done as int, seed as int, debug),
            decreases thread_count - i,
        {
            let start = done;
            // The final band absorbs the remainder rows; the cap never
            // bites for the earlier bands, whose ends stay within the
            // image.
            let end = if i == thread_count - 1 {
                height
            } else if segment_height < height - start {
                start + segment_height
            } else {
                height
            };
            let mut band = self.render_band(start, end, seed, debug);
            proof {
                self.lemma_rows_concat(0, start as int, end as int, seed as int, debug);
            }
            img.append(&mut band);
            done = end;
            i = i + 1;
        }
                img
    }
}

/// Relies on rand::random for a fresh seed; nothing is assumed of the
/// value returned.
pub assume_specification<T>[ rand::random::<T> ]() -> (r: T)
    where
        rand::distr::StandardUniform: rand::distr::Distribution<T>,
;

impl Raycaster {
    /// Render with a seed drawn from the host's randomness: the bytes
    /// are those of `render_rgb_flat` for some seed.
    pub fn render_rgb_flat_random(self, thread_count: usize, debug: bool) -> (r: Vec<u8>)
        requires
            self.wf(),
            thread_count >= 1,
        ensures
            exists|sd: u64|
                r@ == self.rows_s(0, self.camera.image_height as int, sd as int, debug),
    {
        let seed: u64 = rand::random::<u64>();
        let out = self.render_rgb_flat(thread_count, debug, seed);
        proof {
            assert(out@ == self.rows_s(
                0,
                self.camera.image_height as int,
                seed as int,
                debug,
            ));
        }
        out
    }
}

} // verus!
