//! The path integrator and the conversion of colours to pixels.

use crate::camera::Camera;
use crate::canvas::{canvas_size, Canvas};
use crate::hittable::{Hittable, HittableList};
use crate::material::{spec_white, Material};
use crate::ray::Ray;
use crate::scalar::{trunc_div, Scalar, MAX, ONE};
use crate::utils::{in_unit_disk, random_double};
use crate::vec3::{Color, Vec3};
use vstd::prelude::*;

verus! {

/// Raw value of the lower end of the hit window, about `0.0001`: a
/// scattered ray does not hit the surface it leaves.
pub const HIT_EPSILON: i64 = 429_496;

/// The sky at the zenith: the colour `(0.5, 0.7, 1.0)`.
pub open spec fn spec_sky_blue() -> Color {
    Vec3 {
        x: Scalar::of(trunc_div(ONE as int, 2)),
        y: Scalar::of(trunc_div(7 * ONE, 10)),
        z: Scalar::of(ONE as int),
    }
}

/// The background seen along `ray`: white blended into sky blue by the
/// height of the unit direction, `(1 - t) white + t blue` with
/// `t = 0.5 (unit_direction.y + 1)`.
pub open spec fn spec_background(ray: Ray) -> Color {
    let one = Scalar::of(ONE as int);
    let t = Scalar::of(trunc_div(ONE as int, 2)).spec_mul(ray.dir.spec_unit().y.spec_add(one));
    spec_white().spec_scale(one.spec_sub(t)).spec_add(spec_sky_blue().spec_scale(t))
}

/// Marks a scattering outcome and the colour that comes back along the
/// scattered ray as the two parts of one bounce.
pub open spec fn bounce(out: Option<(Ray, Color)>, deeper: Color) -> bool {
    true
}

/// Whether `c` is a colour that a path of at most `depth` bounces may carry
/// back along `ray`:
/// - black where the depth is used up, or the ray has no direction;
/// - the background where the ray hits nothing in `[HIT_EPSILON, MAX]`;
/// - black where the material at the nearest hit absorbs the ray;
/// - else the attenuation times a colour that a path of one bounce less may
///   carry back along the scattered ray.
pub open spec fn is_radiance<T: Hittable>(
    ray: Ray,
    world: HittableList<T>,
    depth: nat,
    c: Color,
) -> bool
    decreases depth,
{
    if depth == 0 || ray.dir.spec_is_zero() {
        c == Vec3::spec_zero()
    } else {
        match world.spec_hit(ray, Scalar::of(HIT_EPSILON as int), Scalar::of(MAX as int)) {
            None => c == spec_background(ray),
            Some(info) => exists|out: Option<(Ray, Color)>, deeper: Color|
                #![trigger bounce(out, deeper)]
                bounce(out, deeper) && info.material.scatters_to(ray, info, out) && match out {
                    None => c == Vec3::spec_zero(),
                    Some(pair) => is_radiance(pair.0, world, (depth - 1) as nat, deeper) && c
                        == pair.1.spec_mul(deeper),
                },
        }
    }
}

/// A ray that misses every surface brings the background along its
/// direction, whatever the scene holds and however many bounces are
/// allowed.
pub proof fn lemma_miss_is_background<T: Hittable>(
    ray: Ray,
    world: HittableList<T>,
    depth: nat,
    c: Color,
)
    requires
        depth > 0,
        !ray.dir.spec_is_zero(),
        world.spec_hit(ray, Scalar::of(HIT_EPSILON as int), Scalar::of(MAX as int)) is None,
        is_radiance(ray, world, depth, c),
    ensures
        c == spec_background(ray),
{
}

/// The background seen along a ray that has a direction.
pub fn background(ray: &Ray) -> (c: Color)
    requires
        !ray.dir.spec_is_zero(),
    ensures
        c == spec_background(*ray),
{
    let unit_dir = ray.direction().unit();
    let t = Scalar::from_ratio(1, 2) * (unit_dir.y + Scalar::one());
    let white = Color::new(Scalar::one(), Scalar::one(), Scalar::one());
    let blue = Color::new(Scalar::from_ratio(1, 2), Scalar::from_ratio(7, 10), Scalar::one());

    (Scalar::one() - t) * white + t * blue
}

/// The colour that arrives along `ray` from `world`, estimated with one
/// random path of at most `depth` bounces.
///
/// A ray that misses every surface brings the background, whatever the
/// scene holds.
pub fn ray_color<T: Hittable>(ray: &Ray, world: &HittableList<T>, depth: u64) -> (c: Color)
    ensures
        is_radiance(*ray, *world, depth as nat, c),
        depth == 0 ==> c == Vec3::spec_zero(),
        depth > 0 && !ray.dir.spec_is_zero() && world.spec_hit(
            *ray,
            Scalar::of(HIT_EPSILON as int),
            Scalar::of(MAX as int),
        ) is None ==> c == spec_background(*ray),
    decreases depth,
{
    if depth == 0 || ray.direction().is_zero() {
        return Color::zero();
    }
    match world.hit(ray, Scalar::from_raw(HIT_EPSILON), Scalar::max_value()) {
        None => background(ray),
        Some(info) => {
            let out = info.material.scatter(ray, info);
            match out {
                None => {
                    assert(bounce(out, Vec3::spec_zero()));
                    Color::zero()
                },
                Some((scattered, attenuation)) => {
                    let deeper = ray_color(&scattered, world, depth - 1);
                    assert(bounce(out, deeper));
                    attenuation * deeper
                },
            }
        },
    }
}

/// The image-plane coordinate of a sample in pixel `index` of `extent`
/// pixels, `jitter` into the pixel: `(index + jitter) / (extent - 1)`.
pub open spec fn spec_sample_coordinate(index: u32, jitter: Scalar, extent: u32) -> Scalar {
    Scalar::of(index * ONE).spec_add(jitter).spec_div(Scalar::of((extent - 1) * ONE))
}

/// The image-plane coordinate of a sample.
pub fn sample_coordinate(index: u32, jitter: Scalar, extent: u32) -> (s: Scalar)
    ensures
        s == spec_sample_coordinate(index, jitter, extent),
{
    (Scalar::from_int(index as i64) + jitter) / Scalar::from_int(extent as i64 - 1)
}

/// Marks the random numbers that make one sample of a pixel: the two
/// jitters and the point of the lens.
pub open spec fn sample_draw(jx: Scalar, jy: Scalar, p: Vec3) -> bool {
    true
}

/// Whether `c` is a colour that one sample of pixel `(i, j)` may bring: the
/// camera ray through a point of the pixel, jittered by numbers of `[0, 1)`
/// and through some point of the lens, followed for at most `depth`
/// bounces.
pub open spec fn is_sample<T: Hittable>(
    cam: Camera,
    world: HittableList<T>,
    i: u32,
    j: u32,
    width: u32,
    height: u32,
    depth: nat,
    c: Color,
) -> bool {
    exists|jx: Scalar, jy: Scalar, p: Vec3|
        #![trigger sample_draw(jx, jy, p)]
        sample_draw(jx, jy, p) && 0 <= jx@ < ONE && 0 <= jy@ < ONE && in_unit_disk(p)
            && is_radiance(
            cam.spec_get_ray_with(
                spec_sample_coordinate(i, jx, width),
                spec_sample_coordinate(j, jy, height),
                p,
            ),
            world,
            depth,
            c,
        )
}

/// Marks the two parts of a sum of samples: the sum so far and the sample
/// added.
pub open spec fn sample_step(before: Color, c: Color) -> bool {
    true
}

/// Whether `sum` is a sum that `n` samples of pixel `(i, j)` may add up to,
/// added one after the other from black.
pub open spec fn is_sample_sum<T: Hittable>(
    cam: Camera,
    world: HittableList<T>,
    i: u32,
    j: u32,
    width: u32,
    height: u32,
    depth: nat,
    n: nat,
    sum: Color,
) -> bool
    decreases n,
{
    if n == 0 {
        sum == Vec3::spec_zero()
    } else {
        exists|before: Color, c: Color|
            #![trigger sample_step(before, c)]
            sample_step(before, c) && is_sample_sum(
                cam,
                world,
                i,
                j,
                width,
                height,
                depth,
                (n - 1) as nat,
                before,
            ) && is_sample(cam, world, i, j, width, height, depth, c) && sum == before.spec_add(c)
    }
}

/// One sample of pixel `(i, j)`: the colour along a camera ray through a
/// random point of the pixel.
pub fn sample_pixel<T: Hittable>(
    cam: &Camera,
    world: &HittableList<T>,
    i: u32,
    j: u32,
    width: u32,
    height: u32,
    depth: u64,
) -> (c: Color)
    ensures
        is_sample(*cam, *world, i, j, width, height, depth as nat, c),
{
    let jx = random_double();
    let jy = random_double();
    let u = sample_coordinate(i, jx, width);
    let v = sample_coordinate(j, jy, height);

    let r = cam.get_ray(u, v);
    let c = ray_color(&r, world, depth);
    proof {
        let p = choose|p: Vec3| in_unit_disk(p) && r == #[trigger] cam.spec_get_ray_with(u, v, p);
        assert(sample_draw(jx, jy, p));
    }
    c
}

/// Whether `c` is a colour that pixel `(i, j)` may get: the mean of a sum
/// of `samples` samples, and black without samples.
pub open spec fn is_pixel_color<T: Hittable>(
    cam: Camera,
    world: HittableList<T>,
    i: u32,
    j: u32,
    width: u32,
    height: u32,
    samples: u32,
    depth: nat,
    c: Color,
) -> bool {
    exists|sum: Color|
        #[trigger] is_sample_sum(cam, world, i, j, width, height, depth, samples as nat, sum) && c
            == if samples == 0 {
            sum
        } else {
            sum.spec_shrink(Scalar::of(samples * ONE))
        }
}

/// The colour of pixel `(i, j)`: the mean of `samples` samples. Without
/// samples the pixel is black.
pub fn render_pixel<T: Hittable>(
    cam: &Camera,
    world: &HittableList<T>,
    i: u32,
    j: u32,
    width: u32,
    height: u32,
    samples: u32,
    depth: u64,
) -> (c: Color)
    ensures
        is_pixel_color(*cam, *world, i, j, width, height, samples, depth as nat, c),
        samples == 0 ==> c == Vec3::spec_zero(),
{
    let mut color = Color::zero();
    let mut k: u32 = 0;
    while k < samples
        invariant
            k <= samples,
            is_sample_sum(*cam, *world, i, j, width, height, depth as nat, k as nat, color),
        decreases samples - k,
    {
        let c = sample_pixel(cam, world, i, j, width, height, depth);
        assert(sample_step(color, c));
        color = color + c;
        k = k + 1;
    }
    if samples == 0 {
        color
    } else {
        color / Scalar::from_int(samples as i64)
    }
}

/// The byte of one channel: the channel, or its square root where `gamma`
/// is set, times `255.999`, rounded down and kept in `0..=255`.
pub open spec fn spec_channel(c: Scalar, gamma: bool) -> int {
    let v = if gamma {
        c.spec_sqrt()
    } else {
        c
    };
    let whole = v.spec_mul(Scalar::of(trunc_div(255_999 * ONE, 1000)))@ / (ONE as int);
    if whole < 0 {
        0
    } else if whole > 255 {
        255
    } else {
        whole
    }
}

/// The byte of one channel.
pub fn to_channel(c: Scalar, gamma: bool) -> (b: u8)
    ensures
        b == spec_channel(c, gamma),
{
    let v = if gamma {
        c.sqrt()
    } else {
        c
    };
    let scaled: i64 = (v * Scalar::from_ratio(255_999, 1000)).to_raw();
    if scaled < 0 {
        0
    } else {
        let whole: i64 = scaled / ONE;
        if whole > 255 {
            255
        } else {
            whole as u8
        }
    }
}

/// The pixel for a colour: the bytes of its red, green and blue channels.
pub open spec fn spec_rgb(c: Color, gamma: bool) -> (u8, u8, u8) {
    (
        spec_channel(c.x, gamma) as u8,
        spec_channel(c.y, gamma) as u8,
        spec_channel(c.z, gamma) as u8,
    )
}

/// The pixel for a colour: red, green and blue bytes, with gamma 2
/// where `gamma` is set.
pub fn to_rgb(c: Color, gamma: bool) -> (px: (u8, u8, u8))
    ensures
        px == spec_rgb(c, gamma),
{
    (to_channel(c.x, gamma), to_channel(c.y, gamma), to_channel(c.z, gamma))
}

/// Writes the colour `c` to pixel `(x, y)` of the image and leaves every
/// other pixel as it was.
pub fn write_pixel(img: &mut Canvas, x: u32, y: u32, c: Color, gamma: bool)
    requires
        old(img).wf(),
        x < canvas_size(*old(img)).0,
        y < canvas_size(*old(img)).1,
    ensures
        final(img).wf(),
        canvas_size(*final(img)) == canvas_size(*old(img)),
        final(img).spec_pixel(x as nat, y as nat) == spec_rgb(c, gamma),
        forall|x2: nat, y2: nat|
            x2 < canvas_size(*old(img)).0 && y2 < canvas_size(*old(img)).1 && (x2 != x || y2 != y)
                ==> final(img).spec_pixel(x2, y2) == old(img).spec_pixel(x2, y2),
{
    img.put_pixel(x, y, to_rgb(c, gamma));
}

/// The pixel of the image in column `i` of the row that is `j` rows above
/// the bottom row: image rows are stored from the top, the scene is
/// sampled from the bottom.
pub open spec fn pixel_from_bottom(img: Canvas, i: u32, j: u32) -> (u8, u8, u8) {
    img.spec_pixel(i as nat, (canvas_size(img).1 - 1 - j) as nat)
}

/// Whether `px` is a pixel that a render may give at `(i, j)`: the bytes of
/// a colour that the pixel may get.
pub open spec fn is_rendered_pixel<T: Hittable>(
    cam: Camera,
    world: HittableList<T>,
    i: u32,
    j: u32,
    width: u32,
    height: u32,
    samples: u32,
    depth: nat,
    gamma: bool,
    px: (u8, u8, u8),
) -> bool {
    exists|c: Color|
        #[trigger] is_pixel_color(cam, world, i, j, width, height, samples, depth, c) && px
            == spec_rgb(c, gamma)
}

/// Renders the scene: every pixel of a `width` by `height` image gets the
/// mean of `samples` random samples, each followed for at most `depth`
/// bounces. Sample row `j` counts from the bottom of the image.
pub fn render<T: Hittable>(
    cam: &Camera,
    world: &HittableList<T>,
    width: u32,
    height: u32,
    samples: u32,
    depth: u64,
    gamma: bool,
) -> (img: Canvas)
    requires
        3 * width * height <= isize::MAX,
    ensures
        img.wf(),
        canvas_size(img) == (width as nat, height as nat),
        forall|i: u32, j: u32|
            i < width && j < height ==> is_rendered_pixel(
                *cam,
                *world,
                i,
                j,
                width,
                height,
                samples,
                depth as nat,
                gamma,
                #[trigger] pixel_from_bottom(img, i, j),
            ),
{
    let mut img = Canvas::new(width, height);
    let mut j: u32 = 0;
    while j < height
        invariant
            j <= height,
            img.wf(),
            canvas_size(img) == (width as nat, height as nat),
            forall|i2: u32, j2: u32|
                i2 < width && j2 < j ==> is_rendered_pixel(
                    *cam,
                    *world,
                    i2,
                    j2,
                    width,
                    height,
                    samples,
                    depth as nat,
                    gamma,
                    #[trigger] pixel_from_bottom(img, i2, j2),
                ),
        decreases height - j,
    {
        let mut i: u32 = 0;
        while i < width
            invariant
                i <= width,
                j < height,
                img.wf(),
                canvas_size(img) == (width as nat, height as nat),
                forall|i2: u32, j2: u32|
                    i2 < width && j2 < j ==> is_rendered_pixel(
                        *cam,
                        *world,
                        i2,
                        j2,
                        width,
                        height,
                        samples,
                        depth as nat,
                        gamma,
                        #[trigger] pixel_from_bottom(img, i2, j2),
                    ),
                forall|i2: u32|
                    i2 < i ==> is_rendered_pixel(
                        *cam,
                        *world,
                        i2,
                        j,
                        width,
                        height,
                        samples,
                        depth as nat,
                        gamma,
                        #[trigger] pixel_from_bottom(img, i2, j),
                    ),
            decreases width - i,
        {
            let color = render_pixel(cam, world, i, j, width, height, samples, depth);
            let ghost before = img;
            write_pixel(&mut img, i, height - j - 1, color, gamma);
            proof {
                assert(pixel_from_bottom(img, i, j) == spec_rgb(color, gamma));
                assert forall|i2: u32, j2: u32| i2 < width && j2 < j implies pixel_from_bottom(
                    img,
                    i2,
                    j2,
                ) == pixel_from_bottom(before, i2, j2) by {
                    assert((height - 1 - j2) as nat != (height - j - 1) as nat);
                }
                assert forall|i2: u32| i2 < i implies pixel_from_bottom(img, i2, j)
                    == pixel_from_bottom(before, i2, j) by {
                    assert(i2 as nat != i as nat);
                }
            }
            i = i + 1;
        }
        j = j + 1;
    }
    img
}

} // verus!
