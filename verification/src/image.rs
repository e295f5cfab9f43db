//! From a scene to an image: one ray through each pixel, and the bytes of the
//! picture in the portable pixmap format.

use vstd::prelude::*;
use vstd::std_specs::ops::{AddSpec, SubSpec, MulSpec, DivSpec, NegSpec};
use vstd::arithmetic::div_mod::lemma_fundamental_div_mod_converse;
use core::ops::Neg;
use crate::scalar::{Scalar, total, exact, zero_of, one_of, tan_of, from_u32_of, to_u8_of};
use crate::scalar::{zero, one, tan, from_u32, to_u8};
use crate::geometry::{VecRT, repeated, normalize_of, max_of, min_of, max, min};
use crate::light::Light;
use crate::object::Object;
use crate::tracer::{Settings, SettingsView, well_placed, cast_ray_of, cast_ray};

verus! {

/// The direction from the eye through the middle of the pixel in column `i` and
/// row `j` of an image of `width` by `height` pixels. The eye is at the origin
/// and looks along the negative third axis; the image plane lies at distance one
/// and reaches `tan_fov` upwards from its middle and `tan_fov * aspect` to the
/// right. Rows count downwards.
pub open spec fn direction_of<T: Scalar>(
    i: u32,
    j: u32,
    width: u32,
    height: u32,
    tan_fov: T,
    aspect: T,
) -> Seq<T> {
    let u = one_of::<T>();
    let two = from_u32_of::<T>(2);
    let half = u.div_spec(two);
    let x = two.mul_spec(from_u32_of::<T>(i).add_spec(half)).div_spec(
        from_u32_of::<T>(width),
    ).sub_spec(u).mul_spec(tan_fov).mul_spec(aspect);
    let y = two.mul_spec(from_u32_of::<T>(j).add_spec(half)).div_spec(
        from_u32_of::<T>(height),
    ).sub_spec(u).neg_spec().mul_spec(tan_fov);
    normalize_of(seq![x, y, u.neg_spec()])
}

/// The unit vector from the eye through the middle of pixel `(i, j)`.
pub fn pixel_direction<T: Scalar>(
    i: u32,
    j: u32,
    width: u32,
    height: u32,
    tan_fov: T,
    aspect: T,
) -> (r: VecRT<T>)
    requires
        total::<T>(),
    ensures
        r@.len() == 3,
        exact::<T>() ==> r@ == direction_of(i, j, width, height, tan_fov, aspect),
{
    let u: T = one();
    let two: T = from_u32(2);
    let half = u / two;
    let x = ((two * (from_u32::<T>(i) + half)) / from_u32::<T>(width) - u) * tan_fov * aspect;
    let y = ((two * (from_u32::<T>(j) + half)) / from_u32::<T>(height) - u).neg() * tan_fov;
    VecRT::new3f(x, y, u.neg()).normalize()
}

/// The tangent of half the angle of view `fov`.
pub open spec fn tan_fov_of<T: Scalar>(fov: T) -> T {
    tan_of(fov.div_spec(from_u32_of::<T>(2)))
}

/// The ratio of the width of an image to its height.
pub open spec fn aspect_of<T: Scalar>(width: u32, height: u32) -> T {
    from_u32_of::<T>(width).div_spec(from_u32_of::<T>(height))
}

/// The colour of the pixel at place `k` of an image, the pixels counted along the
/// rows from the top left: what comes back along the ray from the eye through the
/// pixel in column `k % width` and row `k / width`.
pub open spec fn pixel_of<T: Scalar, O: Object<T>>(
    k: int,
    lights: Seq<Light<T>>,
    objs: Seq<Box<O>>,
    width: u32,
    height: u32,
    fov: T,
    settings: SettingsView<T>,
) -> Seq<T> {
    cast_ray_of(
        repeated(zero_of::<T>(), 3),
        direction_of(
            (k % width as int) as u32,
            (k / width as int) as u32,
            width,
            height,
            tan_fov_of(fov),
            aspect_of::<T>(width, height),
        ),
        lights,
        objs,
        1,
        settings,
    )
}

/// The image of the scene as seen from the origin along the negative third axis,
/// `width` by `height` pixels, under the angle of view `fov` in radians: the
/// colours of its pixels row by row from the top, each row from the left.
pub fn render<T: Scalar, O: Object<T>>(
    lights: &[Light<T>],
    objs: &[Box<O>],
    width: u32,
    height: u32,
    fov: T,
    settings: &Settings<T>,
) -> (frame: Vec<VecRT<T>>)
    requires
        total::<T>(),
        well_placed(objs@),
        width * height <= usize::MAX,
    ensures
        frame@.len() == width * height,
        forall|k: int| 0 <= k < frame@.len() ==> (#[trigger] frame@[k])@.len() == 3,
        exact::<T>() ==> forall|k: int|
            0 <= k < frame@.len() ==> (#[trigger] frame@[k])@ == pixel_of(
                k,
                lights@,
                objs@,
                width,
                height,
                fov,
                settings@,
            ),
{
    let tan_fov = tan(fov / from_u32::<T>(2));
    let aspect_ratio = from_u32::<T>(width) / from_u32::<T>(height);
    let origin: VecRT<T> = VecRT::zero();
    let mut frame: Vec<VecRT<T>> = Vec::new();
    let mut j: u32 = 0;
    while j < height
        invariant
            j <= height,
            total::<T>(),
            well_placed(objs@),
            origin@.len() == 3,
            exact::<T>() ==> origin@ == repeated(zero_of::<T>(), 3),
            exact::<T>() ==> tan_fov == tan_fov_of(fov),
            exact::<T>() ==> aspect_ratio == aspect_of::<T>(width, height),
            frame@.len() == j * width,
            forall|k: int| 0 <= k < frame@.len() ==> (#[trigger] frame@[k])@.len() == 3,
            exact::<T>() ==> forall|k: int|
                0 <= k < frame@.len() ==> (#[trigger] frame@[k])@ == pixel_of(
                    k,
                    lights@,
                    objs@,
                    width,
                    height,
                    fov,
                    settings@,
                ),
        decreases height - j,
    {
        let mut i: u32 = 0;
        while i < width
            invariant
                i <= width,
                j < height,
                total::<T>(),
                well_placed(objs@),
                origin@.len() == 3,
                exact::<T>() ==> origin@ == repeated(zero_of::<T>(), 3),
                exact::<T>() ==> tan_fov == tan_fov_of(fov),
                exact::<T>() ==> aspect_ratio == aspect_of::<T>(width, height),
                frame@.len() == j * width + i,
                forall|k: int| 0 <= k < frame@.len() ==> (#[trigger] frame@[k])@.len() == 3,
                exact::<T>() ==> forall|k: int|
                    0 <= k < frame@.len() ==> (#[trigger] frame@[k])@ == pixel_of(
                        k,
                        lights@,
                        objs@,
                        width,
                        height,
                        fov,
                        settings@,
                    ),
            decreases width - i,
        {
            let dir = pixel_direction(i, j, width, height, tan_fov, aspect_ratio);
            let color = cast_ray(&origin, &dir, lights, objs, 1, settings);
            proof {
                lemma_fundamental_div_mod_converse(
                    j * width + i,
                    width as int,
                    j as int,
                    i as int,
                );
            }
            frame.push(color);
            i += 1;
        }
        proof {
            assert((j + 1) * width == j * width + width) by (nonlinear_arith);
        }
        j += 1;
    }
    proof {
        assert(height * width == width * height) by (nonlinear_arith);
    }
    frame
}

/// The decimal digits of `n` as characters, the first of them not a zero unless
/// `n` is zero.
pub open spec fn decimal_of(n: nat) -> Seq<u8>
    decreases n,
{
    if n < 10 {
        seq![(48 + n) as u8]
    } else {
        decimal_of(n / 10).push((48 + n % 10) as u8)
    }
}

/// The number that the decimal digits `digits` spell.
pub open spec fn decimal_value(digits: Seq<u8>) -> nat
    decreases digits.len(),
{
    if digits.len() == 0 {
        0
    } else {
        (10 * decimal_value(digits.drop_last()) + (digits.last() - 48)) as nat
    }
}

/// The digits of `n` are characters from `0` to `9` and spell `n`; there is one
/// digit for a number below ten and more for any other, and the first of several
/// is not `0`.
pub proof fn lemma_decimal_spells_the_number(n: nat)
    ensures
        decimal_of(n).len() >= 1,
        decimal_of(n).len() == 1 <==> n < 10,
        forall|i: int| 0 <= i < decimal_of(n).len() ==> 48 <= #[trigger] decimal_of(n)[i] <= 57,
        decimal_of(n).len() > 1 ==> decimal_of(n)[0] != 48,
        decimal_value(decimal_of(n)) == n,
    decreases n,
{
    let all = decimal_of(n);
    if n >= 10 {
        lemma_decimal_spells_the_number(n / 10);
        let head = decimal_of(n / 10);
        assert(all.drop_last() =~= head);
        assert(all.last() == 48 + n % 10);
        assert(all[0] == head[0]);
    } else {
        assert(all.drop_last().len() == 0);
        assert(decimal_value(all.drop_last()) == 0);
    }
}

/// The number `n` written in decimal digits.
pub fn decimal(n: u32) -> (r: Vec<u8>)
    ensures
        r@ == decimal_of(n as nat),
    decreases n,
{
    if n < 10 {
        let mut digits: Vec<u8> = Vec::new();
        digits.push(48 + n as u8);
        assert(digits@ =~= decimal_of(n as nat));
        digits
    } else {
        let mut digits = decimal(n / 10);
        digits.push(48 + (n % 10) as u8);
        digits
    }
}

/// The byte that stands for the channel `c`: `c` held between zero and one,
/// times 255, as the nearest whole number.
pub open spec fn channel_byte_of<T: Scalar>(c: T) -> u8 {
    to_u8_of(from_u32_of::<T>(255).mul_spec(max_of(zero_of::<T>(), min_of(one_of::<T>(), c))))
}

/// The byte that stands for the channel `c` in an image of 255 levels.
pub fn channel_byte<T: Scalar>(c: T) -> (r: u8)
    requires
        total::<T>(),
    ensures
        exact::<T>() ==> r == channel_byte_of(c),
{
    to_u8(from_u32::<T>(255) * max(zero(), min(one(), c)))
}

/// The head of a pixmap of `width` by `height` pixels with 255 levels to a
/// channel: the two characters that mark a binary pixmap, the width and the
/// height in decimal, and 255, each followed by a line feed but for the width,
/// which a space follows.
pub open spec fn header_of(width: u32, height: u32) -> Seq<u8> {
    seq![80u8, 54u8, 10u8] + decimal_of(width as nat) + seq![32u8] + decimal_of(height as nat)
        + seq![10u8, 50u8, 53u8, 53u8, 10u8]
}

/// The bytes of the first `n` pixels of `frame`: three to a pixel, its channels in
/// their order.
pub open spec fn pixels_of<T: Scalar>(frame: Seq<VecRT<T>>, n: nat) -> Seq<u8>
    decreases n,
{
    if n == 0 {
        Seq::<u8>::empty()
    } else {
        pixels_of(frame, (n - 1) as nat) + seq![
            channel_byte_of(frame[n - 1]@[0]),
            channel_byte_of(frame[n - 1]@[1]),
            channel_byte_of(frame[n - 1]@[2]),
        ]
    }
}

/// The pixmap of `frame`: the head, then the pixels.
pub open spec fn ppm_of<T: Scalar>(frame: Seq<VecRT<T>>, width: u32, height: u32) -> Seq<u8> {
    header_of(width, height) + pixels_of(frame, frame.len())
}

/// The head of the pixmap of an image of `width` by `height` pixels.
pub fn ppm_header(width: u32, height: u32) -> (r: Vec<u8>)
    ensures
        r@ == header_of(width, height),
{
    let mut bytes: Vec<u8> = Vec::new();
    bytes.push(80);
    bytes.push(54);
    bytes.push(10);
    assert(bytes@ =~= seq![80u8, 54u8, 10u8]);
    let mut w = decimal(width);
    bytes.append(&mut w);
    bytes.push(32);
    let mut h = decimal(height);
    bytes.append(&mut h);
    bytes.push(10);
    bytes.push(50);
    bytes.push(53);
    bytes.push(53);
    bytes.push(10);
    assert(bytes@ =~= header_of(width, height));
    bytes
}

/// The image `framebuffer`, of `width` by `height` pixels of three channels each,
/// as a binary portable pixmap: the head in text, then three bytes to a pixel in
/// the order of the buffer, row by row from the top. A channel is held between
/// zero and one before it becomes a byte.
pub fn ppm_bytes<T: Scalar>(framebuffer: &[VecRT<T>], width: u32, height: u32) -> (r: Vec<u8>)
    requires
        total::<T>(),
        forall|k: int| 0 <= k < framebuffer@.len() ==> (#[trigger] framebuffer@[k])@.len() == 3,
    ensures
        r@.len() == header_of(width, height).len() + 3 * framebuffer@.len(),
        r@.subrange(0, header_of(width, height).len() as int) == header_of(width, height),
        exact::<T>() ==> r@ == ppm_of(framebuffer@, width, height),
{
    let mut bytes = ppm_header(width, height);
    let ghost head = bytes@;
    let mut k: usize = 0;
    while k < framebuffer.len()
        invariant
            k <= framebuffer@.len(),
            total::<T>(),
            head == header_of(width, height),
            forall|k: int| 0 <= k < framebuffer@.len() ==> (#[trigger] framebuffer@[k])@.len() == 3,
            bytes@.len() == head.len() + 3 * k,
            bytes@.subrange(0, head.len() as int) == head,
            exact::<T>() ==> bytes@ == head + pixels_of(framebuffer@, k as nat),
        decreases framebuffer@.len() - k,
    {
        let px = &framebuffer[k];
        let ghost before = bytes@;
        let r = channel_byte(*px.index(0));
        let g = channel_byte(*px.index(1));
        let b = channel_byte(*px.index(2));
        bytes.push(r);
        bytes.push(g);
        bytes.push(b);
        proof {
            assert(bytes@ =~= before + seq![r, g, b]);
            assert(bytes@.subrange(0, head.len() as int) =~= before.subrange(0, head.len() as int));
            if exact::<T>() {
                assert(bytes@ =~= head + pixels_of(framebuffer@, (k + 1) as nat));
            }
        }
        k += 1;
    }
    bytes
}

} // verus!
