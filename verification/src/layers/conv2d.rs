use vstd::prelude::*;

use crate::fixed_point::{dot_fits, dot_from, fits_i64, lemma_dot_zero_weights, rescale_with_remainder};
use crate::matrix::flat_matrix;

verus! {

/// Zero padding of the convolution input: output `(oy, ox)` reads input
/// `(oy + ky - pad_h, ox + kx - pad_w)`; coordinates outside the image read as `0`.
#[derive(Clone, Copy, Debug, PartialEq, Eq)]
pub struct Conv2dPadding {
    pub pad_h: usize,
    pub pad_w: usize,
}

/// Real rectangles of the image, kernel and output embedded in the maximum circuit shape;
/// coordinates outside them are dimension padding and must hold zero.
#[derive(Clone, Copy, Debug, PartialEq, Eq)]
pub struct Conv2dRealShape {
    pub ih_real: usize,
    pub iw_real: usize,
    pub kh_real: usize,
    pub kw_real: usize,
    pub oh_real: usize,
    pub ow_real: usize,
}

impl Conv2dRealShape {
    /// Every real rectangle fits its maximum shape.
    pub open spec fn fits<const IH: usize, const IW: usize, const KH: usize, const KW: usize, const OH: usize, const OW: usize>(
        &self,
    ) -> bool {
        &&& self.ih_real <= IH
        &&& self.iw_real <= IW
        &&& self.kh_real <= KH
        &&& self.kw_real <= KW
        &&& self.oh_real <= OH
        &&& self.ow_real <= OW
    }
}

impl Conv2dRealShape {
    /// The shape whose real rectangles are the whole maximum shapes: no dimension padding.
    pub fn full<const IH: usize, const IW: usize, const KH: usize, const KW: usize, const OH: usize, const OW: usize>() -> (s:
        Self)
        ensures
            s == (Self { ih_real: IH, iw_real: IW, kh_real: KH, kw_real: KW, oh_real: OH, ow_real: OW }),
            s.fits::<IH, IW, KH, KW, OH, OW>(),
    {
        Self { ih_real: IH, iw_real: IW, kh_real: KH, kw_real: KW, oh_real: OH, ow_real: OW }
    }

    /// Whether every real rectangle fits its maximum shape.
    pub fn check_fits<const IH: usize, const IW: usize, const KH: usize, const KW: usize, const OH: usize, const OW: usize>(
        &self,
    ) -> (b: bool)
        ensures
            b == self.fits::<IH, IW, KH, KW, OH, OW>(),
    {
        self.ih_real <= IH && self.iw_real <= IW && self.kh_real <= KH && self.kw_real <= KW && self.oh_real <= OH
            && self.ow_real <= OW
    }
}

pub open spec fn is_real_input_coord_spec(row: int, col: int, shape: Conv2dRealShape) -> bool {
    row < shape.ih_real && col < shape.iw_real
}

pub open spec fn is_real_kernel_coord_spec(row: int, col: int, shape: Conv2dRealShape) -> bool {
    row < shape.kh_real && col < shape.kw_real
}

pub open spec fn is_real_output_coord_spec(row: int, col: int, shape: Conv2dRealShape) -> bool {
    row < shape.oh_real && col < shape.ow_real
}

/// Whether `(row, col)` lies in the real image rectangle.
pub fn is_real_input_coord(row: usize, col: usize, shape: &Conv2dRealShape) -> (b: bool)
    ensures
        b == is_real_input_coord_spec(row as int, col as int, *shape),
{
    row < shape.ih_real && col < shape.iw_real
}

/// Whether `(row, col)` lies in the real kernel rectangle.
pub fn is_real_kernel_coord(row: usize, col: usize, shape: &Conv2dRealShape) -> (b: bool)
    ensures
        b == is_real_kernel_coord_spec(row as int, col as int, *shape),
{
    row < shape.kh_real && col < shape.kw_real
}

/// Whether `(row, col)` lies in the real output rectangle.
pub fn is_real_output_coord(row: usize, col: usize, shape: &Conv2dRealShape) -> (b: bool)
    ensures
        b == is_real_output_coord_spec(row as int, col as int, *shape),
{
    row < shape.oh_real && col < shape.ow_real
}

/// Integer witness of a single-channel fixed-point convolution.
#[derive(Clone, Copy, Debug, PartialEq, Eq)]
pub struct Conv2dFixedPointWitness<const OH: usize, const OW: usize> {
    pub raw: [[i64; OW]; OH],
    pub quotient: [[i64; OW]; OH],
    pub remainder: [[i64; OW]; OH],
    pub output: [[i64; OW]; OH],
}

/// A row-major `IH x IW` image as a flat sequence of integers.
pub open spec fn image_flat<const IH: usize, const IW: usize>(image: [[i64; IW]; IH]) -> Seq<int> {
    Seq::new((IH * IW) as nat, |i: int| flat_matrix(image)[i] as int)
}

/// Value at `(iy, ix)` of the row-major `IH x IW` image `img`, zero outside the image.
pub open spec fn image_at<const IH: usize, const IW: usize>(img: Seq<int>, iy: int, ix: int) -> int {
    if 0 <= iy < IH && 0 <= ix < IW {
        img[iy * IW + ix]
    } else {
        0
    }
}

/// The kernel in row-major order: entry `k` is `kernel[k / KW][k % KW]`.
pub open spec fn kernel_flat<const KH: usize, const KW: usize>(kernel: [[i64; KW]; KH]) -> Seq<int> {
    Seq::new((KH * KW) as nat, |k: int| kernel[k / (KW as int)][k % (KW as int)] as int)
}

/// The input patch under output `(oy, ox)`, in the kernel's row-major order.
pub open spec fn conv_patch<const IH: usize, const IW: usize, const KH: usize, const KW: usize>(
    img: Seq<int>,
    padding: Conv2dPadding,
    oy: int,
    ox: int,
) -> Seq<int> {
    Seq::new(
        (KH * KW) as nat,
        |k: int|
            image_at::<IH, IW>(img, oy + k / (KW as int) - padding.pad_h, ox + k % (KW as int) - padding.pad_w),
    )
}

/// Raw convolution sum at output `(oy, ox)`.
pub open spec fn conv_raw<const IH: usize, const IW: usize, const KH: usize, const KW: usize>(
    img: Seq<int>,
    kernel: [[i64; KW]; KH],
    padding: Conv2dPadding,
    oy: int,
    ox: int,
) -> int {
    dot_from(0, kernel_flat(kernel), conv_patch::<IH, IW, KH, KW>(img, padding, oy, ox), (KH * KW) as int)
}

/// Fixed-point convolution output `floor(raw / S) + bias` at `(oy, ox)`.
pub open spec fn conv_output<const IH: usize, const IW: usize, const KH: usize, const KW: usize>(
    img: Seq<int>,
    kernel: [[i64; KW]; KH],
    bias: int,
    padding: Conv2dPadding,
    scale: int,
    oy: int,
    ox: int,
) -> int {
    conv_raw::<IH, IW, KH, KW>(img, kernel, padding, oy, ox) / scale + bias
}

/// The convolution computed with `i64` arithmetic never overflows.
pub open spec fn conv_fits<const IH: usize, const IW: usize, const KH: usize, const KW: usize, const OH: usize, const OW: usize>(
    img: Seq<int>,
    kernel: [[i64; KW]; KH],
    bias: int,
    padding: Conv2dPadding,
    scale: int,
) -> bool {
    forall|oy: int, ox: int|
        0 <= oy < OH && 0 <= ox < OW ==> dot_fits(
            0,
            kernel_flat(kernel),
            #[trigger] conv_patch::<IH, IW, KH, KW>(img, padding, oy, ox),
            (KH * KW) as int,
        ) && fits_i64(conv_output::<IH, IW, KH, KW>(img, kernel, bias, padding, scale, oy, ox))
}

/// `w` is the witness of the convolution.
pub open spec fn conv_witness_matches<const IH: usize, const IW: usize, const KH: usize, const KW: usize, const OH: usize, const OW: usize>(
    w: Conv2dFixedPointWitness<OH, OW>,
    img: Seq<int>,
    kernel: [[i64; KW]; KH],
    bias: int,
    padding: Conv2dPadding,
    scale: int,
) -> bool {
    forall|oy: int, ox: int|
        0 <= oy < OH && 0 <= ox < OW ==> {
            &&& #[trigger] w.raw[oy][ox] == conv_raw::<IH, IW, KH, KW>(img, kernel, padding, oy, ox)
            &&& w.quotient[oy][ox] == conv_raw::<IH, IW, KH, KW>(img, kernel, padding, oy, ox) / scale
            &&& w.remainder[oy][ox] == conv_raw::<IH, IW, KH, KW>(img, kernel, padding, oy, ox) % scale
            &&& w.output[oy][ox] == conv_output::<IH, IW, KH, KW>(img, kernel, bias, padding, scale, oy, ox)
        }
}

/// Raw sum at one output coordinate, or `None` on `i64` overflow.
fn conv_raw_at<const IH: usize, const IW: usize, const KH: usize, const KW: usize>(
    image: &[[i64; IW]; IH],
    kernel: &[[i64; KW]; KH],
    padding: &Conv2dPadding,
    oy: usize,
    ox: usize,
) -> (res: Option<i64>)
    requires
        KH * KW <= usize::MAX,
    ensures
        res is Some <==> dot_fits(
            0,
            kernel_flat(*kernel),
            conv_patch::<IH, IW, KH, KW>(image_flat(*image), *padding, oy as int, ox as int),
            (KH * KW) as int,
        ),
        res matches Some(v) ==> v == conv_raw::<IH, IW, KH, KW>(image_flat(*image), *kernel, *padding, oy as int, ox as int),
{
    let ghost w = kernel_flat(*kernel);
    let ghost x = conv_patch::<IH, IW, KH, KW>(image_flat(*image), *padding, oy as int, ox as int);
    let total: usize = KH * KW;
    let mut acc: i64 = 0;
    let mut k: usize = 0;
    while k < total
        invariant
            k <= total,
            total == KH * KW,
            w == kernel_flat(*kernel),
            x == conv_patch::<IH, IW, KH, KW>(image_flat(*image), *padding, oy as int, ox as int),
            dot_fits(0, w, x, k as int),
            acc == dot_from(0, w, x, k as int),
        decreases total - k,
    {
        let ky: usize = k / KW;
        let kx: usize = k % KW;
        proof {
            assert(KH * KW == KW * KH) by (nonlinear_arith);
            vstd::arithmetic::div_mod::lemma_multiply_divide_lt(k as int, KW as int, KH as int);
        }
        let iy: i128 = oy as i128 + ky as i128 - padding.pad_h as i128;
        let ix: i128 = ox as i128 + kx as i128 - padding.pad_w as i128;
        let v: i64 = if 0 <= iy && iy < IH as i128 && 0 <= ix && ix < IW as i128 {
            image[iy as usize][ix as usize]
        } else {
            0
        };
        proof {
            if 0 <= iy && iy < IH as i128 && 0 <= ix && ix < IW as i128 {
                crate::matrix::lemma_flat_matrix_index(*image, iy as int, ix as int);
            }
        }
        assert(v == x[k as int]);
        assert(kernel[ky as int][kx as int] == w[k as int]);
        let p = match kernel[ky][kx].checked_mul(v) {
            Some(p) => p,
            None => {
                assert(!fits_i64(w[k as int] * x[k as int]));
                return None;
            },
        };
        acc = match acc.checked_add(p) {
            Some(s) => s,
            None => {
                assert(!fits_i64(dot_from(0, w, x, k + 1)));
                return None;
            },
        };
        k = k + 1;
    }
    Some(acc)
}

} // verus!

verus! {

/// Single-channel, stride-1 fixed-point convolution with zero input padding and its witness:
/// `out[oy][ox] = floor(sum_{ky,kx} kernel[ky][kx] * in(oy+ky-pad_h, ox+kx-pad_w) / S) + bias`;
/// `None` when `i64` arithmetic would overflow.
pub fn try_apply_conv2d_fixed_point_with_witness<const IH: usize, const IW: usize, const KH: usize, const KW: usize, const OH: usize, const OW: usize>(
    image: &[[i64; IW]; IH],
    kernel: &[[i64; KW]; KH],
    bias: i64,
    padding: &Conv2dPadding,
    scale: i64,
) -> (res: Option<Conv2dFixedPointWitness<OH, OW>>)
    requires
        scale > 0,
        KH * KW <= usize::MAX,
    ensures
        res is Some <==> conv_fits::<IH, IW, KH, KW, OH, OW>(image_flat(*image), *kernel, bias as int, *padding, scale as int),
        res matches Some(w) ==> conv_witness_matches::<IH, IW, KH, KW, OH, OW>(w, image_flat(*image), *kernel, bias as int, *padding, scale as int),
{
    let mut raw = [[0i64; OW]; OH];
    let mut quotient = [[0i64; OW]; OH];
    let mut remainder = [[0i64; OW]; OH];
    let mut output = [[0i64; OW]; OH];
    let mut oy: usize = 0;
    while oy < OH
        invariant
            oy <= OH,
            scale > 0,
            KH * KW <= usize::MAX,
            forall|y: int, x: int|
                0 <= y < oy && 0 <= x < OW ==> dot_fits(
                    0,
                    kernel_flat(*kernel),
                    #[trigger] conv_patch::<IH, IW, KH, KW>(image_flat(*image), *padding, y, x),
                    (KH * KW) as int,
                ) && fits_i64(conv_output::<IH, IW, KH, KW>(image_flat(*image), *kernel, bias as int, *padding, scale as int, y, x)),
            forall|y: int, x: int|
                0 <= y < oy && 0 <= x < OW ==> {
                    &&& #[trigger] raw[y][x] == conv_raw::<IH, IW, KH, KW>(image_flat(*image), *kernel, *padding, y, x)
                    &&& quotient[y][x] == conv_raw::<IH, IW, KH, KW>(image_flat(*image), *kernel, *padding, y, x) / (scale as int)
                    &&& remainder[y][x] == conv_raw::<IH, IW, KH, KW>(image_flat(*image), *kernel, *padding, y, x) % (scale as int)
                    &&& output[y][x] == conv_output::<IH, IW, KH, KW>(image_flat(*image), *kernel, bias as int, *padding, scale as int, y, x)
                },
        decreases OH - oy,
    {
        let mut raw_row = [0i64; OW];
        let mut q_row = [0i64; OW];
        let mut r_row = [0i64; OW];
        let mut out_row = [0i64; OW];
        let mut ox: usize = 0;
        while ox < OW
            invariant
                oy < OH,
                ox <= OW,
                scale > 0,
                KH * KW <= usize::MAX,
                forall|x: int|
                    0 <= x < ox ==> dot_fits(
                        0,
                        kernel_flat(*kernel),
                        #[trigger] conv_patch::<IH, IW, KH, KW>(image_flat(*image), *padding, oy as int, x),
                        (KH * KW) as int,
                    ) && fits_i64(conv_output::<IH, IW, KH, KW>(image_flat(*image), *kernel, bias as int, *padding, scale as int, oy as int, x)),
                forall|x: int| 0 <= x < ox ==> #[trigger] raw_row[x] == conv_raw::<IH, IW, KH, KW>(image_flat(*image), *kernel, *padding, oy as int, x),
                forall|x: int|
                    0 <= x < ox ==> #[trigger] q_row[x] == conv_raw::<IH, IW, KH, KW>(image_flat(*image), *kernel, *padding, oy as int, x) / (scale as int),
                forall|x: int|
                    0 <= x < ox ==> #[trigger] r_row[x] == conv_raw::<IH, IW, KH, KW>(image_flat(*image), *kernel, *padding, oy as int, x) % (scale as int),
                forall|x: int|
                    0 <= x < ox ==> #[trigger] out_row[x] == conv_output::<IH, IW, KH, KW>(
                        image_flat(*image),
                        *kernel,
                        bias as int,
                        *padding,
                        scale as int,
                        oy as int,
                        x,
                    ),
            decreases OW - ox,
        {
            let acc = match conv_raw_at(image, kernel, padding, oy, ox) {
                Some(v) => v,
                None => {
                    return None;
                },
            };
            let (q, r) = rescale_with_remainder(acc, scale);
            let v = match q.checked_add(bias) {
                Some(v) => v,
                None => {
                    assert(!fits_i64(conv_output::<IH, IW, KH, KW>(image_flat(*image), *kernel, bias as int, *padding, scale as int, oy as int, ox as int)));
                    return None;
                },
            };
            raw_row[ox] = acc;
            q_row[ox] = q;
            r_row[ox] = r;
            out_row[ox] = v;
            ox = ox + 1;
        }
        raw[oy] = raw_row;
        quotient[oy] = q_row;
        remainder[oy] = r_row;
        output[oy] = out_row;
        oy = oy + 1;
    }
    Some(Conv2dFixedPointWitness { raw, quotient, remainder, output })
}

/// Single-channel, stride-1 fixed-point convolution with zero input padding and its witness.
pub fn apply_conv2d_fixed_point_with_witness<const IH: usize, const IW: usize, const KH: usize, const KW: usize, const OH: usize, const OW: usize>(
    image: &[[i64; IW]; IH],
    kernel: &[[i64; KW]; KH],
    bias: i64,
    padding: &Conv2dPadding,
    scale: i64,
) -> (w: Conv2dFixedPointWitness<OH, OW>)
    requires
        scale > 0,
        KH * KW <= usize::MAX,
        conv_fits::<IH, IW, KH, KW, OH, OW>(image_flat(*image), *kernel, bias as int, *padding, scale as int),
    ensures
        conv_witness_matches::<IH, IW, KH, KW, OH, OW>(w, image_flat(*image), *kernel, bias as int, *padding, scale as int),
{
    match try_apply_conv2d_fixed_point_with_witness(image, kernel, bias, padding, scale) {
        Some(w) => w,
        None => {
            proof {
                assert(false);
            }
            Conv2dFixedPointWitness {
                raw: [[0i64; OW]; OH],
                quotient: [[0i64; OW]; OH],
                remainder: [[0i64; OW]; OH],
                output: [[0i64; OW]; OH],
            }
        },
    }
}

} // verus!

verus! {

/// A kernel whose only nonzero tap is `kernel[ky][kx] = v` shifts the zero-padded image: the raw
/// sum at output `(oy, ox)` is `v` times the input at `(oy + ky - pad_h, ox + kx - pad_w)`, or
/// zero when that coordinate lies outside the `IH x IW` image.
pub proof fn lemma_conv_single_tap<const IH: usize, const IW: usize, const KH: usize, const KW: usize>(
    img: Seq<int>,
    kernel: [[i64; KW]; KH],
    padding: Conv2dPadding,
    ky: int,
    kx: int,
    oy: int,
    ox: int,
)
    requires
        0 <= ky < KH,
        0 <= kx < KW,
        forall|r: int, c: int| 0 <= r < KH && 0 <= c < KW && (r != ky || c != kx) ==> #[trigger] kernel[r][c] == 0,
    ensures
        ({
            let iy = oy + ky - padding.pad_h;
            let ix = ox + kx - padding.pad_w;
            conv_raw::<IH, IW, KH, KW>(img, kernel, padding, oy, ox) == kernel[ky][kx] * if 0 <= iy < IH && 0
                <= ix < IW {
                img[iy * IW + ix]
            } else {
                0
            }
        }),
{
    let kf = kernel_flat(kernel);
    let patch = conv_patch::<IH, IW, KH, KW>(img, padding, oy, ox);
    let total = (KH * KW) as int;
    let k0 = ky * KW + kx;
    vstd::arithmetic::div_mod::lemma_fundamental_div_mod_converse(k0, KW as int, ky, kx);
    assert(0 <= k0 < total) by (nonlinear_arith)
        requires
            0 <= ky < KH,
            0 <= kx < KW,
            k0 == ky * KW + kx,
            total == KH * KW,
    ;
    assert forall|k: int| 0 <= k < total && k != k0 implies #[trigger] kf[k] == 0 by {
        vstd::arithmetic::div_mod::lemma_fundamental_div_mod(k, KW as int);
        vstd::arithmetic::div_mod::lemma_div_pos_is_pos(k, KW as int);
        vstd::arithmetic::mul::lemma_mul_is_commutative(KH as int, KW as int);
        vstd::arithmetic::div_mod::lemma_multiply_divide_lt(k, KW as int, KH as int);
        vstd::arithmetic::mul::lemma_mul_is_commutative(KW as int, k / (KW as int));
        if k / (KW as int) == ky && k % (KW as int) == kx {
            assert(k == k0);
        }
        assert(kernel[k / (KW as int)][k % (KW as int)] == 0);
    }
    lemma_dot_zero_weights(0, kf, patch, 0, k0);
    lemma_dot_zero_weights(0, kf, patch, k0 + 1, total);
    assert(kf[k0] == kernel[ky][kx]);
}

} // verus!

verus! {

/// A convolution witness is floor division by `scale` pixel by pixel:
/// `raw = quotient * scale + remainder` with `0 <= remainder < scale`, and
/// `output = quotient + bias`.
pub proof fn lemma_conv_witness_arithmetic<const IH: usize, const IW: usize, const KH: usize, const KW: usize, const OH: usize, const OW: usize>(
    w: Conv2dFixedPointWitness<OH, OW>,
    img: Seq<int>,
    kernel: [[i64; KW]; KH],
    bias: int,
    padding: Conv2dPadding,
    scale: int,
    oy: int,
    ox: int,
)
    requires
        scale > 0,
        conv_witness_matches::<IH, IW, KH, KW, OH, OW>(w, img, kernel, bias, padding, scale),
        0 <= oy < OH,
        0 <= ox < OW,
    ensures
        w.raw[oy][ox] == conv_raw::<IH, IW, KH, KW>(img, kernel, padding, oy, ox),
        w.quotient[oy][ox] * scale + w.remainder[oy][ox] == w.raw[oy][ox],
        0 <= w.remainder[oy][ox] < scale,
        w.output[oy][ox] == w.quotient[oy][ox] + bias,
{
    let r = conv_raw::<IH, IW, KH, KW>(img, kernel, padding, oy, ox);
    assert(w.raw[oy][ox] == r);
    vstd::arithmetic::div_mod::lemma_fundamental_div_mod(r, scale);
    vstd::arithmetic::mul::lemma_mul_is_commutative(scale, r / scale);
}

} // verus!
