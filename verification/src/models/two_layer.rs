use vstd::prelude::*;

use crate::activations::clipped_relu_spec;
use crate::affine::{
    affine_fixed_point_fits, affine_fixed_point_row, affine_raw, affine_witness_matches,
    try_apply_affine_fixed_point_with_witness,
};
use crate::error::TraceError;
use crate::fixed_point::{dot_from, ints, FixedPointConfig};

verus! {

/// Integer witness of a fixed-point two-layer perceptron
/// `h = ClippedReLU(floor(W1 u / S) + b1)`, `y = floor(W2 h / S) + b2`.
#[derive(Clone, Copy, Debug)]
pub struct TwoLayerWitness<const H: usize, const OUT: usize> {
    pub hidden_raw: [i64; H],
    pub hidden_quotient: [i64; H],
    pub hidden_remainder: [i64; H],
    pub hidden_affine: [i64; H],
    pub hidden_act: [i64; H],
    pub output_raw: [i64; OUT],
    pub output_quotient: [i64; OUT],
    pub output_remainder: [i64; OUT],
    pub output: [i64; OUT],
}

/// Hidden activations `ClippedReLU(floor(W1 u / S) + b1)`.
pub open spec fn two_layer_hidden_act<const IN: usize, const H: usize>(
    w1: [[i64; IN]; H],
    b1: [i64; H],
    config: FixedPointConfig,
    u: Seq<int>,
) -> Seq<int> {
    Seq::new(
        H as nat,
        |r: int| clipped_relu_spec(affine_fixed_point_row(w1, b1, u, config.scale as int, r), config.clip_max as int),
    )
}

/// Output `floor(W2 h / S) + b2`.
pub open spec fn two_layer_output<const IN: usize, const H: usize, const OUT: usize>(
    w1: [[i64; IN]; H],
    b1: [i64; H],
    w2: [[i64; H]; OUT],
    b2: [i64; OUT],
    config: FixedPointConfig,
    u: Seq<int>,
) -> Seq<int> {
    let h = two_layer_hidden_act(w1, b1, config, u);
    Seq::new(OUT as nat, |r: int| affine_fixed_point_row(w2, b2, h, config.scale as int, r))
}

/// The perceptron applied to `u` stays in range: no `i64` overflow, hidden quotients in the
/// quotient range and hidden pre-activations in the table's domain, output quotients in the
/// quotient range and outputs in the value range.
pub open spec fn two_layer_ok<const IN: usize, const H: usize, const OUT: usize>(
    w1: [[i64; IN]; H],
    b1: [i64; H],
    w2: [[i64; H]; OUT],
    b2: [i64; OUT],
    config: FixedPointConfig,
    u: Seq<int>,
) -> bool {
    let s = config.scale as int;
    let h = two_layer_hidden_act(w1, b1, config, u);
    &&& affine_fixed_point_fits(w1, b1, u, s)
    &&& forall|r: int|
        0 <= r < H ==> config.in_quotient_range(#[trigger] affine_raw(w1, u, r) / s)
            && config.table_spec().contains_spec(affine_fixed_point_row(w1, b1, u, s, r))
    &&& affine_fixed_point_fits(w2, b2, h, s)
    &&& forall|r: int|
        0 <= r < OUT ==> config.in_quotient_range(#[trigger] affine_raw(w2, h, r) / s)
            && config.in_value_range(affine_fixed_point_row(w2, b2, h, s, r))
}

/// `wit` is the witness of the perceptron applied to `u`.
pub open spec fn two_layer_matches<const IN: usize, const H: usize, const OUT: usize>(
    wit: TwoLayerWitness<H, OUT>,
    w1: [[i64; IN]; H],
    b1: [i64; H],
    w2: [[i64; H]; OUT],
    b2: [i64; OUT],
    config: FixedPointConfig,
    u: Seq<int>,
) -> bool {
    let s = config.scale as int;
    let h = two_layer_hidden_act(w1, b1, config, u);
    &&& affine_witness_matches(w1, b1, u, s, wit.hidden_raw, wit.hidden_quotient, wit.hidden_remainder, wit.hidden_affine)
    &&& ints(wit.hidden_act) == h
    &&& affine_witness_matches(w2, b2, h, s, wit.output_raw, wit.output_quotient, wit.output_remainder, wit.output)
    &&& ints(wit.output) == two_layer_output(w1, b1, w2, b2, config, u)
}

/// Applies the fixed-point two-layer perceptron to `u` with its witness; `Err` exactly when it
/// leaves the admitted ranges.
pub fn two_layer_forward<const IN: usize, const H: usize, const OUT: usize>(
    w1: &[[i64; IN]; H],
    b1: &[i64; H],
    w2: &[[i64; H]; OUT],
    b2: &[i64; OUT],
    config: &FixedPointConfig,
    u: &[i64; IN],
) -> (res: Result<TwoLayerWitness<H, OUT>, TraceError>)
    requires
        config.scale > 0,
    ensures
        res is Ok <==> two_layer_ok(*w1, *b1, *w2, *b2, *config, ints(*u)),
        res matches Ok(wit) ==> two_layer_matches(wit, *w1, *b1, *w2, *b2, *config, ints(*u)),
{
    let ghost us = ints(*u);
    let ghost s = config.scale as int;
    let table = config.clipped_relu_table();
    let hidden = match try_apply_affine_fixed_point_with_witness(w1, b1, u, config.scale) {
        Some(v) => v,
        None => {
            return Err(TraceError::OutOfRange);
        },
    };
    let mut hidden_act = [0i64; H];
    let mut r: usize = 0;
    while r < H
        invariant
            r <= H,
            config.scale > 0,
            table == config.table_spec(),
            us == ints(*u),
            s == config.scale as int,
            affine_witness_matches(*w1, *b1, us, s, hidden.0, hidden.1, hidden.2, hidden.3),
            forall|k: int|
                0 <= k < r ==> config.in_quotient_range(#[trigger] affine_raw(*w1, us, k) / s)
                    && config.table_spec().contains_spec(affine_fixed_point_row(*w1, *b1, us, s, k)),
            forall|k: int|
                0 <= k < r ==> #[trigger] hidden_act[k] == two_layer_hidden_act(*w1, *b1, *config, us)[k],
        decreases H - r,
    {
        assert(hidden.0[r as int] == affine_raw(*w1, us, r as int));
        if hidden.1[r] < config.quotient_min || hidden.1[r] > config.quotient_max {
            assert(!config.in_quotient_range(affine_raw(*w1, us, r as int) / s));
            return Err(TraceError::OutOfRange);
        }
        if !table.contains(hidden.3[r]) {
            assert(!config.table_spec().contains_spec(affine_fixed_point_row(*w1, *b1, us, s, r as int)));
            return Err(TraceError::OutOfRange);
        }
        hidden_act[r] = table.clipped_relu(hidden.3[r]);
        r = r + 1;
    }
    let ghost h = two_layer_hidden_act(*w1, *b1, *config, us);
    assert(ints(hidden_act) =~= h);
    let output = match try_apply_affine_fixed_point_with_witness(w2, b2, &hidden_act, config.scale) {
        Some(v) => v,
        None => {
            return Err(TraceError::OutOfRange);
        },
    };
    let mut r: usize = 0;
    while r < OUT
        invariant
            r <= OUT,
            us == ints(*u),
            h == two_layer_hidden_act(*w1, *b1, *config, us),
            s == config.scale as int,
            affine_witness_matches(*w2, *b2, h, s, output.0, output.1, output.2, output.3),
            forall|k: int|
                0 <= k < r ==> config.in_quotient_range(#[trigger] affine_raw(*w2, h, k) / s)
                    && config.in_value_range(affine_fixed_point_row(*w2, *b2, h, s, k)),
        decreases OUT - r,
    {
        assert(output.0[r as int] == affine_raw(*w2, h, r as int));
        if output.1[r] < config.quotient_min || output.1[r] > config.quotient_max {
            assert(!config.in_quotient_range(affine_raw(*w2, h, r as int) / s));
            return Err(TraceError::OutOfRange);
        }
        if output.3[r] < config.value_min || output.3[r] > config.value_max {
            assert(!config.in_value_range(affine_fixed_point_row(*w2, *b2, h, s, r as int)));
            return Err(TraceError::OutOfRange);
        }
        r = r + 1;
    }
    proof {
        assert forall|k: int| 0 <= k < OUT implies #[trigger] ints(output.3)[k]
            == two_layer_output(*w1, *b1, *w2, *b2, *config, us)[k] by {
            assert(output.0[k] == affine_raw(*w2, h, k));
        }
        assert(ints(output.3) =~= two_layer_output(*w1, *b1, *w2, *b2, *config, us));
    }
    Ok(TwoLayerWitness {
        hidden_raw: hidden.0,
        hidden_quotient: hidden.1,
        hidden_remainder: hidden.2,
        hidden_affine: hidden.3,
        hidden_act,
        output_raw: output.0,
        output_quotient: output.1,
        output_remainder: output.2,
        output: output.3,
    })
}

} // verus!

verus! {

/// A two-layer perceptron witness chains its layers: each layer is a fixed-point affine map
/// (`raw = q * S + r`, `0 <= r < S`, pre-activation `q + bias`) over the previous values, the
/// hidden activation is the clipped ReLU of the hidden pre-activation, and the second layer
/// reads those activations: `output_raw[j]` is the dot product of `W2[j]` with `hidden_act`.
pub proof fn lemma_two_layer_witness_arithmetic<const IN: usize, const H: usize, const OUT: usize>(
    wit: TwoLayerWitness<H, OUT>,
    w1: [[i64; IN]; H],
    b1: [i64; H],
    w2: [[i64; H]; OUT],
    b2: [i64; OUT],
    config: FixedPointConfig,
    u: Seq<int>,
    r: int,
    j: int,
)
    requires
        config.scale > 0,
        two_layer_matches(wit, w1, b1, w2, b2, config, u),
    ensures
        0 <= r < H ==> {
            &&& wit.hidden_raw[r] == dot_from(0, ints(w1[r]), u, IN as int)
            &&& wit.hidden_quotient[r] * config.scale + wit.hidden_remainder[r] == wit.hidden_raw[r]
            &&& 0 <= wit.hidden_remainder[r] < config.scale
            &&& wit.hidden_affine[r] == wit.hidden_quotient[r] + b1[r]
            &&& wit.hidden_act[r] == clipped_relu_spec(wit.hidden_affine[r] as int, config.clip_max as int)
        },
        0 <= j < OUT ==> {
            &&& wit.output_raw[j] == dot_from(0, ints(w2[j]), ints(wit.hidden_act), H as int)
            &&& wit.output_quotient[j] * config.scale + wit.output_remainder[j] == wit.output_raw[j]
            &&& 0 <= wit.output_remainder[j] < config.scale
            &&& wit.output[j] == wit.output_quotient[j] + b2[j]
        },
{
    let s = config.scale as int;
    let h = two_layer_hidden_act(w1, b1, config, u);
    if 0 <= r < H {
        crate::affine::lemma_affine_witness_arithmetic(
            w1,
            b1,
            u,
            s,
            wit.hidden_raw,
            wit.hidden_quotient,
            wit.hidden_remainder,
            wit.hidden_affine,
            r,
        );
        assert(ints(wit.hidden_act)[r] == h[r]);
        assert(wit.hidden_affine[r] == affine_fixed_point_row(w1, b1, u, s, r));
    }
    if 0 <= j < OUT {
        crate::affine::lemma_affine_witness_arithmetic(
            w2,
            b2,
            h,
            s,
            wit.output_raw,
            wit.output_quotient,
            wit.output_remainder,
            wit.output,
            j,
        );
    }
}

} // verus!
