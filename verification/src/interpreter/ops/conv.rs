//! Convolution and batch normalization.

use burn_flex::FlexTensor;
use vstd::prelude::*;
use vstd::string::StringExecFns;

use burn_backend::TensorData;

use crate::backend::{
    clone_data, clone_tensor, data_meta, flex_add, flex_div, flex_from_data, flex_mul, flex_reshape, flex_sqrt,
    flex_sub, meta, shape_of, tensor_from_data,
};
use crate::graph::{Argument, BatchNormConfig, Conv2dConfig, OpNode, PaddingConfig2d};
use crate::interpreter::context::{resolved, resolved_meta, ExecutionContext};
use crate::interpreter::ops::{
    applied, exactly, resolve_input, store_output, OpError, Outcome,
};
use crate::tensor::{
    apply_binary, apply_conv2d, apply_reshape, apply_unary, binary_meta, conv2d_meta,
    conv_with_bias, reshape_meta, unary_meta, BinaryOp, TensorMeta, UnaryOp,
};

verus! {

/// The padding on each side of the two spatial axes that a padding setting stands for: none for
/// `Valid`; for explicit amounts, the mean of the two sides of each axis, rounded down.
pub open spec fn padding_amounts(cfg: PaddingConfig2d) -> Seq<usize> {
    match cfg {
        PaddingConfig2d::Valid => seq![0usize, 0usize],
        PaddingConfig2d::Explicit(top, left, bottom, right) => seq![
            ((top + bottom) / 2) as usize,
            ((left + right) / 2) as usize,
        ],
    }
}

/// The symmetric padding of a window per spatial axis (see `padding_amounts`).
pub fn symmetric_padding(cfg: &PaddingConfig2d) -> (r: [usize; 2])
    ensures
        r@ == padding_amounts(*cfg),
{
    match cfg {
        PaddingConfig2d::Valid => [0, 0],
        PaddingConfig2d::Explicit(top, left, bottom, right) => [
            half_sum(*top, *bottom),
            half_sum(*left, *right),
        ],
    }
}

/// `(a + b) / 2` without overflow.
fn half_sum(a: usize, b: usize) -> (r: usize)
    ensures
        r == (a + b) / 2,
{
    a / 2 + b / 2 + (a % 2 + b % 2) / 2
}

/// The option-wrapped meta of an optional operand.
pub open spec fn optional_meta(inputs: Seq<Argument>, view: Map<Seq<char>, FlexTensor>, k: int) -> Option<
    TensorMeta,
> {
    if k < inputs.len() {
        resolved_meta(view, inputs[k])
    } else {
        None
    }
}

/// An optional operand as a tensor (see `optional_meta`).
pub open spec fn optional_value(inputs: Seq<Argument>, view: Map<Seq<char>, FlexTensor>, k: int) -> Option<
    FlexTensor,
> {
    if k < inputs.len() {
        resolved(view, inputs[k])
    } else {
        None
    }
}

/// What `Conv2d` does over the tensors `view`: input and weight must resolve; the bias (third
/// input) is used where it resolves; the padding is made symmetric; the backend must accept the
/// operands (see `conv2d_meta`); the result has the shape and element type given there and is
/// the convolution without bias plus the bias, where it resolves, per output channel.
pub open spec fn conv2d_outcome(node: OpNode<Conv2dConfig>, view: Map<Seq<char>, FlexTensor>) -> Outcome {
    if node.inputs@.len() < 1 {
        Err(OpError::MissingSlot)
    } else if resolved_meta(view, node.inputs@[0]) is None {
        Err(OpError::Unavailable("conv2d: missing input"))
    } else if node.inputs@.len() < 2 {
        Err(OpError::MissingSlot)
    } else if resolved_meta(view, node.inputs@[1]) is None {
        Err(OpError::Unavailable("conv2d: missing weight"))
    } else if node.outputs@.len() < 1 {
        Err(OpError::MissingSlot)
    } else {
        let cfg = node.config;
        match conv2d_meta(
            resolved_meta(view, node.inputs@[0])->Some_0,
            resolved_meta(view, node.inputs@[1])->Some_0,
            optional_meta(node.inputs@, view, 2),
            cfg.stride@,
            padding_amounts(cfg.padding),
            cfg.dilation@,
            cfg.groups as int,
        ) {
            Some(m) => Ok(
                (
                    conv_with_bias(
                        optional_value(node.inputs@, view, 2),
                        meta(resolved(view, node.inputs@[1])->Some_0).shape[0],
                    ),
                    m,
                ),
            ),
            None => Err(OpError::Rejected),
        }
    }
}

/// `Conv2d`: the 2-D convolution of the input by the weight, plus the optional bias, under the
/// node's output name.
pub fn conv2d(node: &OpNode<Conv2dConfig>, ctx: &mut ExecutionContext) -> (r: Result<(), OpError>)
    ensures
        applied(*old(ctx), *final(ctx), node.outputs@, conv2d_outcome(*node, old(ctx)@), r),
{
    let x = match resolve_input(ctx, &node.inputs, 0, "conv2d: missing input") {
        Ok(t) => t,
        Err(e) => return Err(e),
    };
    let w = match resolve_input(ctx, &node.inputs, 1, "conv2d: missing weight") {
        Ok(t) => t,
        Err(e) => return Err(e),
    };
    let bias = if node.inputs.len() >= 3 {
        ctx.resolve(&node.inputs[2])
    } else {
        None
    };
    let cfg = &node.config;
    let pad = symmetric_padding(&cfg.padding);
    if node.outputs.len() < 1 {
        return Err(OpError::MissingSlot);
    }
    match apply_conv2d(x, w, bias, cfg.stride, pad, cfg.dilation, cfg.groups) {
        Some(y) => {
            store_output(ctx, &node.outputs, y);
            Ok(())
        },
        None => Err(OpError::Rejected),
    }
}

/// The shape per-channel parameters take to broadcast against a batch-normalized input of rank
/// `rank`: `[1, c, 1, ..., 1]`.
pub open spec fn channel_shape(c: usize, rank: int) -> Seq<usize> {
    seq![1usize, c] + Seq::new((rank - 2) as nat, |i: int| 1usize)
}

/// The shape of `[1, c, 1, ..., 1]` for an input of rank `rank`, at least 2.
fn channel_dims(c: usize, rank: usize) -> (r: Vec<usize>)
    requires
        rank >= 2,
    ensures
        r@ == channel_shape(c, rank as int),
{
    let mut out: Vec<usize> = Vec::new();
    out.push(1);
    out.push(c);
    let mut i: usize = 2;
    while i < rank
        invariant
            2 <= i <= rank,
            out@ =~= seq![1usize, c] + Seq::new((i - 2) as nat, |j: int| 1usize),
        decreases rank - i,
    {
        out.push(1);
        i = i + 1;
    }
    out
}

/// Batch normalization from its four parameters: `(x - mean) / sqrt(var + eps) * gamma + beta`,
/// each parameter reshaped to `[1, c, 1, ..., 1]` with `c` the first dimension of `gamma` (1 where
/// it has none); `None` where the input has rank below 2 or the backend does not accept a step.
pub open spec fn batch_norm_full(
    x: TensorMeta,
    gamma: TensorMeta,
    beta: TensorMeta,
    mean: TensorMeta,
    var: TensorMeta,
    eps: TensorMeta,
) -> Option<TensorMeta> {
    let rank = x.shape.len() as int;
    if rank < 2 {
        None
    } else {
        let c = if gamma.shape.len() > 0 {
            gamma.shape[0]
        } else {
            1usize
        };
        let bs = channel_shape(c, rank);
        match (
            reshape_meta(var, bs),
            reshape_meta(mean, bs),
            reshape_meta(gamma, bs),
            reshape_meta(beta, bs),
        ) {
            (Some(v), Some(m), Some(g), Some(b)) => match binary_meta(v, eps) {
                Some(ve) => match unary_meta(ve) {
                    Some(denom) => match binary_meta(x, m) {
                        Some(centered) => match binary_meta(centered, denom) {
                            Some(normed) => match binary_meta(normed, g) {
                                Some(scaled) => binary_meta(scaled, b),
                                None => None,
                            },
                            None => None,
                        },
                        None => None,
                    },
                    None => None,
                },
                None => None,
            },
            _ => None,
        }
    }
}

/// What the backend computes for the full batch-normalization formula (see `batch_norm_full`).
pub open spec fn batch_norm_value(
    x: FlexTensor,
    gamma: FlexTensor,
    beta: FlexTensor,
    mean: FlexTensor,
    var: FlexTensor,
    eps: TensorData,
) -> FlexTensor {
    let c = if meta(gamma).shape.len() > 0 {
        meta(gamma).shape[0]
    } else {
        1usize
    };
    let bs = channel_shape(c, meta(x).shape.len() as int);
    let denom = flex_sqrt(flex_add(flex_reshape(var, bs), flex_from_data(eps)));
    let normed = flex_div(flex_sub(x, flex_reshape(mean, bs)), denom);
    flex_add(flex_mul(normed, flex_reshape(gamma, bs)), flex_reshape(beta, bs))
}

/// The names under which a model may hold pre-fused batch-normalization parameters.
pub open spec fn scale_key(name: Seq<char>) -> Seq<char> {
    name + "::scale"@
}

pub open spec fn offset_key(name: Seq<char>) -> Seq<char> {
    name + "::offset"@
}

/// What `BatchNormalization` does over the tensors `view`: the input must resolve; where tensors
/// named `<node>::scale` and `<node>::offset` are there the result is `x * scale + offset`;
/// otherwise the four parameters must resolve, in order, and the result is the full formula
/// (see `batch_norm_full`).
pub open spec fn batch_norm_outcome(node: OpNode<BatchNormConfig>, view: Map<Seq<char>, FlexTensor>) -> Outcome {
    let ins = node.inputs@;
    if ins.len() < 1 {
        Err(OpError::MissingSlot)
    } else if resolved_meta(view, ins[0]) is None {
        Err(OpError::Unavailable("batch_norm: missing input"))
    } else {
        let x = resolved_meta(view, ins[0])->Some_0;
        let xt = resolved(view, ins[0])->Some_0;
        let fused = view.contains_key(scale_key(node.name@)) && view.contains_key(
            offset_key(node.name@),
        );
        let value = if fused {
            flex_add(flex_mul(xt, view[scale_key(node.name@)]), view[offset_key(node.name@)])
        } else {
            batch_norm_value(
                xt,
                resolved(view, ins[1])->Some_0,
                resolved(view, ins[2])->Some_0,
                resolved(view, ins[3])->Some_0,
                resolved(view, ins[4])->Some_0,
                node.config.epsilon,
            )
        };
        let y = if fused {
            match binary_meta(x, meta(view[scale_key(node.name@)])) {
                Some(xs) => Ok(binary_meta(xs, meta(view[offset_key(node.name@)]))),
                None => Ok(None),
            }
        } else if ins.len() < 2 {
            Err(OpError::MissingSlot)
        } else if resolved_meta(view, ins[1]) is None {
            Err(OpError::Unavailable("batch_norm: missing gamma"))
        } else if ins.len() < 3 {
            Err(OpError::MissingSlot)
        } else if resolved_meta(view, ins[2]) is None {
            Err(OpError::Unavailable("batch_norm: missing beta"))
        } else if ins.len() < 4 {
            Err(OpError::MissingSlot)
        } else if resolved_meta(view, ins[3]) is None {
            Err(OpError::Unavailable("batch_norm: missing mean"))
        } else if ins.len() < 5 {
            Err(OpError::MissingSlot)
        } else if resolved_meta(view, ins[4]) is None {
            Err(OpError::Unavailable("batch_norm: missing var"))
        } else {
            Ok(
                batch_norm_full(
                    x,
                    resolved_meta(view, ins[1])->Some_0,
                    resolved_meta(view, ins[2])->Some_0,
                    resolved_meta(view, ins[3])->Some_0,
                    resolved_meta(view, ins[4])->Some_0,
                    data_meta(node.config.epsilon),
                ),
            )
        };
        match y {
            Err(e) => Err(e),
            Ok(None) => Err(OpError::Rejected),
            Ok(Some(m)) => if node.outputs@.len() < 1 {
                Err(OpError::MissingSlot)
            } else {
                Ok((exactly(value), m))
            },
        }
    }
}

/// Reshapes a per-channel parameter to `[1, c, 1, ..., 1]`.
fn to_channels(t: FlexTensor, c: usize, rank: usize) -> (r: Option<FlexTensor>)
    requires
        rank >= 2,
    ensures
        r matches Some(y) ==> y == flex_reshape(t, channel_shape(c, rank as int)),
        match r {
            Some(y) => reshape_meta(meta(t), channel_shape(c, rank as int)) == Some(meta(y)),
            None => reshape_meta(meta(t), channel_shape(c, rank as int)) is None,
        },
{
    apply_reshape(t, channel_dims(c, rank))
}

/// `BatchNormalization` with pre-fused parameters where the model holds them, else from the
/// four parameters (see `batch_norm_outcome`), under the node's output name.
pub fn batch_norm_fused(node: &OpNode<BatchNormConfig>, ctx: &mut ExecutionContext) -> (r: Result<
    (),
    OpError,
>)
    ensures
        applied(*old(ctx), *final(ctx), node.outputs@, batch_norm_outcome(*node, old(ctx)@), r),
{
    let x = match resolve_input(ctx, &node.inputs, 0, "batch_norm: missing input") {
        Ok(t) => t,
        Err(e) => return Err(e),
    };
    let scale_name = node.name.clone().concat("::scale");
    let offset_name = node.name.clone().concat("::offset");
    let y = match (ctx.get(scale_name.as_str()), ctx.get(offset_name.as_str())) {
        (Some(scale), Some(offset)) => {
            let xs = match apply_binary(BinaryOp::Mul, x, scale) {
                Some(t) => t,
                None => return Err(OpError::Rejected),
            };
            match apply_binary(BinaryOp::Add, xs, offset) {
                Some(t) => t,
                None => return Err(OpError::Rejected),
            }
        },
        _ => {
            let gamma = match resolve_input(ctx, &node.inputs, 1, "batch_norm: missing gamma") {
                Ok(t) => t,
                Err(e) => return Err(e),
            };
            let beta = match resolve_input(ctx, &node.inputs, 2, "batch_norm: missing beta") {
                Ok(t) => t,
                Err(e) => return Err(e),
            };
            let mean = match resolve_input(ctx, &node.inputs, 3, "batch_norm: missing mean") {
                Ok(t) => t,
                Err(e) => return Err(e),
            };
            let var = match resolve_input(ctx, &node.inputs, 4, "batch_norm: missing var") {
                Ok(t) => t,
                Err(e) => return Err(e),
            };
            match normalize(x, gamma, beta, mean, var, &node.config.epsilon) {
                Some(t) => t,
                None => return Err(OpError::Rejected),
            }
        },
    };
    if node.outputs.len() < 1 {
        return Err(OpError::MissingSlot);
    }
    store_output(ctx, &node.outputs, y);
    Ok(())
}

/// The batch-normalization parameters pre-fused at load time: `scale = gamma / sqrt(var + eps)`
/// and `offset = beta - mean * scale`, both reshaped to `[1, c, 1, 1]` with `c` the first
/// dimension of `gamma` (1 where it has none); `None` where the backend does not accept a step.
pub open spec fn bn_fusion(
    gamma: FlexTensor,
    beta: FlexTensor,
    mean: FlexTensor,
    var: FlexTensor,
    eps: TensorData,
) -> Option<(FlexTensor, FlexTensor)> {
    let c = if meta(gamma).shape.len() > 0 {
        meta(gamma).shape[0]
    } else {
        1usize
    };
    let bs = channel_shape(c, 4);
    let scale = flex_div(gamma, flex_sqrt(flex_add(var, flex_from_data(eps))));
    let offset = flex_sub(beta, flex_mul(mean, scale));
    let accepted = match binary_meta(meta(var), data_meta(eps)) {
        Some(ve) => match unary_meta(ve) {
            Some(d) => match binary_meta(meta(gamma), d) {
                Some(sc) => match binary_meta(meta(mean), sc) {
                    Some(ms) => match binary_meta(meta(beta), ms) {
                        Some(off) => reshape_meta(sc, bs) is Some && reshape_meta(off, bs) is Some,
                        None => false,
                    },
                    None => false,
                },
                None => false,
            },
            None => false,
        },
        None => false,
    };
    if accepted {
        Some((flex_reshape(scale, bs), flex_reshape(offset, bs)))
    } else {
        None
    }
}

/// Pre-fuses batch-normalization parameters (see `bn_fusion`).
pub fn fuse_params(
    gamma: FlexTensor,
    beta: FlexTensor,
    mean: FlexTensor,
    var: FlexTensor,
    eps: &TensorData,
) -> (r: Option<(FlexTensor, FlexTensor)>)
    ensures
        r == bn_fusion(gamma, beta, mean, var, *eps),
{
    let gs = shape_of(&gamma);
    let c = if gs.len() > 0 {
        gs[0]
    } else {
        1
    };
    let eps_t = tensor_from_data(clone_data(eps));
    let ve = match apply_binary(BinaryOp::Add, var, eps_t) {
        Some(t) => t,
        None => return None,
    };
    let denom = match apply_unary(UnaryOp::Sqrt, ve) {
        Some(t) => t,
        None => return None,
    };
    let scale = match apply_binary(BinaryOp::Div, gamma, denom) {
        Some(t) => t,
        None => return None,
    };
    let ms = match apply_binary(BinaryOp::Mul, mean, clone_tensor(&scale)) {
        Some(t) => t,
        None => return None,
    };
    let off = match apply_binary(BinaryOp::Sub, beta, ms) {
        Some(t) => t,
        None => return None,
    };
    let s4 = match to_channels(scale, c, 4) {
        Some(t) => t,
        None => return None,
    };
    let o4 = match to_channels(off, c, 4) {
        Some(t) => t,
        None => return None,
    };
    Some((s4, o4))
}

/// The full batch-normalization formula (see `batch_norm_full`).
fn normalize(
    x: FlexTensor,
    gamma: FlexTensor,
    beta: FlexTensor,
    mean: FlexTensor,
    var: FlexTensor,
    eps: &TensorData,
) -> (r: Option<FlexTensor>)
    ensures
        r matches Some(y) ==> y == batch_norm_value(x, gamma, beta, mean, var, *eps),
        match r {
            Some(y) => batch_norm_full(
                meta(x),
                meta(gamma),
                meta(beta),
                meta(mean),
                meta(var),
                data_meta(*eps),
            ) == Some(meta(y)),
            None => batch_norm_full(
                meta(x),
                meta(gamma),
                meta(beta),
                meta(mean),
                meta(var),
                data_meta(*eps),
            ) is None,
        },
{
    let rank = shape_of(&x).len();
    if rank < 2 {
        return None;
    }
    let gs = shape_of(&gamma);
    let c = if gs.len() > 0 {
        gs[0]
    } else {
        1
    };
    let var = match to_channels(var, c, rank) {
        Some(t) => t,
        None => return None,
    };
    let mean = match to_channels(mean, c, rank) {
        Some(t) => t,
        None => return None,
    };
    let gamma = match to_channels(gamma, c, rank) {
        Some(t) => t,
        None => return None,
    };
    let beta = match to_channels(beta, c, rank) {
        Some(t) => t,
        None => return None,
    };
    let eps_t = tensor_from_data(clone_data(eps));
    let ve = match apply_binary(BinaryOp::Add, var, eps_t) {
        Some(t) => t,
        None => return None,
    };
    let denom = match apply_unary(UnaryOp::Sqrt, ve) {
        Some(t) => t,
        None => return None,
    };
    let centered = match apply_binary(BinaryOp::Sub, x, mean) {
        Some(t) => t,
        None => return None,
    };
    let normed = match apply_binary(BinaryOp::Div, centered, denom) {
        Some(t) => t,
        None => return None,
    };
    let scaled = match apply_binary(BinaryOp::Mul, normed, gamma) {
        Some(t) => t,
        None => return None,
    };
    apply_binary(BinaryOp::Add, scaled, beta)
}

} // verus!
