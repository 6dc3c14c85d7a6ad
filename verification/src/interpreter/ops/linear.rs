//! Dense layers: `Linear` and the general matrix product `Gemm`.

use burn_flex::FlexTensor;
use vstd::prelude::*;

use burn_backend::TensorData;

use crate::backend::{
    clone_data, data_meta, flex_add, flex_from_data, flex_mul, flex_swap_dims, meta,
    tensor_from_data,
};
use crate::graph::{Argument, GemmConfig, LinearConfig, OpNode};
use crate::interpreter::context::ExecutionContext;
use crate::interpreter::ops::{applied, input_by_name, named_input, store_output, OpError, Outcome};
use crate::tensor::{
    apply_binary, apply_matmul, apply_swap_dims, binary_meta, matmul_meta, swap_meta, BinaryOp,
    TensorMeta,
};

verus! {

/// The optional third operand (a bias): where the third input has a name, the tensor stored
/// under it, if any; where its name is empty, its inline data, if any.
pub open spec fn third_operand(inputs: Seq<Argument>, view: Map<Seq<char>, FlexTensor>) -> Option<
    TensorMeta,
> {
    if inputs.len() < 3 {
        None
    } else if inputs[2].name@.len() > 0 {
        match view.get(inputs[2].name@) {
            Some(t) => Some(meta(t)),
            None => None,
        }
    } else {
        match inputs[2].value {
            Some(d) => Some(data_meta(d)),
            None => None,
        }
    }
}

/// The optional third operand as a tensor (see `third_operand`).
pub open spec fn third_value(inputs: Seq<Argument>, view: Map<Seq<char>, FlexTensor>) -> Option<
    FlexTensor,
> {
    if inputs.len() < 3 {
        None
    } else if inputs[2].name@.len() > 0 {
        view.get(inputs[2].name@)
    } else {
        match inputs[2].value {
            Some(d) => Some(flex_from_data(d)),
            None => None,
        }
    }
}

/// `y` plus the optional third operand, where there is one.
pub open spec fn plus_value(y: FlexTensor, c: Option<FlexTensor>) -> FlexTensor {
    match c {
        Some(c) => flex_add(y, c),
        None => y,
    }
}

/// Optionally exchanges the first two dimensions.
pub open spec fn maybe_swapped(m: TensorMeta, swap: bool) -> Option<TensorMeta> {
    if swap {
        swap_meta(m, 0, 1)
    } else {
        Some(m)
    }
}

/// Adds the optional third operand, where there is one; `None` where the sum is not defined.
pub open spec fn plus_operand(y: TensorMeta, c: Option<TensorMeta>) -> Option<TensorMeta> {
    match c {
        Some(cm) => binary_meta(y, cm),
        None => Some(y),
    }
}

/// The result written under the first output, where there is one and the backend accepted the
/// operands: `m` is then its shape and element type, and `holds` what holds of it.
pub open spec fn to_output(
    node_outputs: int,
    m: Option<TensorMeta>,
    holds: spec_fn(FlexTensor) -> bool,
) -> Outcome {
    match m {
        None => Err(OpError::Rejected),
        Some(m) => if node_outputs < 1 {
            Err(OpError::MissingSlot)
        } else {
            Ok((holds, m))
        },
    }
}

/// A result that is some tensor `p` (the matrix product, whose elements are left to the backend)
/// with the optional third operand `c` added.
pub open spec fn product_plus(c: Option<FlexTensor>) -> spec_fn(FlexTensor) -> bool {
    |t: FlexTensor| exists|p: FlexTensor| t == #[trigger] plus_value(p, c)
}

/// What `Linear` does over the tensors `view`: input and weight must be there; the weight is
/// transposed if so configured, multiplied with the input, and the bias (third input) added
/// where there is one.
pub open spec fn linear_outcome(node: OpNode<LinearConfig>, view: Map<Seq<char>, FlexTensor>) -> Outcome {
    if node.inputs@.len() < 1 {
        Err(OpError::MissingSlot)
    } else if named_input(view, node.inputs@, 0) is None {
        Err(OpError::Unavailable("linear: missing input"))
    } else if node.inputs@.len() < 2 {
        Err(OpError::MissingSlot)
    } else if named_input(view, node.inputs@, 1) is None {
        Err(OpError::Unavailable("linear: missing weight"))
    } else {
        let x = meta(named_input(view, node.inputs@, 0)->Some_0);
        let w = meta(named_input(view, node.inputs@, 1)->Some_0);
        let y = match maybe_swapped(w, node.config.transpose_weight) {
            Some(w2) => match matmul_meta(x, w2) {
                Some(p) => plus_operand(p, third_operand(node.inputs@, view)),
                None => None,
            },
            None => None,
        };
        to_output(node.outputs@.len() as int, y, product_plus(third_value(node.inputs@, view)))
    }
}

/// Scales by a `Gemm` factor, unless it is exactly 1.
pub open spec fn scaled(m: TensorMeta, is_one: bool, factor: TensorMeta) -> Option<TensorMeta> {
    if is_one {
        Some(m)
    } else {
        binary_meta(m, factor)
    }
}

/// `t` scaled by a `Gemm` factor given as tensor data, unless the factor is exactly 1.
pub open spec fn scaled_value(t: FlexTensor, is_one: bool, factor: TensorData) -> FlexTensor {
    if is_one {
        t
    } else {
        flex_mul(t, flex_from_data(factor))
    }
}

/// The `Gemm` result from the product `p`: `p` scaled by `alpha`, plus `c` scaled by `beta` where
/// there is a third operand `c`.
pub open spec fn gemm_sum(p: FlexTensor, cfg: GemmConfig, c: Option<FlexTensor>) -> FlexTensor {
    let scaled_p = scaled_value(p, cfg.alpha.is_one, cfg.alpha.value);
    match c {
        Some(c) => flex_add(scaled_p, scaled_value(c, cfg.beta.is_one, cfg.beta.value)),
        None => scaled_p,
    }
}

/// A `Gemm` result: the sum above for some tensor `p` (the matrix product, whose elements are
/// left to the backend).
pub open spec fn gemm_of_product(cfg: GemmConfig, c: Option<FlexTensor>) -> spec_fn(FlexTensor) -> bool {
    |t: FlexTensor| exists|p: FlexTensor| t == #[trigger] gemm_sum(p, cfg, c)
}

/// What `Gemm` does over the tensors `view`: `A` and `B` must be there; each is transposed
/// where its flag is nonzero, they are multiplied, the product is scaled by `alpha`, and `C`
/// (the third input, where there is one) scaled by `beta` is added.
pub open spec fn gemm_outcome(node: OpNode<GemmConfig>, view: Map<Seq<char>, FlexTensor>) -> Outcome {
    if node.inputs@.len() < 1 {
        Err(OpError::MissingSlot)
    } else if named_input(view, node.inputs@, 0) is None {
        Err(OpError::Unavailable("gemm: missing A"))
    } else if node.inputs@.len() < 2 {
        Err(OpError::MissingSlot)
    } else if named_input(view, node.inputs@, 1) is None {
        Err(OpError::Unavailable("gemm: missing B"))
    } else {
        let cfg = node.config;
        let a = maybe_swapped(meta(named_input(view, node.inputs@, 0)->Some_0), cfg.trans_a != 0);
        let b = maybe_swapped(meta(named_input(view, node.inputs@, 1)->Some_0), cfg.trans_b != 0);
        let y = match (a, b) {
            (Some(a), Some(b)) => match matmul_meta(a, b) {
                Some(p) => match scaled(p, cfg.alpha.is_one, data_meta(cfg.alpha.value)) {
                    Some(p2) => match third_operand(node.inputs@, view) {
                        Some(c) => match scaled(c, cfg.beta.is_one, data_meta(cfg.beta.value)) {
                            Some(c2) => binary_meta(p2, c2),
                            None => None,
                        },
                        None => Some(p2),
                    },
                    None => None,
                },
                None => None,
            },
            _ => None,
        };
        to_output(
            node.outputs@.len() as int,
            y,
            gemm_of_product(cfg, third_value(node.inputs@, view)),
        )
    }
}

/// The optional third operand as a tensor (see `third_operand`).
fn third_operand_tensor(ctx: &ExecutionContext, inputs: &Vec<Argument>) -> (r: Option<FlexTensor>)
    ensures
        r == third_value(inputs@, ctx@),
        match r {
            Some(t) => third_operand(inputs@, ctx@) == Some(meta(t)),
            None => third_operand(inputs@, ctx@) is None,
        },
{
    if inputs.len() < 3 {
        return None;
    }
    let arg = &inputs[2];
    if !arg.name.as_str().is_empty() {
        ctx.get(arg.name.as_str())
    } else {
        match &arg.value {
            Some(d) => Some(tensor_from_data(clone_data(d))),
            None => None,
        }
    }
}

/// Optionally exchanges the first two dimensions of `t`.
fn swap_if(t: FlexTensor, swap: bool) -> (r: Option<FlexTensor>)
    ensures
        r matches Some(y) ==> y == (if swap {
            flex_swap_dims(t, 0, 1)
        } else {
            t
        }),
        match r {
            Some(y) => maybe_swapped(meta(t), swap) == Some(meta(y)),
            None => maybe_swapped(meta(t), swap) is None,
        },
{
    if swap {
        apply_swap_dims(t, 0, 1)
    } else {
        Some(t)
    }
}

/// `Linear`: `x * w` (or `x * w^T` for a transposed weight) plus the optional bias, under the
/// node's output name.
pub fn linear(node: &OpNode<LinearConfig>, ctx: &mut ExecutionContext) -> (r: Result<(), OpError>)
    ensures
        applied(*old(ctx), *final(ctx), node.outputs@, linear_outcome(*node, old(ctx)@), r),
{
    let x = match input_by_name(ctx, &node.inputs, 0, "linear: missing input") {
        Ok(t) => t,
        Err(e) => return Err(e),
    };
    let w = match input_by_name(ctx, &node.inputs, 1, "linear: missing weight") {
        Ok(t) => t,
        Err(e) => return Err(e),
    };
    let w = match swap_if(w, node.config.transpose_weight) {
        Some(t) => t,
        None => return Err(OpError::Rejected),
    };
    let y = match apply_matmul(x, w) {
        Some(t) => t,
        None => return Err(OpError::Rejected),
    };
    let ghost product = y;
    let y = match third_operand_tensor(ctx, &node.inputs) {
        Some(b) => match apply_binary(BinaryOp::Add, y, b) {
            Some(t) => t,
            None => return Err(OpError::Rejected),
        },
        None => y,
    };
    assert(y == plus_value(product, third_value(node.inputs@, old(ctx)@)));
    if node.outputs.len() < 1 {
        return Err(OpError::MissingSlot);
    }
    store_output(ctx, &node.outputs, y);
    Ok(())
}

/// Scales `t` by a `Gemm` factor given as a one-element tensor, unless the factor is exactly 1.
fn scale_by(t: FlexTensor, is_one: bool, factor: &TensorData) -> (r: Option<
    FlexTensor,
>)
    ensures
        r matches Some(y) ==> y == scaled_value(t, is_one, *factor),
        match r {
            Some(y) => scaled(meta(t), is_one, data_meta(*factor)) == Some(meta(y)),
            None => scaled(meta(t), is_one, data_meta(*factor)) is None,
        },
{
    if is_one {
        Some(t)
    } else {
        apply_binary(BinaryOp::Mul, t, tensor_from_data(clone_data(factor)))
    }
}

/// `Gemm`: `alpha * A' * B' + beta * C` under the node's output name, `A'` and `B'` transposed
/// where so configured and `C` optional.
pub fn gemm(node: &OpNode<GemmConfig>, ctx: &mut ExecutionContext) -> (r: Result<(), OpError>)
    ensures
        applied(*old(ctx), *final(ctx), node.outputs@, gemm_outcome(*node, old(ctx)@), r),
{
    let a = match input_by_name(ctx, &node.inputs, 0, "gemm: missing A") {
        Ok(t) => t,
        Err(e) => return Err(e),
    };
    let b = match input_by_name(ctx, &node.inputs, 1, "gemm: missing B") {
        Ok(t) => t,
        Err(e) => return Err(e),
    };
    let cfg = &node.config;
    let a = match swap_if(a, cfg.trans_a != 0) {
        Some(t) => t,
        None => return Err(OpError::Rejected),
    };
    let b = match swap_if(b, cfg.trans_b != 0) {
        Some(t) => t,
        None => return Err(OpError::Rejected),
    };
    let y = match apply_matmul(a, b) {
        Some(t) => t,
        None => return Err(OpError::Rejected),
    };
    let ghost product = y;
    let y = match scale_by(y, cfg.alpha.is_one, &cfg.alpha.value) {
        Some(t) => t,
        None => return Err(OpError::Rejected),
    };
    let y = match third_operand_tensor(ctx, &node.inputs) {
        Some(c) => {
            let c = match scale_by(c, cfg.beta.is_one, &cfg.beta.value) {
                Some(t) => t,
                None => return Err(OpError::Rejected),
            };
            match apply_binary(BinaryOp::Add, y, c) {
                Some(t) => t,
                None => return Err(OpError::Rejected),
            }
        },
        None => y,
    };
    assert(y == gemm_sum(product, *cfg, third_value(node.inputs@, old(ctx)@)));
    if node.outputs.len() < 1 {
        return Err(OpError::MissingSlot);
    }
    store_output(ctx, &node.outputs, y);
    Ok(())
}

} // verus!
