//! Pooling operators.

use burn_flex::FlexTensor;
use vstd::prelude::*;

use crate::backend::{flex_adaptive_avg_pool2d, flex_avg_pool2d, flex_max_pool2d};
use crate::graph::{Argument, AvgPool2dConfig, MaxPool2dConfig, OpNode};
use crate::interpreter::context::{resolved, resolved_meta, ExecutionContext};
use crate::interpreter::ops::conv::{padding_amounts, symmetric_padding};
use crate::interpreter::ops::{
    applied, exactly, resolve_input, store_output, OpError, Outcome,
};
use crate::tensor::{
    adaptive_avg_pool2d_meta, apply_adaptive_avg_pool2d, apply_avg_pool2d, apply_max_pool2d,
    avg_pool2d_meta, max_pool2d_meta, TensorMeta,
};

verus! {

/// The outcome of a one-input pooling node: the input must resolve (`what` is the message
/// otherwise) and the node must have an output; `pooled` gives the result's shape and element
/// type from the input's, `None` where the backend does not accept it, and `value` the backend's
/// result from the input.
pub open spec fn pool_outcome(
    inputs: Seq<Argument>,
    outputs: int,
    view: Map<Seq<char>, FlexTensor>,
    what: &'static str,
    pooled: spec_fn(TensorMeta) -> Option<TensorMeta>,
    value: spec_fn(FlexTensor) -> FlexTensor,
) -> Outcome {
    if inputs.len() < 1 {
        Err(OpError::MissingSlot)
    } else if resolved_meta(view, inputs[0]) is None {
        Err(OpError::Unavailable(what))
    } else if outputs < 1 {
        Err(OpError::MissingSlot)
    } else {
        match pooled(resolved_meta(view, inputs[0])->Some_0) {
            Some(m) => Ok((exactly(value(resolved(view, inputs[0])->Some_0)), m)),
            None => Err(OpError::Rejected),
        }
    }
}

/// What `MaxPool2d` does: max pooling with the configured window and the symmetric padding.
pub open spec fn max_pool2d_outcome(node: OpNode<MaxPool2dConfig>, view: Map<Seq<char>, FlexTensor>) -> Outcome {
    let c = node.config;
    pool_outcome(
        node.inputs@,
        node.outputs@.len() as int,
        view,
        "max_pool2d: missing input",
        |x: TensorMeta|
            max_pool2d_meta(x, c.kernel_size@, c.strides@, padding_amounts(c.padding), c.dilation@),
        |x: FlexTensor|
            flex_max_pool2d(x, c.kernel_size@, c.strides@, padding_amounts(c.padding), c.dilation@),
    )
}

/// `MaxPool2d`: the windowed maxima of the input under the node's output name.
pub fn max_pool2d(node: &OpNode<MaxPool2dConfig>, ctx: &mut ExecutionContext) -> (r: Result<
    (),
    OpError,
>)
    ensures
        applied(*old(ctx), *final(ctx), node.outputs@, max_pool2d_outcome(*node, old(ctx)@), r),
{
    let x = match resolve_input(ctx, &node.inputs, 0, "max_pool2d: missing input") {
        Ok(t) => t,
        Err(e) => return Err(e),
    };
    let c = &node.config;
    let pad = symmetric_padding(&c.padding);
    if node.outputs.len() < 1 {
        return Err(OpError::MissingSlot);
    }
    match apply_max_pool2d(x, c.kernel_size, c.strides, pad, c.dilation) {
        Some(y) => {
            store_output(ctx, &node.outputs, y);
            Ok(())
        },
        None => Err(OpError::Rejected),
    }
}

/// What `AveragePool2d` does: average pooling with the configured window and the symmetric
/// padding.
pub open spec fn avg_pool2d_outcome(node: OpNode<AvgPool2dConfig>, view: Map<Seq<char>, FlexTensor>) -> Outcome {
    let c = node.config;
    pool_outcome(
        node.inputs@,
        node.outputs@.len() as int,
        view,
        "avg_pool2d: missing input",
        |x: TensorMeta| avg_pool2d_meta(x, c.kernel_size@, c.strides@, padding_amounts(c.padding)),
        |x: FlexTensor|
            flex_avg_pool2d(
                x,
                c.kernel_size@,
                c.strides@,
                padding_amounts(c.padding),
                c.count_include_pad,
            ),
    )
}

/// `AveragePool2d`: the windowed means of the input under the node's output name.
pub fn avg_pool2d(node: &OpNode<AvgPool2dConfig>, ctx: &mut ExecutionContext) -> (r: Result<
    (),
    OpError,
>)
    ensures
        applied(*old(ctx), *final(ctx), node.outputs@, avg_pool2d_outcome(*node, old(ctx)@), r),
{
    let x = match resolve_input(ctx, &node.inputs, 0, "avg_pool2d: missing input") {
        Ok(t) => t,
        Err(e) => return Err(e),
    };
    let c = &node.config;
    let pad = symmetric_padding(&c.padding);
    if node.outputs.len() < 1 {
        return Err(OpError::MissingSlot);
    }
    match apply_avg_pool2d(x, c.kernel_size, c.strides, pad, c.count_include_pad) {
        Some(y) => {
            store_output(ctx, &node.outputs, y);
            Ok(())
        },
        None => Err(OpError::Rejected),
    }
}

/// What `GlobalAveragePool` does: each channel averaged to a single value (`[n, c, 1, 1]`).
pub open spec fn global_avg_pool_outcome(node: OpNode<()>, view: Map<Seq<char>, FlexTensor>) -> Outcome {
    pool_outcome(
        node.inputs@,
        node.outputs@.len() as int,
        view,
        "global_avg_pool: missing input",
        |x: TensorMeta| adaptive_avg_pool2d_meta(x, seq![1usize, 1usize]),
        |x: FlexTensor| flex_adaptive_avg_pool2d(x, seq![1usize, 1usize]),
    )
}

/// `GlobalAveragePool`: the per-channel means of the input under the node's output name.
pub fn global_avg_pool(node: &OpNode<()>, ctx: &mut ExecutionContext) -> (r: Result<(), OpError>)
    ensures
        applied(
            *old(ctx),
            *final(ctx),
            node.outputs@,
            global_avg_pool_outcome(*node, old(ctx)@),
            r,
        ),
{
    let x = match resolve_input(ctx, &node.inputs, 0, "global_avg_pool: missing input") {
        Ok(t) => t,
        Err(e) => return Err(e),
    };
    if node.outputs.len() < 1 {
        return Err(OpError::MissingSlot);
    }
    let size: [usize; 2] = [1, 1];
    assert(size@ =~= seq![1usize, 1usize]);
    match apply_adaptive_avg_pool2d(x, size) {
        Some(y) => {
            store_output(ctx, &node.outputs, y);
            Ok(())
        },
        None => Err(OpError::Rejected),
    }
}

} // verus!
