//! Activation operators.

use burn_flex::FlexTensor;
use vstd::prelude::*;

use crate::backend::meta;
use crate::graph::{OpNode, SoftmaxConfig};
use crate::interpreter::context::ExecutionContext;
use crate::interpreter::ops::{
    any_tensor, applied, exactly, input_by_name, named_input, store_output, OpError, Outcome,
};
use crate::tensor::{
    apply_softmax, apply_unary, log_softmax_meta, softmax_meta, unary_meta, unary_value, UnaryOp,
};

verus! {

/// What the elementwise activation `op` does with `node` over the tensors `view`: its input must
/// be there (`what` is the message otherwise) and be a float tensor; the result has the input's
/// shape and element type and, where the backend's elements are fixed by the input alone (see
/// `unary_value`), is the backend's result.
pub open spec fn unary_outcome(
    node: OpNode<()>,
    view: Map<Seq<char>, FlexTensor>,
    op: UnaryOp,
    what: &'static str,
) -> Outcome {
    if node.inputs@.len() < 1 {
        Err(OpError::MissingSlot)
    } else if named_input(view, node.inputs@, 0) is None {
        Err(OpError::Unavailable(what))
    } else if node.outputs@.len() < 1 {
        Err(OpError::MissingSlot)
    } else {
        let x = named_input(view, node.inputs@, 0)->Some_0;
        match unary_meta(meta(x)) {
            Some(m) => Ok(
                (
                    match unary_value(op, x) {
                        Some(v) => exactly(v),
                        None => any_tensor(),
                    },
                    m,
                ),
            ),
            None => Err(OpError::Rejected),
        }
    }
}

/// What softmax (or log-softmax, with `log`) does with `node`: as an elementwise activation,
/// with the configured axis below the rank (and, for log-softmax, not empty); the result has the
/// input's shape and element type.
pub open spec fn softmax_outcome(
    node: OpNode<SoftmaxConfig>,
    view: Map<Seq<char>, FlexTensor>,
    log: bool,
    what: &'static str,
) -> Outcome {
    if node.inputs@.len() < 1 {
        Err(OpError::MissingSlot)
    } else if named_input(view, node.inputs@, 0) is None {
        Err(OpError::Unavailable(what))
    } else if node.outputs@.len() < 1 {
        Err(OpError::MissingSlot)
    } else {
        let x = named_input(view, node.inputs@, 0)->Some_0;
        let r = if log {
            log_softmax_meta(meta(x), node.config.axis as int)
        } else {
            softmax_meta(meta(x), node.config.axis as int)
        };
        match r {
            Some(m) => Ok((any_tensor(), m)),
            None => Err(OpError::Rejected),
        }
    }
}

fn run_unary(op: UnaryOp, node: &OpNode<()>, ctx: &mut ExecutionContext, what: &'static str) -> (r:
    Result<(), OpError>)
    ensures
        applied(*old(ctx), *final(ctx), node.outputs@, unary_outcome(*node, old(ctx)@, op, what), r),
{
    let x = match input_by_name(ctx, &node.inputs, 0, what) {
        Ok(t) => t,
        Err(e) => return Err(e),
    };
    if node.outputs.len() < 1 {
        return Err(OpError::MissingSlot);
    }
    match apply_unary(op, x) {
        Some(y) => {
            store_output(ctx, &node.outputs, y);
            Ok(())
        },
        None => Err(OpError::Rejected),
    }
}

fn run_softmax(
    node: &OpNode<SoftmaxConfig>,
    ctx: &mut ExecutionContext,
    log: bool,
    what: &'static str,
) -> (r: Result<(), OpError>)
    ensures
        applied(
            *old(ctx),
            *final(ctx),
            node.outputs@,
            softmax_outcome(*node, old(ctx)@, log, what),
            r,
        ),
{
    let x = match input_by_name(ctx, &node.inputs, 0, what) {
        Ok(t) => t,
        Err(e) => return Err(e),
    };
    if node.outputs.len() < 1 {
        return Err(OpError::MissingSlot);
    }
    match apply_softmax(x, node.config.axis, log) {
        Some(y) => {
            store_output(ctx, &node.outputs, y);
            Ok(())
        },
        None => Err(OpError::Rejected),
    }
}

/// `Relu`: stores the rectified input under the node's output name.
pub fn relu(node: &OpNode<()>, ctx: &mut ExecutionContext) -> (r: Result<(), OpError>)
    ensures
        applied(
            *old(ctx),
            *final(ctx),
            node.outputs@,
            unary_outcome(*node, old(ctx)@, UnaryOp::Relu, "relu: missing input"),
            r,
        ),
{
    run_unary(UnaryOp::Relu, node, ctx, "relu: missing input")
}

/// `Sigmoid`: stores the logistic function of the input under the node's output name.
pub fn sigmoid(node: &OpNode<()>, ctx: &mut ExecutionContext) -> (r: Result<(), OpError>)
    ensures
        applied(
            *old(ctx),
            *final(ctx),
            node.outputs@,
            unary_outcome(*node, old(ctx)@, UnaryOp::Sigmoid, "sigmoid: missing input"),
            r,
        ),
{
    run_unary(UnaryOp::Sigmoid, node, ctx, "sigmoid: missing input")
}

/// `Tanh`: stores the hyperbolic tangent of the input under the node's output name.
pub fn tanh(node: &OpNode<()>, ctx: &mut ExecutionContext) -> (r: Result<(), OpError>)
    ensures
        applied(
            *old(ctx),
            *final(ctx),
            node.outputs@,
            unary_outcome(*node, old(ctx)@, UnaryOp::Tanh, "tanh: missing input"),
            r,
        ),
{
    run_unary(UnaryOp::Tanh, node, ctx, "tanh: missing input")
}

/// `Gelu`: stores the Gaussian error linear unit of the input under the node's output name.
pub fn gelu(node: &OpNode<()>, ctx: &mut ExecutionContext) -> (r: Result<(), OpError>)
    ensures
        applied(
            *old(ctx),
            *final(ctx),
            node.outputs@,
            unary_outcome(*node, old(ctx)@, UnaryOp::Gelu, "gelu: missing input"),
            r,
        ),
{
    run_unary(UnaryOp::Gelu, node, ctx, "gelu: missing input")
}

/// `Softmax` along the configured axis.
pub fn softmax(node: &OpNode<SoftmaxConfig>, ctx: &mut ExecutionContext) -> (r: Result<
    (),
    OpError,
>)
    ensures
        applied(
            *old(ctx),
            *final(ctx),
            node.outputs@,
            softmax_outcome(*node, old(ctx)@, false, "softmax: missing input"),
            r,
        ),
{
    run_softmax(node, ctx, false, "softmax: missing input")
}

/// `LogSoftmax` along the configured axis.
pub fn log_softmax(node: &OpNode<SoftmaxConfig>, ctx: &mut ExecutionContext) -> (r: Result<
    (),
    OpError,
>)
    ensures
        applied(
            *old(ctx),
            *final(ctx),
            node.outputs@,
            softmax_outcome(*node, old(ctx)@, true, "log_softmax: missing input"),
            r,
        ),
{
    run_softmax(node, ctx, true, "log_softmax: missing input")
}

} // verus!
