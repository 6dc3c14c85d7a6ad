//! Elementwise arithmetic of two broadcast operands.

use burn_flex::FlexTensor;
use vstd::prelude::*;

use crate::backend::meta;
use crate::graph::OpNode;
use crate::interpreter::context::ExecutionContext;
use crate::interpreter::ops::{
    applied, exactly, input_by_name, named_input, store_output, OpError, Outcome,
};
use crate::tensor::{apply_binary, binary_meta, binary_value, BinaryOp};

verus! {

/// What the two-operand arithmetic `op` does with `node` over the tensors `view`: both operands
/// must be there (`lhs` and `rhs` are the messages otherwise), of one float element type and
/// broadcastable shapes; the result is the backend's `op` of them, of the broadcast shape.
pub open spec fn binary_outcome(
    node: OpNode<()>,
    view: Map<Seq<char>, FlexTensor>,
    op: BinaryOp,
    lhs: &'static str,
    rhs: &'static str,
) -> Outcome {
    if node.inputs@.len() < 1 {
        Err(OpError::MissingSlot)
    } else if named_input(view, node.inputs@, 0) is None {
        Err(OpError::Unavailable(lhs))
    } else if node.inputs@.len() < 2 {
        Err(OpError::MissingSlot)
    } else if named_input(view, node.inputs@, 1) is None {
        Err(OpError::Unavailable(rhs))
    } else if node.outputs@.len() < 1 {
        Err(OpError::MissingSlot)
    } else {
        let a = named_input(view, node.inputs@, 0)->Some_0;
        let b = named_input(view, node.inputs@, 1)->Some_0;
        match binary_meta(meta(a), meta(b)) {
            Some(m) => Ok((exactly(binary_value(op, a, b)), m)),
            None => Err(OpError::Rejected),
        }
    }
}

fn run_binary(
    op: BinaryOp,
    node: &OpNode<()>,
    ctx: &mut ExecutionContext,
    lhs: &'static str,
    rhs: &'static str,
) -> (r: Result<(), OpError>)
    ensures
        applied(
            *old(ctx),
            *final(ctx),
            node.outputs@,
            binary_outcome(*node, old(ctx)@, op, lhs, rhs),
            r,
        ),
{
    let a = match input_by_name(ctx, &node.inputs, 0, lhs) {
        Ok(t) => t,
        Err(e) => return Err(e),
    };
    let b = match input_by_name(ctx, &node.inputs, 1, rhs) {
        Ok(t) => t,
        Err(e) => return Err(e),
    };
    if node.outputs.len() < 1 {
        return Err(OpError::MissingSlot);
    }
    match apply_binary(op, a, b) {
        Some(y) => {
            store_output(ctx, &node.outputs, y);
            Ok(())
        },
        None => Err(OpError::Rejected),
    }
}

/// `Add`: the broadcast sum of the two inputs.
pub fn add(node: &OpNode<()>, ctx: &mut ExecutionContext) -> (r: Result<(), OpError>)
    ensures
        applied(
            *old(ctx),
            *final(ctx),
            node.outputs@,
            binary_outcome(*node, old(ctx)@, BinaryOp::Add, "add: missing lhs", "add: missing rhs"),
            r,
        ),
{
    run_binary(BinaryOp::Add, node, ctx, "add: missing lhs", "add: missing rhs")
}

/// `Sub`: the broadcast difference of the two inputs.
pub fn sub(node: &OpNode<()>, ctx: &mut ExecutionContext) -> (r: Result<(), OpError>)
    ensures
        applied(
            *old(ctx),
            *final(ctx),
            node.outputs@,
            binary_outcome(*node, old(ctx)@, BinaryOp::Sub, "sub: missing lhs", "sub: missing rhs"),
            r,
        ),
{
    run_binary(BinaryOp::Sub, node, ctx, "sub: missing lhs", "sub: missing rhs")
}

/// `Mul`: the broadcast product of the two inputs.
pub fn mul(node: &OpNode<()>, ctx: &mut ExecutionContext) -> (r: Result<(), OpError>)
    ensures
        applied(
            *old(ctx),
            *final(ctx),
            node.outputs@,
            binary_outcome(*node, old(ctx)@, BinaryOp::Mul, "mul: missing lhs", "mul: missing rhs"),
            r,
        ),
{
    run_binary(BinaryOp::Mul, node, ctx, "mul: missing lhs", "mul: missing rhs")
}

/// `Div`: the broadcast quotient of the two inputs.
pub fn div(node: &OpNode<()>, ctx: &mut ExecutionContext) -> (r: Result<(), OpError>)
    ensures
        applied(
            *old(ctx),
            *final(ctx),
            node.outputs@,
            binary_outcome(*node, old(ctx)@, BinaryOp::Div, "div: missing lhs", "div: missing rhs"),
            r,
        ),
{
    run_binary(BinaryOp::Div, node, ctx, "div: missing lhs", "div: missing rhs")
}

} // verus!
