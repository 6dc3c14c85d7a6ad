//! Shape operators: `Reshape`, `Flatten` and `Transpose`.

use burn_flex::FlexTensor;
use vstd::prelude::*;

use crate::backend::{
    data_element, data_i64_readable, data_integers, data_to_i64, flex_permute, flex_reshape, meta,
    shape_of,
};
use crate::graph::{FlattenConfig, OpNode, TransposeConfig};
use crate::interpreter::context::ExecutionContext;
use crate::interpreter::ops::{
    applied, exactly, input_by_name, named_input, store_output, OpError, Outcome,
};
use crate::shape::{
    flatten_computable, flatten_dims, flatten_shape, reshape_target, reshape_target_resolvable,
    resolve_reshape_target,
};
use crate::tensor::{
    apply_permute, apply_reshape, permute_meta, reshape_meta, ElementType, TensorMeta,
};

verus! {

/// The result `value` written under the first output: `MissingSlot` where there is none, else
/// `Rejected` where the backend does not accept the operands (`m` is otherwise the result's
/// shape and element type).
pub open spec fn shaped_output(node_outputs: int, m: Option<TensorMeta>, value: FlexTensor) -> Outcome {
    if node_outputs < 1 {
        Err(OpError::MissingSlot)
    } else {
        match m {
            Some(m) => Ok((exactly(value), m)),
            None => Err(OpError::Rejected),
        }
    }
}

/// What `Reshape` does over the tensors `view`: the input must be there and the target (the
/// second input) must be constant `i64` data whose bytes read as `i64` values; the target is
/// resolved against the input's shape (`-1` fills in, `0` copies) and must keep the element count.
pub open spec fn reshape_outcome(node: OpNode<()>, view: Map<Seq<char>, FlexTensor>) -> Outcome {
    if node.inputs@.len() < 1 {
        Err(OpError::MissingSlot)
    } else if named_input(view, node.inputs@, 0) is None {
        Err(OpError::Unavailable("reshape: missing input"))
    } else if node.inputs@.len() < 2 {
        Err(OpError::MissingSlot)
    } else {
        match node.inputs@[1].value {
            None => Err(OpError::Unavailable("reshape: shape must be static")),
            Some(d) => if data_element(d) != ElementType::I64 || !data_i64_readable(d) {
                Err(OpError::Unavailable("reshape: shape must be i64"))
            } else {
                let x = named_input(view, node.inputs@, 0)->Some_0;
                let raw = data_integers(d);
                if !reshape_target_resolvable(raw, meta(x).shape) {
                    Err(OpError::Rejected)
                } else {
                    let target = reshape_target(raw, meta(x).shape);
                    shaped_output(
                        node.outputs@.len() as int,
                        reshape_meta(meta(x), target),
                        flex_reshape(x, target),
                    )
                }
            },
        }
    }
}

/// `Reshape`: the input with the dimensions that the constant target gives, under the node's
/// output name.
pub fn reshape(node: &OpNode<()>, ctx: &mut ExecutionContext) -> (r: Result<(), OpError>)
    ensures
        applied(*old(ctx), *final(ctx), node.outputs@, reshape_outcome(*node, old(ctx)@), r),
{
    let x = match input_by_name(ctx, &node.inputs, 0, "reshape: missing input") {
        Ok(t) => t,
        Err(e) => return Err(e),
    };
    let orig = shape_of(&x);
    if node.inputs.len() < 2 {
        return Err(OpError::MissingSlot);
    }
    let data = match &node.inputs[1].value {
        Some(d) => d,
        None => return Err(OpError::Unavailable("reshape: shape must be static")),
    };
    let raw = match data_to_i64(data) {
        Some(v) => v,
        None => return Err(OpError::Unavailable("reshape: shape must be i64")),
    };
    let target = match resolve_reshape_target(raw.as_slice(), orig.as_slice()) {
        Some(t) => t,
        None => return Err(OpError::Rejected),
    };
    if node.outputs.len() < 1 {
        return Err(OpError::MissingSlot);
    }
    match apply_reshape(x, target) {
        Some(y) => {
            store_output(ctx, &node.outputs, y);
            Ok(())
        },
        None => Err(OpError::Rejected),
    }
}

/// What `Flatten` does over the tensors `view`: the input must be there and the axis within its
/// rank; the result has two dimensions, the element count before the axis (at least 1) and the
/// count from the axis on, which must keep the element count.
pub open spec fn flatten_outcome(node: OpNode<FlattenConfig>, view: Map<Seq<char>, FlexTensor>) -> Outcome {
    if node.inputs@.len() < 1 {
        Err(OpError::MissingSlot)
    } else if named_input(view, node.inputs@, 0) is None {
        Err(OpError::Unavailable("flatten: missing input"))
    } else {
        let x = named_input(view, node.inputs@, 0)->Some_0;
        let axis = node.config.axis as int;
        if !flatten_computable(meta(x).shape, axis) {
            Err(OpError::Rejected)
        } else {
            let dims = flatten_shape(meta(x).shape, axis);
            shaped_output(
                node.outputs@.len() as int,
                reshape_meta(meta(x), dims),
                flex_reshape(x, dims),
            )
        }
    }
}

/// `Flatten`: the input as a matrix split at the configured axis, under the node's output name.
pub fn flatten(node: &OpNode<FlattenConfig>, ctx: &mut ExecutionContext) -> (r: Result<
    (),
    OpError,
>)
    ensures
        applied(*old(ctx), *final(ctx), node.outputs@, flatten_outcome(*node, old(ctx)@), r),
{
    let x = match input_by_name(ctx, &node.inputs, 0, "flatten: missing input") {
        Ok(t) => t,
        Err(e) => return Err(e),
    };
    let s = shape_of(&x);
    let dims = match flatten_dims(s.as_slice(), node.config.axis) {
        Some(d) => d,
        None => return Err(OpError::Rejected),
    };
    if node.outputs.len() < 1 {
        return Err(OpError::MissingSlot);
    }
    match apply_reshape(x, dims) {
        Some(y) => {
            store_output(ctx, &node.outputs, y);
            Ok(())
        },
        None => Err(OpError::Rejected),
    }
}

/// The axes `Transpose` permutes by: the configured ones, or the dimensions reversed where none
/// are configured; `None` where a configured axis is negative or beyond `usize`.
pub open spec fn transpose_axes(perm: Seq<i64>, rank: int) -> Option<Seq<usize>> {
    if perm.len() == 0 {
        Some(Seq::new(rank as nat, |k: int| (rank - 1 - k) as usize))
    } else if exists|k: int| 0 <= k < perm.len() && (#[trigger] perm[k] < 0 || perm[k] > usize::MAX) {
        None
    } else {
        Some(Seq::new(perm.len(), |k: int| perm[k] as usize))
    }
}

/// What `Transpose` does over the tensors `view`: the input must be there and the axes a
/// permutation of its dimensions.
pub open spec fn transpose_outcome(node: OpNode<TransposeConfig>, view: Map<Seq<char>, FlexTensor>) -> Outcome {
    if node.inputs@.len() < 1 {
        Err(OpError::MissingSlot)
    } else if named_input(view, node.inputs@, 0) is None {
        Err(OpError::Unavailable("transpose: missing input"))
    } else {
        let x = named_input(view, node.inputs@, 0)->Some_0;
        match transpose_axes(node.config.perm@, meta(x).shape.len() as int) {
            None => Err(OpError::Rejected),
            Some(axes) => shaped_output(
                node.outputs@.len() as int,
                permute_meta(meta(x), axes),
                flex_permute(x, axes),
            ),
        }
    }
}

/// The axes of `Transpose` for a tensor of rank `rank` (see `transpose_axes`).
pub fn transpose_perm(perm: &Vec<i64>, rank: usize) -> (r: Option<Vec<usize>>)
    ensures
        match r {
            Some(v) => transpose_axes(perm@, rank as int) == Some(v@),
            None => transpose_axes(perm@, rank as int) is None,
        },
{
    let mut out: Vec<usize> = Vec::new();
    if perm.len() == 0 {
        let mut k: usize = 0;
        while k < rank
            invariant
                0 <= k <= rank,
                out@.len() == k,
                forall|j: int| 0 <= j < k ==> out@[j] == (rank - 1 - j) as usize,
            decreases rank - k,
        {
            out.push(rank - 1 - k);
            k = k + 1;
        }
        assert(out@ =~= Seq::new(rank as nat, |j: int| (rank - 1 - j) as usize));
        return Some(out);
    }
    let mut k: usize = 0;
    while k < perm.len()
        invariant
            0 <= k <= perm@.len(),
            out@.len() == k,
            forall|j: int|
                0 <= j < k ==> 0 <= #[trigger] perm@[j] <= usize::MAX && out@[j] == perm@[j] as usize,
        decreases perm@.len() - k,
    {
        let v = perm[k];
        if v < 0 || v as i128 > usize::MAX as i128 {
            assert(perm@[k as int] < 0 || perm@[k as int] > usize::MAX);
            return None;
        }
        out.push(v as usize);
        k = k + 1;
    }
    assert(out@ =~= Seq::new(perm@.len(), |j: int| perm@[j] as usize));
    Some(out)
}

/// `Transpose`: the input with its dimensions permuted (reversed by default), under the node's
/// output name.
pub fn transpose(node: &OpNode<TransposeConfig>, ctx: &mut ExecutionContext) -> (r: Result<
    (),
    OpError,
>)
    ensures
        applied(*old(ctx), *final(ctx), node.outputs@, transpose_outcome(*node, old(ctx)@), r),
{
    let x = match input_by_name(ctx, &node.inputs, 0, "transpose: missing input") {
        Ok(t) => t,
        Err(e) => return Err(e),
    };
    let rank = shape_of(&x).len();
    let axes = match transpose_perm(&node.config.perm, rank) {
        Some(a) => a,
        None => return Err(OpError::Rejected),
    };
    if node.outputs.len() < 1 {
        return Err(OpError::MissingSlot);
    }
    match apply_permute(x, axes.as_slice()) {
        Some(y) => {
            store_output(ctx, &node.outputs, y);
            Ok(())
        },
        None => Err(OpError::Rejected),
    }
}

} // verus!
