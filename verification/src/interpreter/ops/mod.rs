//! The operators the interpreter runs, one module per family.
//!
//! Each operator reads its operands from the execution context by name and stores its result
//! under the name of the node's first output. Where an operator cannot run (a missing slot or
//! tensor, or operands the backend does not accept) it reports why and leaves the context as it
//! was.

use burn_flex::FlexTensor;
use vstd::prelude::*;

use crate::backend::meta;
use crate::graph::Argument;
use crate::interpreter::context::{resolved, resolved_meta, ExecutionContext};
use crate::tensor::TensorMeta;

pub mod activation;
pub mod conv;
pub mod elementwise;
pub mod linear;
pub mod pool;
pub mod reshape;

verus! {

/// Why an operator could not run.
#[derive(Clone, Copy, Debug, PartialEq, Eq)]
pub enum OpError {
    /// The node has no input or output at a position the operator reads.
    MissingSlot,
    /// A value the operator needs is not there; the message names the operator and the value.
    Unavailable(&'static str),
    /// The backend does not accept the operands: element types, ranks or shapes.
    Rejected,
}

/// The context after a node wrote `t` under `name`: that entry is set, nothing else changes.
pub open spec fn wrote(
    before: ExecutionContext,
    after: ExecutionContext,
    name: Seq<char>,
    t: FlexTensor,
) -> bool {
    &&& after.weight_map() == before.weight_map()
    &&& after.computed() == before.computed().insert(name, t)
}

/// The context is as it was.
pub open spec fn unchanged(before: ExecutionContext, after: ExecutionContext) -> bool {
    &&& after.weight_map() == before.weight_map()
    &&& after.computed() == before.computed()
}

/// What an operator predicts: on success, what holds of the tensor it stores and that tensor's
/// shape and element type; otherwise the error it reports.
pub type Outcome = Result<(spec_fn(FlexTensor) -> bool, TensorMeta), OpError>;

/// A stored tensor that is exactly `v`.
pub open spec fn exactly(v: FlexTensor) -> spec_fn(FlexTensor) -> bool {
    |t: FlexTensor| t == v
}

/// A stored tensor of which nothing is said but its shape and element type (the backend computes
/// its elements in a way that depends on the machine).
pub open spec fn any_tensor() -> spec_fn(FlexTensor) -> bool {
    |t: FlexTensor| true
}

/// An operator ran as `outcome` says: on success it wrote, under the first output's name, a
/// tensor of which the prediction holds, of the predicted shape and element type; on failure it
/// reports the predicted error and changed nothing.
pub open spec fn applied(
    before: ExecutionContext,
    after: ExecutionContext,
    outputs: Seq<Argument>,
    outcome: Outcome,
    r: Result<(), OpError>,
) -> bool {
    match outcome {
        Ok((holds, m)) => {
            let t = after.computed()[outputs[0].name@];
            &&& r is Ok
            &&& wrote(before, after, outputs[0].name@, t)
            &&& holds(t)
            &&& meta(t) == m
        },
        Err(e) => r == Err::<(), OpError>(e) && unchanged(before, after),
    }
}

/// An operator's effect on the names a context resolves: on success the first output's name
/// reads as a tensor of which the prediction holds, of the predicted shape and element type, and
/// every other name as before; on failure the predicted error and nothing changed.
pub open spec fn view_applied(
    before: Map<Seq<char>, FlexTensor>,
    after: Map<Seq<char>, FlexTensor>,
    outputs: Seq<Argument>,
    outcome: Outcome,
    r: Result<(), OpError>,
) -> bool {
    match outcome {
        Ok((holds, m)) => {
            let t = after[outputs[0].name@];
            &&& r is Ok
            &&& after == before.insert(outputs[0].name@, t)
            &&& holds(t)
            &&& meta(t) == m
        },
        Err(e) => r == Err::<(), OpError>(e) && after == before,
    }
}

/// What `applied` says of two contexts, said of the names they resolve.
pub proof fn lemma_applied_view(
    before: ExecutionContext,
    after: ExecutionContext,
    outputs: Seq<Argument>,
    outcome: Outcome,
    r: Result<(), OpError>,
)
    requires
        applied(before, after, outputs, outcome, r),
    ensures
        view_applied(before@, after@, outputs, outcome, r),
{
    match outcome {
        Ok((holds, m)) => {
            let name = outputs[0].name@;
            assert(after@ =~= before@.insert(name, after.computed()[name]));
        },
        Err(e) => {
            assert(after@ =~= before@);
        },
    }
}

/// The tensor named by input `k`, looked up by name.
pub open spec fn named_input(
    view: Map<Seq<char>, FlexTensor>,
    inputs: Seq<Argument>,
    k: int,
) -> Option<FlexTensor> {
    view.get(inputs[k].name@)
}

/// Looks up the tensor named by input `k`: `MissingSlot` where there is no such input,
/// `Unavailable(what)` where nothing is stored under its name.
pub(crate) fn input_by_name(
    ctx: &ExecutionContext,
    inputs: &Vec<Argument>,
    k: usize,
    what: &'static str,
) -> (r: Result<FlexTensor, OpError>)
    ensures
        k >= inputs@.len() ==> r == Err::<FlexTensor, OpError>(OpError::MissingSlot),
        k < inputs@.len() ==> match named_input(ctx@, inputs@, k as int) {
            Some(t) => r == Ok::<FlexTensor, OpError>(t),
            None => r == Err::<FlexTensor, OpError>(OpError::Unavailable(what)),
        },
{
    if k >= inputs.len() {
        return Err(OpError::MissingSlot);
    }
    match ctx.get(inputs[k].name.as_str()) {
        Some(t) => Ok(t),
        None => Err(OpError::Unavailable(what)),
    }
}

/// Resolves input `k` (by name, or from inline data): `MissingSlot` where there is no such
/// input, `Unavailable(what)` where it resolves to nothing.
pub(crate) fn resolve_input(
    ctx: &ExecutionContext,
    inputs: &Vec<Argument>,
    k: usize,
    what: &'static str,
) -> (r: Result<FlexTensor, OpError>)
    ensures
        k >= inputs@.len() ==> r == Err::<FlexTensor, OpError>(OpError::MissingSlot),
        k < inputs@.len() ==> match resolved(ctx@, inputs@[k as int]) {
            Some(t) => r == Ok::<FlexTensor, OpError>(t),
            None => r == Err::<FlexTensor, OpError>(OpError::Unavailable(what)),
        },
        r matches Ok(t) ==> resolved_meta(ctx@, inputs@[k as int]) == Some(meta(t)),
        k < inputs@.len() && r is Err ==> resolved_meta(ctx@, inputs@[k as int]) is None,
{
    if k >= inputs.len() {
        return Err(OpError::MissingSlot);
    }
    match ctx.resolve(&inputs[k]) {
        Some(t) => Ok(t),
        None => Err(OpError::Unavailable(what)),
    }
}

/// Stores the result of a node under the name of its first output.
pub(crate) fn store_output(ctx: &mut ExecutionContext, outputs: &Vec<Argument>, y: FlexTensor)
    requires
        outputs@.len() >= 1,
    ensures
        wrote(*old(ctx), *final(ctx), outputs@[0].name@, y),
        final(ctx).computed()[outputs@[0].name@] == y,
{
    ctx.insert(outputs[0].name.clone(), y);
}

} // verus!
