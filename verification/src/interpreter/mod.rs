//! The ONNX interpreter: the model, weight loading and node dispatch.
//!
//! A model is parsed into a `Graph`, its constant float arguments are loaded once as weights,
//! and each forward pass runs the nodes in order over an execution context that holds the
//! inputs and every computed tensor by name.

pub mod context;
pub mod ops;

use burn_flex::FlexTensor;
use vstd::prelude::*;

use vstd::hash_map::StringHashMap;

use burn_backend::TensorData;

use crate::backend::{
    clone_data, clone_tensor, data_element, data_meta, flex_add, flex_div, flex_from_data,
    flex_mul, flex_reshape, flex_sqrt, flex_sub, meta, tensor_from_data,
};
use crate::backend::data_element_of;
use crate::graph::{
    node_inputs, node_name, node_outputs, Argument, BatchNormConfig, Graph, Node, OpNode,
    ValueSource,
};
use crate::interpreter::context::resolved;
use crate::onnx::{convert_graph, graph_converted};
use onnx_ir::ir::OnnxGraph;
use crate::interpreter::ops::conv::{
    batch_norm_outcome, bn_fusion, channel_shape, fuse_params, offset_key, scale_key,
};
use crate::interpreter::context::ExecutionContext;
use crate::tensor::ElementType;
use crate::text::{debug_names, debug_string_list, decimal, decimal_string};
use vstd::string::StringExecFns;
use crate::interpreter::ops::activation::{softmax_outcome, unary_outcome};
use crate::interpreter::ops::conv::conv2d_outcome;
use crate::interpreter::ops::elementwise::binary_outcome;
use crate::interpreter::ops::linear::{gemm_outcome, linear_outcome};
use crate::interpreter::ops::pool::{avg_pool2d_outcome, global_avg_pool_outcome, max_pool2d_outcome};
use crate::interpreter::ops::reshape::{
    flatten_outcome, reshape_outcome, transpose_outcome,
};
use crate::interpreter::ops::{applied, lemma_applied_view, view_applied, OpError, Outcome};
use crate::tensor::{BinaryOp, UnaryOp};

verus! {

/// What running one node did.
#[derive(Clone, Copy, Debug, PartialEq, Eq, Structural)]
pub enum Step {
    /// The node ran (a constant node has nothing to run: its value was loaded with the weights).
    Done,
    /// The interpreter does not implement the node's operator and skipped it.
    Unsupported,
}

/// An operator's result without its value.
pub open spec fn unit_of(r: Result<Step, OpError>) -> Result<(), OpError> {
    match r {
        Ok(_) => Ok(()),
        Err(e) => Err(e),
    }
}

/// A node that runs an operator: `outcome` says what it does, and success is `Step::Done`.
pub open spec fn op_step(
    before: Map<Seq<char>, FlexTensor>,
    after: Map<Seq<char>, FlexTensor>,
    outputs: Seq<Argument>,
    outcome: Outcome,
    r: Result<Step, OpError>,
) -> bool {
    &&& view_applied(before, after, outputs, outcome, unit_of(r))
    &&& r is Ok ==> r == Ok::<Step, OpError>(Step::Done)
}

/// What running `node` does to the names a context resolves (`before` to `after`) and what it
/// reports.
pub open spec fn node_step(
    node: Node,
    before: Map<Seq<char>, FlexTensor>,
    after: Map<Seq<char>, FlexTensor>,
    r: Result<Step, OpError>,
) -> bool {
    match node {
        Node::Relu(n) => op_step(
            before,
            after,
            n.outputs@,
            unary_outcome(n, before, UnaryOp::Relu, "relu: missing input"),
            r,
        ),
        Node::Sigmoid(n) => op_step(
            before,
            after,
            n.outputs@,
            unary_outcome(n, before, UnaryOp::Sigmoid, "sigmoid: missing input"),
            r,
        ),
        Node::Tanh(n) => op_step(
            before,
            after,
            n.outputs@,
            unary_outcome(n, before, UnaryOp::Tanh, "tanh: missing input"),
            r,
        ),
        Node::Gelu(n) => op_step(
            before,
            after,
            n.outputs@,
            unary_outcome(n, before, UnaryOp::Gelu, "gelu: missing input"),
            r,
        ),
        Node::Softmax(n) => op_step(
            before,
            after,
            n.outputs@,
            softmax_outcome(n, before, false, "softmax: missing input"),
            r,
        ),
        Node::LogSoftmax(n) => op_step(
            before,
            after,
            n.outputs@,
            softmax_outcome(n, before, true, "log_softmax: missing input"),
            r,
        ),
        Node::Linear(n) => op_step(before, after, n.outputs@, linear_outcome(n, before), r),
        Node::Gemm(n) => op_step(before, after, n.outputs@, gemm_outcome(n, before), r),
        Node::Add(n) => op_step(
            before,
            after,
            n.outputs@,
            binary_outcome(n, before, BinaryOp::Add, "add: missing lhs", "add: missing rhs"),
            r,
        ),
        Node::Sub(n) => op_step(
            before,
            after,
            n.outputs@,
            binary_outcome(n, before, BinaryOp::Sub, "sub: missing lhs", "sub: missing rhs"),
            r,
        ),
        Node::Mul(n) => op_step(
            before,
            after,
            n.outputs@,
            binary_outcome(n, before, BinaryOp::Mul, "mul: missing lhs", "mul: missing rhs"),
            r,
        ),
        Node::Div(n) => op_step(
            before,
            after,
            n.outputs@,
            binary_outcome(n, before, BinaryOp::Div, "div: missing lhs", "div: missing rhs"),
            r,
        ),
        Node::Reshape(n) => op_step(before, after, n.outputs@, reshape_outcome(n, before), r),
        Node::Flatten(n) => op_step(before, after, n.outputs@, flatten_outcome(n, before), r),
        Node::Transpose(n) => op_step(before, after, n.outputs@, transpose_outcome(n, before), r),
        Node::Conv2d(n) => op_step(before, after, n.outputs@, conv2d_outcome(n, before), r),
        Node::BatchNormalization(n) => op_step(
            before,
            after,
            n.outputs@,
            batch_norm_outcome(n, before),
            r,
        ),
        Node::MaxPool2d(n) => op_step(before, after, n.outputs@, max_pool2d_outcome(n, before), r),
        Node::AveragePool2d(n) => op_step(
            before,
            after,
            n.outputs@,
            avg_pool2d_outcome(n, before),
            r,
        ),
        Node::GlobalAveragePool(n) => op_step(
            before,
            after,
            n.outputs@,
            global_avg_pool_outcome(n, before),
            r,
        ),
        Node::Constant(_) => after == before && r == Ok::<Step, OpError>(Step::Done),
        Node::Other(_) => after == before && r == Ok::<Step, OpError>(Step::Unsupported),
    }
}

/// Running a node changes nothing where it fails, where it is a constant node and where it is
/// skipped; otherwise it changes only what the name of its first output reads as.
pub proof fn law_node_changes_only_its_output(
    node: Node,
    before: Map<Seq<char>, FlexTensor>,
    after: Map<Seq<char>, FlexTensor>,
    r: Result<Step, OpError>,
    name: Seq<char>,
)
    requires
        node_step(node, before, after, r),
    ensures
        r is Err ==> after == before,
        node is Constant || node is Other ==> after == before,
        after != before ==> node_outputs(&node).len() >= 1 && after == before.insert(
            node_outputs(&node)[0].name@,
            after[node_outputs(&node)[0].name@],
        ),
        after != before && name != node_outputs(&node)[0].name@ ==> after.get(name) == before.get(
            name,
        ),
{
}

/// The operators that the interpreter implements are never skipped; any other operator is
/// skipped, and skipping it changes nothing.
pub proof fn law_only_other_operators_are_skipped(
    node: Node,
    before: Map<Seq<char>, FlexTensor>,
    after: Map<Seq<char>, FlexTensor>,
    r: Result<Step, OpError>,
)
    requires
        node_step(node, before, after, r),
    ensures
        r == Ok::<Step, OpError>(Step::Unsupported) <==> node is Other,
        node is Other ==> after == before,
{
}

fn done(r: Result<(), OpError>) -> (s: Result<Step, OpError>)
    ensures
        s is Ok <==> r is Ok,
        r matches Err(e) ==> unit_of(s) == Err::<(), OpError>(e),
        s is Ok ==> s == Ok::<Step, OpError>(Step::Done),
{
    match r {
        Ok(()) => Ok(Step::Done),
        Err(e) => Err(e),
    }
}

/// Runs one node over the context: its operator where the interpreter implements it, nothing
/// for a constant node (its value is a weight), and `Step::Unsupported` for any other operator.
pub fn dispatch(node: &Node, ctx: &mut ExecutionContext) -> (r: Result<Step, OpError>)
    ensures
        node_step(*node, old(ctx)@, final(ctx)@, r),
        final(ctx).weight_map() == old(ctx).weight_map(),
{
    let ghost before = *ctx;
    match node {
        Node::Relu(n) => {
            let r = ops::activation::relu(n, ctx);
            proof {
                lemma_applied_view(
                    before,
                    *ctx,
                    n.outputs@,
                    unary_outcome(*n, before@, UnaryOp::Relu, "relu: missing input"),
                    r,
                );
            }
            done(r)
        },
        Node::Sigmoid(n) => {
            let r = ops::activation::sigmoid(n, ctx);
            proof {
                lemma_applied_view(
                    before,
                    *ctx,
                    n.outputs@,
                    unary_outcome(*n, before@, UnaryOp::Sigmoid, "sigmoid: missing input"),
                    r,
                );
            }
            done(r)
        },
        Node::Tanh(n) => {
            let r = ops::activation::tanh(n, ctx);
            proof {
                lemma_applied_view(
                    before,
                    *ctx,
                    n.outputs@,
                    unary_outcome(*n, before@, UnaryOp::Tanh, "tanh: missing input"),
                    r,
                );
            }
            done(r)
        },
        Node::Gelu(n) => {
            let r = ops::activation::gelu(n, ctx);
            proof {
                lemma_applied_view(
                    before,
                    *ctx,
                    n.outputs@,
                    unary_outcome(*n, before@, UnaryOp::Gelu, "gelu: missing input"),
                    r,
                );
            }
            done(r)
        },
        Node::Softmax(n) => {
            let r = ops::activation::softmax(n, ctx);
            proof {
                lemma_applied_view(
                    before,
                    *ctx,
                    n.outputs@,
                    softmax_outcome(*n, before@, false, "softmax: missing input"),
                    r,
                );
            }
            done(r)
        },
        Node::LogSoftmax(n) => {
            let r = ops::activation::log_softmax(n, ctx);
            proof {
                lemma_applied_view(
                    before,
                    *ctx,
                    n.outputs@,
                    softmax_outcome(*n, before@, true, "log_softmax: missing input"),
                    r,
                );
            }
            done(r)
        },
        Node::Linear(n) => {
            let r = ops::linear::linear(n, ctx);
            proof {
                lemma_applied_view(before, *ctx, n.outputs@, linear_outcome(*n, before@), r);
            }
            done(r)
        },
        Node::Gemm(n) => {
            let r = ops::linear::gemm(n, ctx);
            proof {
                lemma_applied_view(before, *ctx, n.outputs@, gemm_outcome(*n, before@), r);
            }
            done(r)
        },
        Node::Add(n) => {
            let r = ops::elementwise::add(n, ctx);
            proof {
                lemma_applied_view(
                    before,
                    *ctx,
                    n.outputs@,
                    binary_outcome(*n, before@, BinaryOp::Add, "add: missing lhs", "add: missing rhs"),
                    r,
                );
            }
            done(r)
        },
        Node::Sub(n) => {
            let r = ops::elementwise::sub(n, ctx);
            proof {
                lemma_applied_view(
                    before,
                    *ctx,
                    n.outputs@,
                    binary_outcome(*n, before@, BinaryOp::Sub, "sub: missing lhs", "sub: missing rhs"),
                    r,
                );
            }
            done(r)
        },
        Node::Mul(n) => {
            let r = ops::elementwise::mul(n, ctx);
            proof {
                lemma_applied_view(
                    before,
                    *ctx,
                    n.outputs@,
                    binary_outcome(*n, before@, BinaryOp::Mul, "mul: missing lhs", "mul: missing rhs"),
                    r,
                );
            }
            done(r)
        },
        Node::Div(n) => {
            let r = ops::elementwise::div(n, ctx);
            proof {
                lemma_applied_view(
                    before,
                    *ctx,
                    n.outputs@,
                    binary_outcome(*n, before@, BinaryOp::Div, "div: missing lhs", "div: missing rhs"),
                    r,
                );
            }
            done(r)
        },
        Node::Reshape(n) => {
            let r = ops::reshape::reshape(n, ctx);
            proof {
                lemma_applied_view(before, *ctx, n.outputs@, reshape_outcome(*n, before@), r);
            }
            done(r)
        },
        Node::Flatten(n) => {
            let r = ops::reshape::flatten(n, ctx);
            proof {
                lemma_applied_view(before, *ctx, n.outputs@, flatten_outcome(*n, before@), r);
            }
            done(r)
        },
        Node::Transpose(n) => {
            let r = ops::reshape::transpose(n, ctx);
            proof {
                lemma_applied_view(before, *ctx, n.outputs@, transpose_outcome(*n, before@), r);
            }
            done(r)
        },
        Node::Conv2d(n) => {
            let r = ops::conv::conv2d(n, ctx);
            proof {
                lemma_applied_view(before, *ctx, n.outputs@, conv2d_outcome(*n, before@), r);
            }
            done(r)
        },
        Node::BatchNormalization(n) => {
            let r = ops::conv::batch_norm_fused(n, ctx);
            proof {
                lemma_applied_view(before, *ctx, n.outputs@, batch_norm_outcome(*n, before@), r);
            }
            done(r)
        },
        Node::MaxPool2d(n) => {
            let r = ops::pool::max_pool2d(n, ctx);
            proof {
                lemma_applied_view(before, *ctx, n.outputs@, max_pool2d_outcome(*n, before@), r);
            }
            done(r)
        },
        Node::AveragePool2d(n) => {
            let r = ops::pool::avg_pool2d(n, ctx);
            proof {
                lemma_applied_view(before, *ctx, n.outputs@, avg_pool2d_outcome(*n, before@), r);
            }
            done(r)
        },
        Node::GlobalAveragePool(n) => {
            let r = ops::pool::global_avg_pool(n, ctx);
            proof {
                lemma_applied_view(
                    before,
                    *ctx,
                    n.outputs@,
                    global_avg_pool_outcome(*n, before@),
                    r,
                );
            }
            done(r)
        },
        Node::Constant(_) => Ok(Step::Done),
        Node::Other(_) => Ok(Step::Unsupported),
    }
}

// ---------------------------------------------------------------------------------------------
// Weights

/// The element types a weight may have: the float types of ONNX models.
pub open spec fn is_weight_element(e: ElementType) -> bool {
    e == ElementType::F32 || e == ElementType::F16 || e == ElementType::BF16
}

/// The weight an argument provides, by name: a named static or constant-node argument whose data
/// is of a float type (`f32`, `f16` or `bf16`), as the backend's tensor of that data.
pub open spec fn weight_of(arg: Argument) -> Option<(Seq<char>, FlexTensor)> {
    if arg.name@.len() == 0 {
        None
    } else {
        match arg.value_source {
            ValueSource::Static | ValueSource::Constant => match arg.value {
                Some(d) => if is_weight_element(data_element(d)) {
                    Some((arg.name@, flex_from_data(d)))
                } else {
                    None
                },
                None => None,
            },
            _ => None,
        }
    }
}

/// The weight an argument provides, if any (see `weight_of`); the tensor has the shape and
/// element type of the argument's data.
pub fn load_weight(arg: &Argument) -> (r: Option<(String, FlexTensor)>)
    ensures
        match r {
            Some((n, t)) => {
                &&& weight_of(*arg) == Some((n@, t))
                &&& meta(t) == data_meta(arg.value->Some_0)
            },
            None => weight_of(*arg) is None,
        },
{
    if arg.name.as_str().is_empty() {
        return None;
    }
    match arg.value_source {
        ValueSource::Static | ValueSource::Constant => {
            let data = match &arg.value {
                Some(d) => d,
                None => return None,
            };
            match data_element_of(data) {
                ElementType::F32 | ElementType::F16 | ElementType::BF16 => {},
                _ => return None,
            }
            Some((arg.name.clone(), tensor_from_data(clone_data(data))))
        },
        _ => None,
    }
}

/// The inputs of all nodes, node after node.
pub open spec fn graph_args(nodes: Seq<Node>) -> Seq<Argument>
    decreases nodes.len(),
{
    if nodes.len() == 0 {
        seq![]
    } else {
        graph_args(nodes.drop_last()) + node_inputs(&nodes.last())
    }
}

/// The weights that arguments provide, by name, a later argument replacing an earlier one of the
/// same name.
pub open spec fn loaded_weights(args: Seq<Argument>) -> Map<Seq<char>, FlexTensor>
    decreases args.len(),
{
    if args.len() == 0 {
        Map::empty()
    } else {
        let before = loaded_weights(args.drop_last());
        match weight_of(args.last()) {
            Some((n, t)) => before.insert(n, t),
            None => before,
        }
    }
}

/// The pre-fused parameters a batch-normalization node gets at load time from the tensors `w`:
/// where its four parameters resolve against `w` and the backend accepts the fusion (see
/// `bn_fusion`), `<node>::scale` and `<node>::offset` with their tensors.
pub open spec fn bn_node_fusion(node: Node, w: Map<Seq<char>, FlexTensor>) -> Option<
    (Seq<char>, FlexTensor, Seq<char>, FlexTensor),
> {
    match node {
        Node::BatchNormalization(n) => {
            let ins = n.inputs@;
            if ins.len() >= 5 && resolved(w, ins[1]) is Some && resolved(w, ins[2]) is Some
                && resolved(w, ins[3]) is Some && resolved(w, ins[4]) is Some {
                match bn_fusion(
                    resolved(w, ins[1])->Some_0,
                    resolved(w, ins[2])->Some_0,
                    resolved(w, ins[3])->Some_0,
                    resolved(w, ins[4])->Some_0,
                    n.config.epsilon,
                ) {
                    Some((sc, off)) => Some((scale_key(n.name@), sc, offset_key(n.name@), off)),
                    None => None,
                }
            } else {
                None
            }
        },
        _ => None,
    }
}

/// The scale that batch-normalization fusion derives from `gamma`, `var` and `eps`:
/// `gamma / sqrt(var + eps)`, before it is reshaped.
pub open spec fn fused_scale(gamma: FlexTensor, var: FlexTensor, eps: TensorData) -> FlexTensor {
    flex_div(gamma, flex_sqrt(flex_add(var, flex_from_data(eps))))
}

/// `[1, c, 1, 1]` for the channel count `c` that `gamma` gives (its first dimension, or 1).
pub open spec fn fused_shape(gamma: FlexTensor) -> Seq<usize> {
    let c = if meta(gamma).shape.len() > 0 {
        meta(gamma).shape[0]
    } else {
        1usize
    };
    seq![1usize, c, 1usize, 1usize]
}

/// The batch-normalization parameters fused at load time: stored under `<node>::scale` and
/// `<node>::offset`, the scale is `gamma / sqrt(var + eps)` and the offset is
/// `beta - mean * scale`, both shaped `[1, c, 1, 1]`, with gamma, beta, mean and var the node's
/// parameters as they resolve against the weights. So `x * scale + offset` is the normalization
/// `(x - mean) / sqrt(var + eps) * gamma + beta` regrouped.
pub proof fn law_fused_parameters(
    n: OpNode<BatchNormConfig>,
    w: Map<Seq<char>, FlexTensor>,
    sk: Seq<char>,
    sc: FlexTensor,
    ok: Seq<char>,
    off: FlexTensor,
)
    requires
        bn_node_fusion(Node::BatchNormalization(n), w) == Some((sk, sc, ok, off)),
    ensures
        ({
            let ins = n.inputs@;
            let gamma = resolved(w, ins[1])->Some_0;
            let beta = resolved(w, ins[2])->Some_0;
            let mean = resolved(w, ins[3])->Some_0;
            let var = resolved(w, ins[4])->Some_0;
            let q = fused_scale(gamma, var, n.config.epsilon);
            &&& ins.len() >= 5
            &&& sk == n.name@ + "::scale"@
            &&& ok == n.name@ + "::offset"@
            &&& sc == flex_reshape(q, fused_shape(gamma))
            &&& off == flex_reshape(flex_sub(beta, flex_mul(mean, q)), fused_shape(gamma))
        }),
{
    let ins = n.inputs@;
    let gamma = resolved(w, ins[1])->Some_0;
    let c = if meta(gamma).shape.len() > 0 {
        meta(gamma).shape[0]
    } else {
        1usize
    };
    assert(channel_shape(c, 4) =~= seq![1usize, c, 1usize, 1usize]);
}

/// A batch-normalization node whose parameters were fused at load, run over tensors that still
/// hold the fused parameters, stores `x * scale + offset` with the scale and offset of
/// `law_fused_parameters`: `x * (gamma / sqrt(var + eps)) + (beta - mean * (gamma / sqrt(var +
/// eps)))`, each factor shaped `[1, c, 1, 1]`.
pub proof fn law_fused_node_normalizes(
    n: OpNode<BatchNormConfig>,
    w: Map<Seq<char>, FlexTensor>,
    view: Map<Seq<char>, FlexTensor>,
    x: FlexTensor,
    t: FlexTensor,
)
    requires
        bn_node_fusion(Node::BatchNormalization(n), w) matches Some(f) && view.get(
            scale_key(n.name@),
        ) == Some(f.1) && view.get(offset_key(n.name@)) == Some(f.3),
        n.inputs@.len() >= 1,
        resolved(view, n.inputs@[0]) == Some(x),
        batch_norm_outcome(n, view) is Ok,
    ensures
        ({
            let ins = n.inputs@;
            let gamma = resolved(w, ins[1])->Some_0;
            let beta = resolved(w, ins[2])->Some_0;
            let mean = resolved(w, ins[3])->Some_0;
            let var = resolved(w, ins[4])->Some_0;
            let q = fused_scale(gamma, var, n.config.epsilon);
            let bs = fused_shape(gamma);
            (batch_norm_outcome(n, view)->Ok_0.0)(t) <==> t == flex_add(
                flex_mul(x, flex_reshape(q, bs)),
                flex_reshape(flex_sub(beta, flex_mul(mean, q)), bs),
            )
        }),
{
    let f = bn_node_fusion(Node::BatchNormalization(n), w)->Some_0;
    law_fused_parameters(n, w, f.0, f.1, f.2, f.3);
}

/// The tensors `w` with the pre-fused batch-normalization parameters of `nodes` added, node after
/// node (each node sees what the nodes before it added).
pub open spec fn with_fusions(nodes: Seq<Node>, w: Map<Seq<char>, FlexTensor>) -> Map<
    Seq<char>,
    FlexTensor,
>
    decreases nodes.len(),
{
    if nodes.len() == 0 {
        w
    } else {
        let before = with_fusions(nodes.drop_last(), w);
        match bn_node_fusion(nodes.last(), before) {
            Some((sk, sc, ok, off)) => before.insert(sk, sc).insert(ok, off),
            None => before,
        }
    }
}

/// The pre-fused parameters of a batch-normalization node over the weights `weights` (see
/// `bn_node_fusion`).
fn fuse_node(bn: &OpNode<BatchNormConfig>, weights: &StringHashMap<FlexTensor>) -> (r: Option<
    (String, FlexTensor, String, FlexTensor),
>)
    ensures
        match r {
            Some((sk, sc, ok, off)) => bn_node_fusion(Node::BatchNormalization(*bn), weights@)
                == Some((sk@, sc, ok@, off)),
            None => bn_node_fusion(Node::BatchNormalization(*bn), weights@) is None,
        },
{
    if bn.inputs.len() < 5 {
        return None;
    }
    let ctx = ExecutionContext::new(weights);
    let gamma = match ctx.resolve(&bn.inputs[1]) {
        Some(t) => t,
        None => return None,
    };
    let beta = match ctx.resolve(&bn.inputs[2]) {
        Some(t) => t,
        None => return None,
    };
    let mean = match ctx.resolve(&bn.inputs[3]) {
        Some(t) => t,
        None => return None,
    };
    let var = match ctx.resolve(&bn.inputs[4]) {
        Some(t) => t,
        None => return None,
    };
    match fuse_params(gamma, beta, mean, var, &bn.config.epsilon) {
        Some((sc, off)) => {
            let sk = bn.name.clone().concat("::scale");
            let ok = bn.name.clone().concat("::offset");
            Some((sk, sc, ok, off))
        },
        None => None,
    }
}

/// An ONNX model ready to run: its nodes, its weights loaded once, and the names of its inputs
/// and outputs.
pub struct OnnxModel {
    nodes: Vec<Node>,
    weights: StringHashMap<FlexTensor>,
    input_names: Vec<String>,
    output_names: Vec<String>,
}

impl OnnxModel {
    pub closed spec fn nodes(&self) -> Seq<Node> {
        self.nodes@
    }

    pub closed spec fn weights(&self) -> Map<Seq<char>, FlexTensor> {
        self.weights@
    }

    pub closed spec fn input_names(&self) -> Seq<String> {
        self.input_names@
    }

    pub closed spec fn output_names(&self) -> Seq<String> {
        self.output_names@
    }
}

/// Builds a model from a parsed graph: the nodes and the input and output names as they are,
/// and the weights that the nodes' arguments provide (see `loaded_weights`), with the pre-fused
/// parameters of each batch-normalization node added (see `with_fusions`).
pub fn load_onnx(graph: Graph) -> (m: OnnxModel)
    ensures
        m.nodes() == graph.nodes@,
        m.input_names() == graph.inputs@,
        m.output_names() == graph.outputs@,
        m.weights() == with_fusions(graph.nodes@, loaded_weights(graph_args(graph.nodes@))),
{
    let mut weights: StringHashMap<FlexTensor> = StringHashMap::new();
    let n = graph.nodes.len();
    let mut i: usize = 0;
    while i < n
        invariant
            n == graph.nodes@.len(),
            0 <= i <= n,
            weights@ == loaded_weights(graph_args(graph.nodes@.take(i as int))),
        decreases n - i,
    {
        let ins = graph.nodes[i].inputs();
        let ghost prefix = graph_args(graph.nodes@.take(i as int));
        let mut j: usize = 0;
        while j < ins.len()
            invariant
                0 <= j <= ins@.len(),
                weights@ == loaded_weights(prefix + ins@.take(j as int)),
            decreases ins@.len() - j,
        {
            proof {
                assert((prefix + ins@.take(j + 1)).drop_last() =~= prefix + ins@.take(j as int));
                assert((prefix + ins@.take(j + 1)).last() == ins@[j as int]);
            }
            match load_weight(&ins[j]) {
                Some((name, t)) => {
                    weights.insert(name, t);
                },
                None => {},
            }
            j = j + 1;
        }
        proof {
            assert(ins@.take(ins@.len() as int) =~= ins@);
            assert(graph.nodes@.take(i + 1).drop_last() =~= graph.nodes@.take(i as int));
            assert(graph.nodes@.take(i + 1).last() == graph.nodes@[i as int]);
        }
        i = i + 1;
    }
    assert(graph.nodes@.take(n as int) =~= graph.nodes@);
    let ghost loaded = weights@;
    assert(graph.nodes@.take(0) =~= Seq::<Node>::empty());
    let mut i: usize = 0;
    while i < n
        invariant
            n == graph.nodes@.len(),
            0 <= i <= n,
            weights@ == with_fusions(graph.nodes@.take(i as int), loaded),
        decreases n - i,
    {
        proof {
            assert(graph.nodes@.take(i + 1).drop_last() =~= graph.nodes@.take(i as int));
            assert(graph.nodes@.take(i + 1).last() == graph.nodes@[i as int]);
        }
        match &graph.nodes[i] {
            Node::BatchNormalization(bn) => {
                match fuse_node(bn, &weights) {
                    Some((sk, sc, ok, off)) => {
                        weights.insert(sk, sc);
                        weights.insert(ok, off);
                    },
                    None => {},
                }
            },
            _ => {
                assert(bn_node_fusion(graph.nodes@[i as int], weights@) is None);
            },
        }
        i = i + 1;
    }
    assert(graph.nodes@.take(n as int) =~= graph.nodes@);
    OnnxModel {
        input_names: graph.inputs,
        output_names: graph.outputs,
        nodes: graph.nodes,
        weights,
    }
}

/// `m` is the model that `load_onnx` builds from `graph`.
pub open spec fn loaded_from(m: OnnxModel, graph: Graph) -> bool {
    &&& m.nodes() == graph.nodes@
    &&& m.input_names() == graph.inputs@
    &&& m.output_names() == graph.outputs@
    &&& m.weights() == with_fusions(graph.nodes@, loaded_weights(graph_args(graph.nodes@)))
}

/// Loads a model parsed by onnx-ir: its graph in the library's terms (see `graph_converted`),
/// loaded as `load_onnx` does.
pub fn load_onnx_graph(g: &OnnxGraph) -> (m: OnnxModel)
    ensures
        exists|gr: Graph| #[trigger] graph_converted(*g, gr) && loaded_from(m, gr),
{
    let gr = convert_graph(g);
    let ghost g0 = gr;
    let m = load_onnx(gr);
    assert(graph_converted(*g, g0) && loaded_from(m, g0));
    m
}

// ---------------------------------------------------------------------------------------------
// Forward pass

/// Why a forward pass did not produce its outputs.
#[derive(Debug)]
pub enum CallError {
    /// The number of inputs given differs from the model's.
    InputCount { expected: usize, got: usize },
    /// The node of this name could not run.
    Op { node: String, error: OpError },
    /// No tensor is stored under this output name once all nodes ran.
    MissingOutput(String),
}

/// What a forward pass reports: the names of the nodes it skipped as unsupported, in order, and
/// its outputs or why there are none.
pub struct CallReport {
    pub unsupported: Vec<String>,
    pub result: Result<Vec<FlexTensor>, CallError>,
}

/// The names a forward pass starts from: the weights, then each input tensor under its name, in
/// order (a later input replacing an earlier one of the same name).
pub open spec fn initial_view(
    weights: Map<Seq<char>, FlexTensor>,
    names: Seq<String>,
    tensors: Seq<FlexTensor>,
) -> Map<Seq<char>, FlexTensor>
    decreases names.len(),
{
    if names.len() == 0 || tensors.len() == 0 {
        weights
    } else {
        initial_view(weights, names.drop_last(), tensors.drop_last()).insert(
            names.last()@,
            tensors.last(),
        )
    }
}

/// `trace` and `steps` record the nodes run so far: `trace[i]` is what the context resolved
/// before node `i`, and node `i` ran successfully as `steps[i]` into `trace[i + 1]`.
pub open spec fn is_run(
    nodes: Seq<Node>,
    trace: Seq<Map<Seq<char>, FlexTensor>>,
    steps: Seq<Step>,
) -> bool {
    &&& trace.len() == steps.len() + 1
    &&& steps.len() <= nodes.len()
    &&& forall|i: int|
        0 <= i < steps.len() ==> #[trigger] node_step(
            nodes[i],
            trace[i],
            trace[i + 1],
            Ok::<Step, OpError>(steps[i]),
        )
}

/// The names of the nodes that were skipped as unsupported, in order.
pub open spec fn unsupported_names(nodes: Seq<Node>, steps: Seq<Step>) -> Seq<Seq<char>>
    decreases steps.len(),
{
    if steps.len() == 0 {
        seq![]
    } else {
        let rest = unsupported_names(nodes, steps.drop_last());
        if steps.last() == Step::Unsupported {
            rest.push(node_name(&nodes[steps.len() - 1]))
        } else {
            rest
        }
    }
}

/// The tensors `outs` are what `view` holds under `names`, in order.
pub open spec fn outputs_read(
    view: Map<Seq<char>, FlexTensor>,
    names: Seq<String>,
    outs: Seq<FlexTensor>,
) -> bool {
    &&& outs.len() == names.len()
    &&& forall|j: int| 0 <= j < names.len() ==> view.get(#[trigger] names[j]@) == Some(outs[j])
}

/// `name` is the first of `names` that `view` does not hold.
pub open spec fn first_missing(
    view: Map<Seq<char>, FlexTensor>,
    names: Seq<String>,
    name: Seq<char>,
) -> bool {
    exists|j: int|
        0 <= j < names.len() && #[trigger] names[j]@ == name && !view.contains_key(name) && forall|
            k: int,
        |
            0 <= k < j ==> view.contains_key(#[trigger] names[k]@)
}

/// A record of a forward pass that explains `report`: it starts from the weights and inputs,
/// runs the nodes in order, lists the skipped nodes, and ends with the outputs read by name, with
/// the node that could not run, or with the first output name that holds nothing.
pub open spec fn run_explains(
    model: OnnxModel,
    inputs: Seq<FlexTensor>,
    report: CallReport,
    trace: Seq<Map<Seq<char>, FlexTensor>>,
    steps: Seq<Step>,
) -> bool {
    let nodes = model.nodes();
    let last = trace[trace.len() - 1];
    &&& trace[0] == initial_view(model.weights(), model.input_names(), inputs)
    &&& is_run(nodes, trace, steps)
    &&& report.unsupported.deep_view() == unsupported_names(nodes, steps)
    &&& match report.result {
        Ok(outs) => steps.len() == nodes.len() && outputs_read(last, model.output_names(), outs@),
        Err(CallError::Op { node, error }) => {
            &&& steps.len() < nodes.len()
            &&& node@ == node_name(&nodes[steps.len() as int])
            &&& node_step(nodes[steps.len() as int], last, last, Err::<Step, OpError>(error))
        },
        Err(CallError::MissingOutput(name)) => steps.len() == nodes.len() && first_missing(
            last,
            model.output_names(),
            name@,
        ),
        Err(CallError::InputCount { .. }) => false,
    }
}

/// What a forward pass of `model` on `inputs` reports: an input count error (and nothing else)
/// where the count differs from the model's; otherwise what a run of the nodes explains.
pub open spec fn call_reports(model: OnnxModel, inputs: Seq<FlexTensor>, report: CallReport) -> bool {
    if inputs.len() != model.input_names().len() {
        &&& report.result matches Err(CallError::InputCount { expected, got })
        &&& expected == model.input_names().len()
        &&& got == inputs.len()
        &&& report.unsupported@.len() == 0
    } else {
        exists|trace: Seq<Map<Seq<char>, FlexTensor>>, steps: Seq<Step>| #[trigger]
            run_explains(model, inputs, report, trace, steps)
    }
}

impl OnnxModel {
    /// Runs a forward pass: the inputs are stored under the model's input names, the nodes run
    /// in order, and the outputs are read by name.
    pub fn call(&self, inputs: Vec<FlexTensor>) -> (r: CallReport)
        ensures
            call_reports(*self, inputs@, r),
    {
        if inputs.len() != self.input_names.len() {
            return CallReport {
                unsupported: Vec::new(),
                result: Err(
                    CallError::InputCount { expected: self.input_names.len(), got: inputs.len() },
                ),
            };
        }
        let mut ctx = ExecutionContext::new(&self.weights);
        let k = inputs.len();
        let mut i: usize = 0;
        while i < k
            invariant
                k == inputs@.len(),
                k == self.input_names@.len(),
                0 <= i <= k,
                ctx.weight_map() == self.weights@,
                ctx@ == initial_view(
                    self.weights@,
                    self.input_names@.take(i as int),
                    inputs@.take(i as int),
                ),
            decreases k - i,
        {
            proof {
                assert(self.input_names@.take(i + 1).drop_last() =~= self.input_names@.take(
                    i as int,
                ));
                assert(inputs@.take(i + 1).drop_last() =~= inputs@.take(i as int));
            }
            ctx.insert(self.input_names[i].clone(), clone_tensor(&inputs[i]));
            i = i + 1;
        }
        proof {
            assert(self.input_names@.take(k as int) =~= self.input_names@);
            assert(inputs@.take(k as int) =~= inputs@);
        }
        let ghost mut trace: Seq<Map<Seq<char>, FlexTensor>> = seq![ctx@];
        let ghost mut steps: Seq<Step> = seq![];
        let mut unsupported: Vec<String> = Vec::new();
        let n = self.nodes.len();
        let mut i: usize = 0;
        while i < n
            invariant
                n == self.nodes@.len(),
                inputs@.len() == self.input_names@.len(),
                0 <= i <= n,
                steps.len() == i,
                ctx.weight_map() == self.weights@,
                trace[0] == initial_view(self.weights@, self.input_names@, inputs@),
                is_run(self.nodes@, trace, steps),
                trace[trace.len() - 1] == ctx@,
                unsupported.deep_view() == unsupported_names(self.nodes@, steps),
            decreases n - i,
        {
            let ghost before = ctx@;
            let r = dispatch(&self.nodes[i], &mut ctx);
            match r {
                Ok(step) => {
                    let ghost old_unsupported = unsupported.deep_view();
                    if let Step::Unsupported = step {
                        unsupported.push(self.nodes[i].name().clone());
                    }
                    proof {
                        let new_steps = steps.push(step);
                        let new_trace = trace.push(ctx@);
                        assert(new_steps.drop_last() =~= steps);
                        assert forall|j: int| 0 <= j < new_steps.len() implies #[trigger] node_step(
                            self.nodes@[j],
                            new_trace[j],
                            new_trace[j + 1],
                            Ok::<Step, OpError>(new_steps[j]),
                        ) by {
                            if j < steps.len() {
                                assert(node_step(
                                    self.nodes@[j],
                                    trace[j],
                                    trace[j + 1],
                                    Ok::<Step, OpError>(steps[j]),
                                ));
                            }
                        }
                        assert(unsupported.deep_view() =~= unsupported_names(self.nodes@, new_steps));
                        steps = new_steps;
                        trace = new_trace;
                    }
                },
                Err(e) => {
                    let report = CallReport {
                        unsupported,
                        result: Err(CallError::Op { node: self.nodes[i].name().clone(), error: e }),
                    };
                    proof {
                        assert(ctx@ == before);
                        assert(run_explains(*self, inputs@, report, trace, steps));
                    }
                    return report;
                },
            }
            i = i + 1;
        }
        let mut outs: Vec<FlexTensor> = Vec::new();
        let m = self.output_names.len();
        let mut j: usize = 0;
        while j < m
            invariant
                m == self.output_names@.len(),
                0 <= j <= m,
                n == self.nodes@.len(),
                inputs@.len() == self.input_names@.len(),
                steps.len() == n,
                trace[0] == initial_view(self.weights@, self.input_names@, inputs@),
                is_run(self.nodes@, trace, steps),
                trace[trace.len() - 1] == ctx@,
                unsupported.deep_view() == unsupported_names(self.nodes@, steps),
                outs@.len() == j,
                forall|q: int|
                    0 <= q < j ==> ctx@.get(#[trigger] self.output_names@[q]@) == Some(outs@[q]),
            decreases m - j,
        {
            match ctx.get(self.output_names[j].as_str()) {
                Some(t) => {
                    outs.push(t);
                },
                None => {
                    let report = CallReport {
                        unsupported,
                        result: Err(CallError::MissingOutput(self.output_names[j].clone())),
                    };
                    proof {
                        assert(self.output_names@[j as int]@ == self.output_names@[j as int]@);
                        assert(run_explains(*self, inputs@, report, trace, steps));
                    }
                    return report;
                },
            }
            j = j + 1;
        }
        let report = CallReport { unsupported, result: Ok(outs) };
        proof {
            assert(run_explains(*self, inputs@, report, trace, steps));
        }
        report
    }
}

impl OnnxModel {
    /// The number of inputs a forward pass takes.
    pub fn input_count(&self) -> (r: usize)
        ensures
            r == self.input_names().len(),
    {
        self.input_names.len()
    }

    /// A one-line description: `OnnxModel(inputs=[..], outputs=[..], nodes=N)`, the names in
    /// `Debug` notation.
    pub fn repr(&self) -> (r: String)
        ensures
            r@ == "OnnxModel(inputs="@ + debug_string_list(self.input_names().map_values(
                |s: String| s@,
            )) + ", outputs="@ + debug_string_list(self.output_names().map_values(|s: String| s@))
                + ", nodes="@ + decimal(self.nodes().len()) + ")"@,
    {
        let inputs = debug_names(&self.input_names);
        let outputs = debug_names(&self.output_names);
        let count = decimal_string(self.nodes.len());
        proof {
            assert(self.input_names.deep_view() =~= self.input_names@.map_values(|s: String| s@));
            assert(self.output_names.deep_view() =~= self.output_names@.map_values(
                |s: String| s@,
            ));
        }
        let r = "OnnxModel(inputs=".to_owned();
        let r = r.concat(inputs.as_str());
        let r = r.concat(", outputs=");
        let r = r.concat(outputs.as_str());
        let r = r.concat(", nodes=");
        let r = r.concat(count.as_str());
        r.concat(")")
    }
}

} // verus!
