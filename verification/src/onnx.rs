//! The graph that onnx-ir parses, converted into the library's `Graph` node by node, through one
//! trusted accessor per field the interpreter reads.

use burn_backend::{DType, TensorData};
use onnx_ir::batch_norm::BatchNormConfig as OnnxBatchNormConfig;
use onnx_ir::ir::Argument as OnnxArgument;
use onnx_ir::ir::OnnxGraph;
use onnx_ir::Node as OnnxNode;
use onnx_ir::node::padding::PaddingConfig2d as OnnxPadding;
use vstd::prelude::*;

use crate::graph::{
    Argument, AvgPool2dConfig, BatchNormConfig, Conv2dConfig, FlattenConfig, GemmConfig,
    GemmScale, Graph, LinearConfig, MaxPool2dConfig, Node, OpNode, PaddingConfig2d,
    SoftmaxConfig, TransposeConfig, ValueSource,
};

verus! {

#[verifier::external_type_specification]
#[verifier::external_body]
pub struct ExOnnxGraph(onnx_ir::ir::OnnxGraph);

#[verifier::external_type_specification]
#[verifier::external_body]
pub struct ExOnnxNode(OnnxNode);

#[verifier::external_type_specification]
#[verifier::external_body]
pub struct ExOnnxArgument(OnnxArgument);

/// The operators the interpreter tells apart.
#[derive(Clone, Copy, Debug, PartialEq, Eq, Structural)]
pub enum NodeKind {
    Relu,
    Sigmoid,
    Tanh,
    Gelu,
    Softmax,
    LogSoftmax,
    Linear,
    Gemm,
    Add,
    Sub,
    Mul,
    Div,
    Reshape,
    Flatten,
    Transpose,
    Conv2d,
    BatchNormalization,
    MaxPool2d,
    AveragePool2d,
    GlobalAveragePool,
    Constant,
    Other,
}

/// The attributes of a `Gemm` node: the bit patterns and one-element tensors of `alpha` and
/// `beta`, and the transposition flags.
pub struct GemmAttributes {
    pub alpha_bits: u32,
    pub beta_bits: u32,
    pub alpha: TensorData,
    pub beta: TensorData,
    pub trans_a: i64,
    pub trans_b: i64,
}

/// The bit pattern of 1.0 in IEEE single precision.
pub const ONE_BITS: u32 = 0x3f80_0000;

/// The nodes of a parsed graph.
pub uninterp spec fn onnx_graph_nodes(g: OnnxGraph) -> Seq<OnnxNode>;

/// The inputs of a parsed graph.
pub uninterp spec fn onnx_graph_inputs(g: OnnxGraph) -> Seq<OnnxArgument>;

/// The outputs of a parsed graph.
pub uninterp spec fn onnx_graph_outputs(g: OnnxGraph) -> Seq<OnnxArgument>;

/// The operator of a node among the activations and `Linear`, if it is one of them.
pub uninterp spec fn onnx_kind_activation(n: OnnxNode) -> Option<NodeKind>;

/// The operator of a node among `Gemm`, the arithmetic and `Reshape`/`Flatten`, if it is one.
pub uninterp spec fn onnx_kind_arithmetic(n: OnnxNode) -> Option<NodeKind>;

/// The operator of a node among `Transpose`, convolution, normalization, pooling and
/// `Constant`, if it is one.
pub uninterp spec fn onnx_kind_spatial(n: OnnxNode) -> Option<NodeKind>;

/// The name of a node.
pub uninterp spec fn onnx_node_name(n: OnnxNode) -> Seq<char>;

/// The inputs of a node.
pub uninterp spec fn onnx_node_inputs(n: OnnxNode) -> Seq<OnnxArgument>;

/// The outputs of a node.
pub uninterp spec fn onnx_node_outputs(n: OnnxNode) -> Seq<OnnxArgument>;

/// The name of an argument.
pub uninterp spec fn onnx_arg_name(a: OnnxArgument) -> Seq<char>;

/// Where the value of an argument comes from.
pub uninterp spec fn onnx_arg_source(a: OnnxArgument) -> ValueSource;

/// What `Argument::value` gives for an argument.
pub uninterp spec fn onnx_arg_value(a: OnnxArgument) -> Option<TensorData>;

/// The axis of a `Softmax` or `LogSoftmax` node.
pub uninterp spec fn onnx_softmax_axis(n: OnnxNode) -> Option<usize>;

/// Whether the weight of a `Linear` node is stored transposed.
pub uninterp spec fn onnx_linear_transposed(n: OnnxNode) -> Option<bool>;

/// The attributes of a `Gemm` node.
pub uninterp spec fn onnx_gemm(n: OnnxNode) -> Option<GemmAttributes>;

/// The axis of a `Flatten` node.
pub uninterp spec fn onnx_flatten_axis(n: OnnxNode) -> Option<usize>;

/// The permutation of a `Transpose` node.
pub uninterp spec fn onnx_transpose_perm(n: OnnxNode) -> Option<Seq<i64>>;

/// The settings of a `Conv2d` node.
pub uninterp spec fn onnx_conv2d(n: OnnxNode) -> Option<Conv2dConfig>;

/// The epsilon of a `BatchNormalization` node, as a one-element `f32` tensor.
pub uninterp spec fn onnx_bn_epsilon(n: OnnxNode) -> Option<TensorData>;

/// The settings of a `MaxPool2d` node.
pub uninterp spec fn onnx_max_pool2d(n: OnnxNode) -> Option<MaxPool2dConfig>;

/// The settings of an `AveragePool2d` node.
pub uninterp spec fn onnx_avg_pool2d(n: OnnxNode) -> Option<AvgPool2dConfig>;

/// The `nodes` field of a parsed graph.
#[verifier::external_body]
fn graph_nodes(g: &OnnxGraph) -> (r: &Vec<OnnxNode>)
    ensures
        r@ == onnx_graph_nodes(*g),
{
    &g.nodes
}

/// The `inputs` field of a parsed graph.
#[verifier::external_body]
fn graph_inputs(g: &OnnxGraph) -> (r: &Vec<OnnxArgument>)
    ensures
        r@ == onnx_graph_inputs(*g),
{
    &g.inputs
}

/// The `outputs` field of a parsed graph.
#[verifier::external_body]
fn graph_outputs(g: &OnnxGraph) -> (r: &Vec<OnnxArgument>)
    ensures
        r@ == onnx_graph_outputs(*g),
{
    &g.outputs
}

/// The variant of a node among the activations and `Linear`, one arm each.
#[verifier::external_body]
fn kind_activation(n: &OnnxNode) -> (r: Option<NodeKind>)
    ensures
        r == onnx_kind_activation(*n),
{
    match n {
        OnnxNode::Relu(_) => Some(NodeKind::Relu),
        OnnxNode::Sigmoid(_) => Some(NodeKind::Sigmoid),
        OnnxNode::Tanh(_) => Some(NodeKind::Tanh),
        OnnxNode::Gelu(_) => Some(NodeKind::Gelu),
        OnnxNode::Softmax(_) => Some(NodeKind::Softmax),
        OnnxNode::LogSoftmax(_) => Some(NodeKind::LogSoftmax),
        OnnxNode::Linear(_) => Some(NodeKind::Linear),
        _ => None,
    }
}

/// The variant of a node among `Gemm`, the arithmetic and `Reshape`/`Flatten`, one arm each.
#[verifier::external_body]
fn kind_arithmetic(n: &OnnxNode) -> (r: Option<NodeKind>)
    ensures
        r == onnx_kind_arithmetic(*n),
{
    match n {
        OnnxNode::Gemm(_) => Some(NodeKind::Gemm),
        OnnxNode::Add(_) => Some(NodeKind::Add),
        OnnxNode::Sub(_) => Some(NodeKind::Sub),
        OnnxNode::Mul(_) => Some(NodeKind::Mul),
        OnnxNode::Div(_) => Some(NodeKind::Div),
        OnnxNode::Reshape(_) => Some(NodeKind::Reshape),
        OnnxNode::Flatten(_) => Some(NodeKind::Flatten),
        _ => None,
    }
}

/// The variant of a node among `Transpose`, convolution, normalization, pooling and `Constant`,
/// one arm each.
#[verifier::external_body]
fn kind_spatial(n: &OnnxNode) -> (r: Option<NodeKind>)
    ensures
        r == onnx_kind_spatial(*n),
{
    match n {
        OnnxNode::Transpose(_) => Some(NodeKind::Transpose),
        OnnxNode::Conv2d(_) => Some(NodeKind::Conv2d),
        OnnxNode::BatchNormalization(_) => Some(NodeKind::BatchNormalization),
        OnnxNode::MaxPool2d(_) => Some(NodeKind::MaxPool2d),
        OnnxNode::AveragePool2d(_) => Some(NodeKind::AveragePool2d),
        OnnxNode::GlobalAveragePool(_) => Some(NodeKind::GlobalAveragePool),
        OnnxNode::Constant(_) => Some(NodeKind::Constant),
        _ => None,
    }
}

/// `Node::name`.
#[verifier::external_body]
fn node_name_of(n: &OnnxNode) -> (r: String)
    ensures
        r@ == onnx_node_name(*n),
{
    n.name().to_string()
}

/// `Node::inputs`.
#[verifier::external_body]
fn node_inputs_of(n: &OnnxNode) -> (r: &[OnnxArgument])
    ensures
        r@ == onnx_node_inputs(*n),
{
    n.inputs()
}

/// `Node::outputs`.
#[verifier::external_body]
fn node_outputs_of(n: &OnnxNode) -> (r: &[OnnxArgument])
    ensures
        r@ == onnx_node_outputs(*n),
{
    n.outputs()
}

/// The `name` field of an argument.
#[verifier::external_body]
fn arg_name(a: &OnnxArgument) -> (r: String)
    ensures
        r@ == onnx_arg_name(*a),
{
    a.name.clone()
}

/// The `value_source` field of an argument, one arm per variant (the data id of a static
/// argument is not kept).
#[verifier::external_body]
fn arg_source(a: &OnnxArgument) -> (r: ValueSource)
    ensures
        r == onnx_arg_source(*a),
{
    match a.value_source {
        onnx_ir::ir::ValueSource::Static(_) => ValueSource::Static,
        onnx_ir::ir::ValueSource::Constant => ValueSource::Constant,
        onnx_ir::ir::ValueSource::Dynamic => ValueSource::Dynamic,
        onnx_ir::ir::ValueSource::Optional => ValueSource::Optional,
    }
}

/// `Argument::value`: the argument's constant data from the graph's store, if it has any.
#[verifier::external_body]
fn arg_value(a: &OnnxArgument) -> (r: Option<TensorData>)
    ensures
        r == onnx_arg_value(*a),
{
    a.value()
}

/// The `axis` of a `Softmax` or `LogSoftmax` node's configuration.
#[verifier::external_body]
fn softmax_axis(n: &OnnxNode) -> (r: Option<usize>)
    ensures
        r == onnx_softmax_axis(*n),
{
    match n {
        OnnxNode::Softmax(s) => Some(s.config.axis),
        OnnxNode::LogSoftmax(s) => Some(s.config.axis),
        _ => None,
    }
}

/// The `transpose_weight` of a `Linear` node's configuration.
#[verifier::external_body]
fn linear_transposed(n: &OnnxNode) -> (r: Option<bool>)
    ensures
        r == onnx_linear_transposed(*n),
{
    match n {
        OnnxNode::Linear(l) => Some(l.config.transpose_weight),
        _ => None,
    }
}

/// The configuration of a `Gemm` node: `alpha` and `beta` by their bit patterns and as
/// one-element tensors, and the transposition flags.
#[verifier::external_body]
fn gemm_attributes(n: &OnnxNode) -> (r: Option<GemmAttributes>)
    ensures
        r == onnx_gemm(*n),
{
    match n {
        OnnxNode::Gemm(g) => Some(GemmAttributes {
            alpha_bits: g.config.alpha.to_bits(),
            beta_bits: g.config.beta.to_bits(),
            alpha: TensorData::from([g.config.alpha]),
            beta: TensorData::from([g.config.beta]),
            trans_a: g.config.trans_a,
            trans_b: g.config.trans_b,
        }),
        _ => None,
    }
}

/// The `axis` of a `Flatten` node's configuration.
#[verifier::external_body]
fn flatten_axis(n: &OnnxNode) -> (r: Option<usize>)
    ensures
        r == onnx_flatten_axis(*n),
{
    match n {
        OnnxNode::Flatten(f) => Some(f.config.axis),
        _ => None,
    }
}

/// The `perm` of a `Transpose` node's configuration.
#[verifier::external_body]
fn transpose_perm_of(n: &OnnxNode) -> (r: Option<Vec<i64>>)
    ensures
        match r {
            Some(v) => onnx_transpose_perm(*n) == Some(v@),
            None => onnx_transpose_perm(*n) is None,
        },
{
    match n {
        OnnxNode::Transpose(t) => Some(t.config.perm.clone()),
        _ => None,
    }
}

/// The stride, padding, dilation and groups of a `Conv2d` node's configuration, the padding one
/// arm per variant.
#[verifier::external_body]
fn conv2d_settings(n: &OnnxNode) -> (r: Option<Conv2dConfig>)
    ensures
        r == onnx_conv2d(*n),
{
    match n {
        OnnxNode::Conv2d(c) => Some(Conv2dConfig {
            stride: c.config.stride,
            padding: match c.config.padding {
                OnnxPadding::Valid => PaddingConfig2d::Valid,
                OnnxPadding::Explicit(t, l, b, r) => PaddingConfig2d::Explicit(t, l, b, r),
            },
            dilation: c.config.dilation,
            groups: c.config.groups,
        }),
        _ => None,
    }
}

/// The epsilon of a `BatchNormalization` node's configuration (static or runtime), as a
/// one-element tensor converted to `f32`.
#[verifier::external_body]
fn bn_epsilon(n: &OnnxNode) -> (r: Option<TensorData>)
    ensures
        r == onnx_bn_epsilon(*n),
{
    match n {
        OnnxNode::BatchNormalization(b) => Some(TensorData::from([match &b.config {
            OnnxBatchNormConfig::Static(c) => c.epsilon,
            OnnxBatchNormConfig::Runtime(c) => c.epsilon,
        }]).convert_dtype(DType::F32)),
        _ => None,
    }
}

/// The kernel, strides, padding and dilation of a `MaxPool2d` node's configuration, the padding
/// one arm per variant.
#[verifier::external_body]
fn max_pool2d_settings(n: &OnnxNode) -> (r: Option<MaxPool2dConfig>)
    ensures
        r == onnx_max_pool2d(*n),
{
    match n {
        OnnxNode::MaxPool2d(m) => Some(MaxPool2dConfig {
            kernel_size: m.config.kernel_size,
            strides: m.config.strides,
            padding: match m.config.padding {
                OnnxPadding::Valid => PaddingConfig2d::Valid,
                OnnxPadding::Explicit(t, l, b, r) => PaddingConfig2d::Explicit(t, l, b, r),
            },
            dilation: m.config.dilation,
        }),
        _ => None,
    }
}

/// The kernel, strides, padding and `count_include_pad` of an `AveragePool2d` node's
/// configuration, the padding one arm per variant.
#[verifier::external_body]
fn avg_pool2d_settings(n: &OnnxNode) -> (r: Option<AvgPool2dConfig>)
    ensures
        r == onnx_avg_pool2d(*n),
{
    match n {
        OnnxNode::AveragePool2d(a) => Some(AvgPool2dConfig {
            kernel_size: a.config.kernel_size,
            strides: a.config.strides,
            padding: match a.config.padding {
                OnnxPadding::Valid => PaddingConfig2d::Valid,
                OnnxPadding::Explicit(t, l, b, r) => PaddingConfig2d::Explicit(t, l, b, r),
            },
            count_include_pad: a.config.count_include_pad,
        }),
        _ => None,
    }
}


// ---------------------------------------------------------------------------------------------
// Conversion into the library's graph

/// The operator of a parsed node.
pub open spec fn onnx_kind(n: OnnxNode) -> NodeKind {
    match onnx_kind_activation(n) {
        Some(k) => k,
        None => match onnx_kind_arithmetic(n) {
            Some(k) => k,
            None => match onnx_kind_spatial(n) {
                Some(k) => k,
                None => NodeKind::Other,
            },
        },
    }
}

/// Whether the settings that the operator `k` reads can be read from the node.
pub open spec fn settings_readable(n: OnnxNode, k: NodeKind) -> bool {
    match k {
        NodeKind::Softmax | NodeKind::LogSoftmax => onnx_softmax_axis(n) is Some,
        NodeKind::Linear => onnx_linear_transposed(n) is Some,
        NodeKind::Gemm => onnx_gemm(n) is Some,
        NodeKind::Flatten => onnx_flatten_axis(n) is Some,
        NodeKind::Transpose => onnx_transpose_perm(n) is Some,
        NodeKind::Conv2d => onnx_conv2d(n) is Some,
        NodeKind::BatchNormalization => onnx_bn_epsilon(n) is Some,
        NodeKind::MaxPool2d => onnx_max_pool2d(n) is Some,
        NodeKind::AveragePool2d => onnx_avg_pool2d(n) is Some,
        _ => true,
    }
}

/// The operator a parsed node becomes: its own where its settings can be read, else `Other`.
pub open spec fn converted_kind(n: OnnxNode) -> NodeKind {
    if settings_readable(n, onnx_kind(n)) {
        onnx_kind(n)
    } else {
        NodeKind::Other
    }
}

/// `ls` are the arguments `os` with their names, sources and constant data.
pub open spec fn args_converted(os: Seq<OnnxArgument>, ls: Seq<Argument>) -> bool {
    &&& ls.len() == os.len()
    &&& forall|i: int|
        #![trigger ls[i]]
        0 <= i < os.len() ==> {
            &&& ls[i].name@ == onnx_arg_name(os[i])
            &&& ls[i].value_source == onnx_arg_source(os[i])
            &&& ls[i].value == onnx_arg_value(os[i])
        }
}

/// `op` has the name, inputs and outputs of the parsed node `n`.
pub open spec fn op_converted<C>(n: OnnxNode, op: OpNode<C>) -> bool {
    &&& op.name@ == onnx_node_name(n)
    &&& args_converted(onnx_node_inputs(n), op.inputs@)
    &&& args_converted(onnx_node_outputs(n), op.outputs@)
}

/// A `Gemm` factor from its bit pattern and tensor: exactly 1 where the bits are those of 1.0.
pub open spec fn gemm_scale(bits: u32, value: TensorData) -> GemmScale {
    GemmScale { is_one: bits == ONE_BITS, value }
}

/// `ln` is the parsed node `n` in the library's terms: same operator (see `converted_kind`),
/// name, arguments and settings.
pub open spec fn node_converted(n: OnnxNode, ln: Node) -> bool {
    let k = converted_kind(n);
    match ln {
        Node::Relu(o) => k == NodeKind::Relu && op_converted(n, o),
        Node::Sigmoid(o) => k == NodeKind::Sigmoid && op_converted(n, o),
        Node::Tanh(o) => k == NodeKind::Tanh && op_converted(n, o),
        Node::Gelu(o) => k == NodeKind::Gelu && op_converted(n, o),
        Node::Softmax(o) => k == NodeKind::Softmax && op_converted(n, o) && onnx_softmax_axis(n)
            == Some(o.config.axis),
        Node::LogSoftmax(o) => k == NodeKind::LogSoftmax && op_converted(n, o)
            && onnx_softmax_axis(n) == Some(o.config.axis),
        Node::Linear(o) => k == NodeKind::Linear && op_converted(n, o) && onnx_linear_transposed(n)
            == Some(o.config.transpose_weight),
        Node::Gemm(o) => {
            &&& k == NodeKind::Gemm
            &&& op_converted(n, o)
            &&& onnx_gemm(n) matches Some(a)
            &&& o.config.alpha == gemm_scale(a.alpha_bits, a.alpha)
            &&& o.config.beta == gemm_scale(a.beta_bits, a.beta)
            &&& o.config.trans_a == a.trans_a
            &&& o.config.trans_b == a.trans_b
        },
        Node::Add(o) => k == NodeKind::Add && op_converted(n, o),
        Node::Sub(o) => k == NodeKind::Sub && op_converted(n, o),
        Node::Mul(o) => k == NodeKind::Mul && op_converted(n, o),
        Node::Div(o) => k == NodeKind::Div && op_converted(n, o),
        Node::Reshape(o) => k == NodeKind::Reshape && op_converted(n, o),
        Node::Flatten(o) => k == NodeKind::Flatten && op_converted(n, o) && onnx_flatten_axis(n)
            == Some(o.config.axis),
        Node::Transpose(o) => k == NodeKind::Transpose && op_converted(n, o)
            && onnx_transpose_perm(n) == Some(o.config.perm@),
        Node::Conv2d(o) => k == NodeKind::Conv2d && op_converted(n, o) && onnx_conv2d(n) == Some(
            o.config,
        ),
        Node::BatchNormalization(o) => k == NodeKind::BatchNormalization && op_converted(n, o)
            && onnx_bn_epsilon(n) == Some(o.config.epsilon),
        Node::MaxPool2d(o) => k == NodeKind::MaxPool2d && op_converted(n, o) && onnx_max_pool2d(n)
            == Some(o.config),
        Node::AveragePool2d(o) => k == NodeKind::AveragePool2d && op_converted(n, o)
            && onnx_avg_pool2d(n) == Some(o.config),
        Node::GlobalAveragePool(o) => k == NodeKind::GlobalAveragePool && op_converted(n, o),
        Node::Constant(o) => k == NodeKind::Constant && op_converted(n, o),
        Node::Other(o) => k == NodeKind::Other && op_converted(n, o),
    }
}

/// `ls` are the names of the arguments `os`.
pub open spec fn names_converted(os: Seq<OnnxArgument>, ls: Seq<String>) -> bool {
    &&& ls.len() == os.len()
    &&& forall|i: int| #![trigger ls[i]] 0 <= i < os.len() ==> ls[i]@ == onnx_arg_name(os[i])
}

/// `gr` is the parsed graph `g` in the library's terms: its nodes in order, and the names of its
/// inputs and outputs.
pub open spec fn graph_converted(g: OnnxGraph, gr: Graph) -> bool {
    &&& gr.nodes@.len() == onnx_graph_nodes(g).len()
    &&& forall|i: int|
        #![trigger gr.nodes@[i]]
        0 <= i < gr.nodes@.len() ==> node_converted(onnx_graph_nodes(g)[i], gr.nodes@[i])
    &&& names_converted(onnx_graph_inputs(g), gr.inputs@)
    &&& names_converted(onnx_graph_outputs(g), gr.outputs@)
}

/// The arguments `args` in the library's terms.
fn convert_args(args: &[OnnxArgument]) -> (r: Vec<Argument>)
    ensures
        args_converted(args@, r@),
{
    let mut out: Vec<Argument> = Vec::new();
    let mut i: usize = 0;
    while i < args.len()
        invariant
            0 <= i <= args@.len(),
            out@.len() == i,
            forall|j: int|
                #![trigger out@[j]]
                0 <= j < i ==> {
                    &&& out@[j].name@ == onnx_arg_name(args@[j])
                    &&& out@[j].value_source == onnx_arg_source(args@[j])
                    &&& out@[j].value == onnx_arg_value(args@[j])
                },
        decreases args@.len() - i,
    {
        let a = &args[i];
        out.push(Argument { name: arg_name(a), value_source: arg_source(a), value: arg_value(a) });
        i = i + 1;
    }
    out
}

/// The names of the arguments `args`.
fn convert_names(args: &Vec<OnnxArgument>) -> (r: Vec<String>)
    ensures
        names_converted(args@, r@),
{
    let mut out: Vec<String> = Vec::new();
    let mut i: usize = 0;
    while i < args.len()
        invariant
            0 <= i <= args@.len(),
            out@.len() == i,
            forall|j: int| #![trigger out@[j]] 0 <= j < i ==> out@[j]@ == onnx_arg_name(args@[j]),
        decreases args@.len() - i,
    {
        out.push(arg_name(&args[i]));
        i = i + 1;
    }
    out
}

/// The operator of a parsed node (see `onnx_kind`).
fn kind_of(n: &OnnxNode) -> (r: NodeKind)
    ensures
        r == onnx_kind(*n),
{
    match kind_activation(n) {
        Some(k) => k,
        None => match kind_arithmetic(n) {
            Some(k) => k,
            None => match kind_spatial(n) {
                Some(k) => k,
                None => NodeKind::Other,
            },
        },
    }
}

/// A parsed node in the library's terms (see `node_converted`).
fn convert_node(n: &OnnxNode) -> (r: Node)
    ensures
        node_converted(*n, r),
{
    let name = node_name_of(n);
    let inputs = convert_args(node_inputs_of(n));
    let outputs = convert_args(node_outputs_of(n));
    match kind_of(n) {
        NodeKind::Relu => Node::Relu(OpNode { name, inputs, outputs, config: () }),
        NodeKind::Sigmoid => Node::Sigmoid(OpNode { name, inputs, outputs, config: () }),
        NodeKind::Tanh => Node::Tanh(OpNode { name, inputs, outputs, config: () }),
        NodeKind::Gelu => Node::Gelu(OpNode { name, inputs, outputs, config: () }),
        NodeKind::Softmax => match softmax_axis(n) {
            Some(axis) => Node::Softmax(
                OpNode { name, inputs, outputs, config: SoftmaxConfig { axis } },
            ),
            None => Node::Other(OpNode { name, inputs, outputs, config: () }),
        },
        NodeKind::LogSoftmax => match softmax_axis(n) {
            Some(axis) => Node::LogSoftmax(
                OpNode { name, inputs, outputs, config: SoftmaxConfig { axis } },
            ),
            None => Node::Other(OpNode { name, inputs, outputs, config: () }),
        },
        NodeKind::Linear => match linear_transposed(n) {
            Some(t) => Node::Linear(
                OpNode { name, inputs, outputs, config: LinearConfig { transpose_weight: t } },
            ),
            None => Node::Other(OpNode { name, inputs, outputs, config: () }),
        },
        NodeKind::Gemm => match gemm_attributes(n) {
            Some(a) => {
                let config = GemmConfig {
                    alpha: GemmScale { is_one: a.alpha_bits == ONE_BITS, value: a.alpha },
                    beta: GemmScale { is_one: a.beta_bits == ONE_BITS, value: a.beta },
                    trans_a: a.trans_a,
                    trans_b: a.trans_b,
                };
                Node::Gemm(OpNode { name, inputs, outputs, config })
            },
            None => Node::Other(OpNode { name, inputs, outputs, config: () }),
        },
        NodeKind::Add => Node::Add(OpNode { name, inputs, outputs, config: () }),
        NodeKind::Sub => Node::Sub(OpNode { name, inputs, outputs, config: () }),
        NodeKind::Mul => Node::Mul(OpNode { name, inputs, outputs, config: () }),
        NodeKind::Div => Node::Div(OpNode { name, inputs, outputs, config: () }),
        NodeKind::Reshape => Node::Reshape(OpNode { name, inputs, outputs, config: () }),
        NodeKind::Flatten => match flatten_axis(n) {
            Some(axis) => Node::Flatten(
                OpNode { name, inputs, outputs, config: FlattenConfig { axis } },
            ),
            None => Node::Other(OpNode { name, inputs, outputs, config: () }),
        },
        NodeKind::Transpose => match transpose_perm_of(n) {
            Some(perm) => Node::Transpose(
                OpNode { name, inputs, outputs, config: TransposeConfig { perm } },
            ),
            None => Node::Other(OpNode { name, inputs, outputs, config: () }),
        },
        NodeKind::Conv2d => match conv2d_settings(n) {
            Some(config) => Node::Conv2d(OpNode { name, inputs, outputs, config }),
            None => Node::Other(OpNode { name, inputs, outputs, config: () }),
        },
        NodeKind::BatchNormalization => match bn_epsilon(n) {
            Some(epsilon) => Node::BatchNormalization(
                OpNode { name, inputs, outputs, config: BatchNormConfig { epsilon } },
            ),
            None => Node::Other(OpNode { name, inputs, outputs, config: () }),
        },
        NodeKind::MaxPool2d => match max_pool2d_settings(n) {
            Some(config) => Node::MaxPool2d(OpNode { name, inputs, outputs, config }),
            None => Node::Other(OpNode { name, inputs, outputs, config: () }),
        },
        NodeKind::AveragePool2d => match avg_pool2d_settings(n) {
            Some(config) => Node::AveragePool2d(OpNode { name, inputs, outputs, config }),
            None => Node::Other(OpNode { name, inputs, outputs, config: () }),
        },
        NodeKind::GlobalAveragePool => Node::GlobalAveragePool(
            OpNode { name, inputs, outputs, config: () },
        ),
        NodeKind::Constant => Node::Constant(OpNode { name, inputs, outputs, config: () }),
        NodeKind::Other => Node::Other(OpNode { name, inputs, outputs, config: () }),
    }
}

/// A parsed graph in the library's terms (see `graph_converted`).
pub fn convert_graph(g: &OnnxGraph) -> (r: Graph)
    ensures
        graph_converted(*g, r),
{
    let nodes_in = graph_nodes(g);
    let mut nodes: Vec<Node> = Vec::new();
    let mut i: usize = 0;
    while i < nodes_in.len()
        invariant
            nodes_in@ == onnx_graph_nodes(*g),
            0 <= i <= nodes_in@.len(),
            nodes@.len() == i,
            forall|j: int|
                #![trigger nodes@[j]]
                0 <= j < i ==> node_converted(nodes_in@[j], nodes@[j]),
        decreases nodes_in@.len() - i,
    {
        nodes.push(convert_node(&nodes_in[i]));
        i = i + 1;
    }
    let inputs = convert_names(graph_inputs(g));
    let outputs = convert_names(graph_outputs(g));
    Graph { nodes, inputs, outputs }
}

} // verus!
