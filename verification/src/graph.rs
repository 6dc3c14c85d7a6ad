//! The parsed ONNX graph as the interpreter reads it: nodes, their arguments and the operator
//! settings that the interpreter uses.

use burn_backend::TensorData;
use vstd::prelude::*;

verus! {

/// Where the value of an argument comes from.
#[derive(Clone, Copy, Debug, PartialEq, Eq, Structural)]
pub enum ValueSource {
    /// Constant data embedded in the argument (usually with an empty name).
    Static,
    /// The output of a constant node, found by name.
    Constant,
    /// The output of a node computed at run time, found by name.
    Dynamic,
    /// An input that was not provided.
    Optional,
}

/// A node input or output.
pub struct Argument {
    /// The name under which the value is stored; empty for inline data.
    pub name: String,
    pub value_source: ValueSource,
    /// The constant data of the argument, where the graph holds some (static and constant
    /// arguments).
    pub value: Option<TensorData>,
}

/// Padding of a 2-D window: none, or the amounts on the top, left, bottom and right.
#[derive(Clone, Copy, Debug, PartialEq, Eq, Structural)]
pub enum PaddingConfig2d {
    Valid,
    Explicit(usize, usize, usize, usize),
}

/// A node of the graph with its operator settings.
pub struct OpNode<C> {
    pub name: String,
    pub inputs: Vec<Argument>,
    pub outputs: Vec<Argument>,
    pub config: C,
}

/// The axis of `Softmax` and `LogSoftmax`.
pub struct SoftmaxConfig {
    pub axis: usize,
}

/// Whether the weight of `Linear` is stored transposed (`[out, in]`).
pub struct LinearConfig {
    pub transpose_weight: bool,
}

/// A scale factor of `Gemm`: whether it is exactly 1, and its value as a one-element tensor.
pub struct GemmScale {
    pub is_one: bool,
    pub value: TensorData,
}

/// `Gemm` computes `alpha * A' * B' + beta * C`, `A'` and `B'` transposed where the flags are
/// nonzero.
pub struct GemmConfig {
    pub alpha: GemmScale,
    pub beta: GemmScale,
    pub trans_a: i64,
    pub trans_b: i64,
}

/// The axis at which `Flatten` splits the dimensions.
pub struct FlattenConfig {
    pub axis: usize,
}

/// The permutation of `Transpose`; empty means reversing the dimensions.
pub struct TransposeConfig {
    pub perm: Vec<i64>,
}

pub struct Conv2dConfig {
    pub stride: [usize; 2],
    pub padding: PaddingConfig2d,
    pub dilation: [usize; 2],
    pub groups: usize,
}

/// The epsilon of batch normalization, as a one-element tensor.
pub struct BatchNormConfig {
    pub epsilon: TensorData,
}

pub struct MaxPool2dConfig {
    pub kernel_size: [usize; 2],
    pub strides: [usize; 2],
    pub padding: PaddingConfig2d,
    pub dilation: [usize; 2],
}

pub struct AvgPool2dConfig {
    pub kernel_size: [usize; 2],
    pub strides: [usize; 2],
    pub padding: PaddingConfig2d,
    pub count_include_pad: bool,
}

/// A node of the graph, by operator.
pub enum Node {
    Relu(OpNode<()>),
    Sigmoid(OpNode<()>),
    Tanh(OpNode<()>),
    Gelu(OpNode<()>),
    Softmax(OpNode<SoftmaxConfig>),
    LogSoftmax(OpNode<SoftmaxConfig>),
    Linear(OpNode<LinearConfig>),
    Gemm(OpNode<GemmConfig>),
    Add(OpNode<()>),
    Sub(OpNode<()>),
    Mul(OpNode<()>),
    Div(OpNode<()>),
    Reshape(OpNode<()>),
    Flatten(OpNode<FlattenConfig>),
    Transpose(OpNode<TransposeConfig>),
    Conv2d(OpNode<Conv2dConfig>),
    BatchNormalization(OpNode<BatchNormConfig>),
    MaxPool2d(OpNode<MaxPool2dConfig>),
    AveragePool2d(OpNode<AvgPool2dConfig>),
    GlobalAveragePool(OpNode<()>),
    Constant(OpNode<()>),
    /// Any operator the interpreter does not run.
    Other(OpNode<()>),
}

/// The inputs of a node, whatever its operator.
pub open spec fn node_inputs(node: &Node) -> Seq<Argument> {
    match node {
        Node::Relu(n) => n.inputs@,
        Node::Sigmoid(n) => n.inputs@,
        Node::Tanh(n) => n.inputs@,
        Node::Gelu(n) => n.inputs@,
        Node::Softmax(n) => n.inputs@,
        Node::LogSoftmax(n) => n.inputs@,
        Node::Linear(n) => n.inputs@,
        Node::Gemm(n) => n.inputs@,
        Node::Add(n) => n.inputs@,
        Node::Sub(n) => n.inputs@,
        Node::Mul(n) => n.inputs@,
        Node::Div(n) => n.inputs@,
        Node::Reshape(n) => n.inputs@,
        Node::Flatten(n) => n.inputs@,
        Node::Transpose(n) => n.inputs@,
        Node::Conv2d(n) => n.inputs@,
        Node::BatchNormalization(n) => n.inputs@,
        Node::MaxPool2d(n) => n.inputs@,
        Node::AveragePool2d(n) => n.inputs@,
        Node::GlobalAveragePool(n) => n.inputs@,
        Node::Constant(n) => n.inputs@,
        Node::Other(n) => n.inputs@,
    }
}

/// The outputs of a node, whatever its operator.
pub open spec fn node_outputs(node: &Node) -> Seq<Argument> {
    match node {
        Node::Relu(n) => n.outputs@,
        Node::Sigmoid(n) => n.outputs@,
        Node::Tanh(n) => n.outputs@,
        Node::Gelu(n) => n.outputs@,
        Node::Softmax(n) => n.outputs@,
        Node::LogSoftmax(n) => n.outputs@,
        Node::Linear(n) => n.outputs@,
        Node::Gemm(n) => n.outputs@,
        Node::Add(n) => n.outputs@,
        Node::Sub(n) => n.outputs@,
        Node::Mul(n) => n.outputs@,
        Node::Div(n) => n.outputs@,
        Node::Reshape(n) => n.outputs@,
        Node::Flatten(n) => n.outputs@,
        Node::Transpose(n) => n.outputs@,
        Node::Conv2d(n) => n.outputs@,
        Node::BatchNormalization(n) => n.outputs@,
        Node::MaxPool2d(n) => n.outputs@,
        Node::AveragePool2d(n) => n.outputs@,
        Node::GlobalAveragePool(n) => n.outputs@,
        Node::Constant(n) => n.outputs@,
        Node::Other(n) => n.outputs@,
    }
}

/// The name of a node, whatever its operator.
pub open spec fn node_name(node: &Node) -> Seq<char> {
    match node {
        Node::Relu(n) => n.name@,
        Node::Sigmoid(n) => n.name@,
        Node::Tanh(n) => n.name@,
        Node::Gelu(n) => n.name@,
        Node::Softmax(n) => n.name@,
        Node::LogSoftmax(n) => n.name@,
        Node::Linear(n) => n.name@,
        Node::Gemm(n) => n.name@,
        Node::Add(n) => n.name@,
        Node::Sub(n) => n.name@,
        Node::Mul(n) => n.name@,
        Node::Div(n) => n.name@,
        Node::Reshape(n) => n.name@,
        Node::Flatten(n) => n.name@,
        Node::Transpose(n) => n.name@,
        Node::Conv2d(n) => n.name@,
        Node::BatchNormalization(n) => n.name@,
        Node::MaxPool2d(n) => n.name@,
        Node::AveragePool2d(n) => n.name@,
        Node::GlobalAveragePool(n) => n.name@,
        Node::Constant(n) => n.name@,
        Node::Other(n) => n.name@,
    }
}

impl Node {
    /// The inputs of the node.
    pub fn inputs(&self) -> (r: &Vec<Argument>)
        ensures
            r@ == node_inputs(self),
    {
        match self {
            Node::Relu(n) => &n.inputs,
            Node::Sigmoid(n) => &n.inputs,
            Node::Tanh(n) => &n.inputs,
            Node::Gelu(n) => &n.inputs,
            Node::Softmax(n) => &n.inputs,
            Node::LogSoftmax(n) => &n.inputs,
            Node::Linear(n) => &n.inputs,
            Node::Gemm(n) => &n.inputs,
            Node::Add(n) => &n.inputs,
            Node::Sub(n) => &n.inputs,
            Node::Mul(n) => &n.inputs,
            Node::Div(n) => &n.inputs,
            Node::Reshape(n) => &n.inputs,
            Node::Flatten(n) => &n.inputs,
            Node::Transpose(n) => &n.inputs,
            Node::Conv2d(n) => &n.inputs,
            Node::BatchNormalization(n) => &n.inputs,
            Node::MaxPool2d(n) => &n.inputs,
            Node::AveragePool2d(n) => &n.inputs,
            Node::GlobalAveragePool(n) => &n.inputs,
            Node::Constant(n) => &n.inputs,
            Node::Other(n) => &n.inputs,
        }
    }

    /// The name of the node.
    pub fn name(&self) -> (r: &String)
        ensures
            r@ == node_name(self),
    {
        match self {
            Node::Relu(n) => &n.name,
            Node::Sigmoid(n) => &n.name,
            Node::Tanh(n) => &n.name,
            Node::Gelu(n) => &n.name,
            Node::Softmax(n) => &n.name,
            Node::LogSoftmax(n) => &n.name,
            Node::Linear(n) => &n.name,
            Node::Gemm(n) => &n.name,
            Node::Add(n) => &n.name,
            Node::Sub(n) => &n.name,
            Node::Mul(n) => &n.name,
            Node::Div(n) => &n.name,
            Node::Reshape(n) => &n.name,
            Node::Flatten(n) => &n.name,
            Node::Transpose(n) => &n.name,
            Node::Conv2d(n) => &n.name,
            Node::BatchNormalization(n) => &n.name,
            Node::MaxPool2d(n) => &n.name,
            Node::AveragePool2d(n) => &n.name,
            Node::GlobalAveragePool(n) => &n.name,
            Node::Constant(n) => &n.name,
            Node::Other(n) => &n.name,
        }
    }
}

/// A parsed model: its nodes in execution order and the names of its inputs and outputs.
pub struct Graph {
    pub nodes: Vec<Node>,
    pub inputs: Vec<String>,
    pub outputs: Vec<String>,
}

} // verus!
