use burn_backend::{TensorData, TensorMetadata};
use burn_flex::FlexTensor;
use burn_python::graph::{
    Argument, AvgPool2dConfig, BatchNormConfig, Conv2dConfig, FlattenConfig, GemmConfig,
    GemmScale, Graph, LinearConfig, MaxPool2dConfig, Node, OpNode, PaddingConfig2d,
    SoftmaxConfig, TransposeConfig, ValueSource,
};
use burn_python::interpreter::ops::OpError;
use burn_python::interpreter::{load_onnx, load_weight, CallError, CallReport, OnnxModel};

fn tensor(values: &[f32], dims: &[usize]) -> FlexTensor {
    FlexTensor::from_data(TensorData::new(values.to_vec(), dims.to_vec()))
}

fn values(t: FlexTensor) -> Vec<f32> {
    t.into_data().to_vec::<f32>().unwrap()
}

fn dims(t: &FlexTensor) -> Vec<usize> {
    t.shape().to_vec()
}

fn close(a: &[f32], b: &[f32]) -> bool {
    a.len() == b.len() && a.iter().zip(b).all(|(x, y)| (x - y).abs() < 1e-4)
}

fn runtime(name: &str) -> Argument {
    Argument { name: name.to_string(), value_source: ValueSource::Dynamic, value: None }
}

fn constant(name: &str, data: TensorData) -> Argument {
    Argument { name: name.to_string(), value_source: ValueSource::Constant, value: Some(data) }
}

fn inline(data: TensorData) -> Argument {
    Argument { name: String::new(), value_source: ValueSource::Static, value: Some(data) }
}

fn op<C>(name: &str, inputs: Vec<Argument>, outputs: &[&str], config: C) -> OpNode<C> {
    OpNode {
        name: name.to_string(),
        inputs,
        outputs: outputs.iter().map(|o| runtime(o)).collect(),
        config,
    }
}

fn model(nodes: Vec<Node>, inputs: &[&str], outputs: &[&str]) -> OnnxModel {
    load_onnx(Graph {
        nodes,
        inputs: inputs.iter().map(|s| s.to_string()).collect(),
        outputs: outputs.iter().map(|s| s.to_string()).collect(),
    })
}

fn run_one(m: &OnnxModel, inputs: Vec<FlexTensor>) -> FlexTensor {
    let report: CallReport = m.call(inputs);
    let mut outs = report.result.unwrap();
    outs.remove(0)
}

fn scale(v: f32) -> GemmScale {
    GemmScale { is_one: v == 1.0, value: TensorData::from([v]) }
}

#[test]
fn relu_clamps_negatives() {
    let m = model(vec![Node::Relu(op("r", vec![runtime("x")], &["y"], ()))], &["x"], &["y"]);
    let y = run_one(&m, vec![tensor(&[-1.0, 2.0, 3.0, -4.0], &[2, 2])]);
    assert_eq!(dims(&y), vec![2, 2]);
    assert_eq!(values(y), vec![0.0, 2.0, 3.0, 0.0]);
}

#[test]
fn sigmoid_tanh_gelu_of_zero() {
    let nodes = vec![
        Node::Sigmoid(op("s", vec![runtime("x")], &["a"], ())),
        Node::Tanh(op("t", vec![runtime("x")], &["b"], ())),
        Node::Gelu(op("g", vec![runtime("x")], &["c"], ())),
    ];
    let m = model(nodes, &["x"], &["a", "b", "c"]);
    let outs = m.call(vec![tensor(&[0.0], &[1])]).result.unwrap();
    let mut it = outs.into_iter();
    assert!(close(&values(it.next().unwrap()), &[0.5]));
    assert!(close(&values(it.next().unwrap()), &[0.0]));
    assert!(close(&values(it.next().unwrap()), &[0.0]));
}

#[test]
fn tanh_and_gelu_of_one() {
    let nodes = vec![
        Node::Tanh(op("t", vec![runtime("x")], &["b"], ())),
        Node::Gelu(op("g", vec![runtime("x")], &["c"], ())),
    ];
    let m = model(nodes, &["x"], &["b", "c"]);
    let outs = m.call(vec![tensor(&[1.0], &[1])]).result.unwrap();
    let mut it = outs.into_iter();
    assert!((values(it.next().unwrap())[0] - 0.761_594_2).abs() < 1e-3);
    assert!((values(it.next().unwrap())[0] - 0.841_344_7).abs() < 1e-3);
}

#[test]
fn softmax_rows_sum_to_one() {
    let m = model(
        vec![Node::Softmax(op("sm", vec![runtime("x")], &["y"], SoftmaxConfig { axis: 1 }))],
        &["x"],
        &["y"],
    );
    let y = run_one(&m, vec![tensor(&[1.0, 1.0, 0.0, 0.0], &[2, 2])]);
    assert!(close(&values(y), &[0.5, 0.5, 0.5, 0.5]));
}

#[test]
fn log_softmax_of_equal_values() {
    let m = model(
        vec![Node::LogSoftmax(op("ls", vec![runtime("x")], &["y"], SoftmaxConfig { axis: 0 }))],
        &["x"],
        &["y"],
    );
    let y = run_one(&m, vec![tensor(&[3.0, 3.0], &[2])]);
    let l = -(2.0f32).ln();
    assert!(close(&values(y), &[l, l]));
}

#[test]
fn softmax_axis_beyond_rank_is_rejected() {
    let m = model(
        vec![Node::Softmax(op("sm", vec![runtime("x")], &["y"], SoftmaxConfig { axis: 2 }))],
        &["x"],
        &["y"],
    );
    match m.call(vec![tensor(&[1.0, 2.0], &[2])]).result {
        Err(CallError::Op { node, error }) => {
            assert_eq!(node, "sm");
            assert_eq!(error, OpError::Rejected);
        },
        _ => panic!("expected an operator error"),
    }
}

#[test]
fn add_broadcasts_a_row() {
    let m = model(
        vec![Node::Add(op("a", vec![runtime("x"), constant("b", TensorData::from([10.0f32, 20.0]))], &["y"], ()))],
        &["x"],
        &["y"],
    );
    let y = run_one(&m, vec![tensor(&[1.0, 2.0, 3.0, 4.0], &[2, 2])]);
    assert_eq!(dims(&y), vec![2, 2]);
    assert_eq!(values(y), vec![11.0, 22.0, 13.0, 24.0]);
}

#[test]
fn sub_mul_div() {
    let nodes = vec![
        Node::Sub(op("s", vec![runtime("x"), runtime("z")], &["a"], ())),
        Node::Mul(op("m", vec![runtime("x"), runtime("z")], &["b"], ())),
        Node::Div(op("d", vec![runtime("x"), runtime("z")], &["c"], ())),
    ];
    let m = model(nodes, &["x", "z"], &["a", "b", "c"]);
    let outs = m.call(vec![tensor(&[6.0, 8.0], &[2]), tensor(&[2.0, 4.0], &[2])]).result.unwrap();
    let v: Vec<Vec<f32>> = outs.into_iter().map(values).collect();
    assert_eq!(v, vec![vec![4.0, 4.0], vec![12.0, 32.0], vec![3.0, 2.0]]);
}

#[test]
fn add_missing_rhs_reports_the_message() {
    let m = model(
        vec![Node::Add(op("a", vec![runtime("x"), runtime("nope")], &["y"], ()))],
        &["x"],
        &["y"],
    );
    match m.call(vec![tensor(&[1.0], &[1])]).result {
        Err(CallError::Op { node, error }) => {
            assert_eq!(node, "a");
            assert_eq!(error, OpError::Unavailable("add: missing rhs"));
        },
        _ => panic!("expected an operator error"),
    }
}

#[test]
fn add_of_shapes_that_do_not_broadcast_is_rejected() {
    let m = model(
        vec![Node::Add(op("a", vec![runtime("x"), runtime("z")], &["y"], ()))],
        &["x", "z"],
        &["y"],
    );
    match m.call(vec![tensor(&[1.0, 2.0], &[2]), tensor(&[1.0, 2.0, 3.0], &[3])]).result {
        Err(CallError::Op { error, .. }) => assert_eq!(error, OpError::Rejected),
        _ => panic!("expected an operator error"),
    }
}

#[test]
fn relu_without_output_slot() {
    let m = model(vec![Node::Relu(op("r", vec![runtime("x")], &[], ()))], &["x"], &["y"]);
    match m.call(vec![tensor(&[1.0], &[1])]).result {
        Err(CallError::Op { error, .. }) => assert_eq!(error, OpError::MissingSlot),
        _ => panic!("expected an operator error"),
    }
}

#[test]
fn linear_with_transposed_weight_and_bias() {
    // w is [out=2, in=3]; y = x * w^T + b
    let w = TensorData::new(vec![1.0f32, 0.0, 0.0, 0.0, 1.0, 1.0], vec![2, 3]);
    let b = TensorData::from([100.0f32, 200.0]);
    let m = model(
        vec![Node::Linear(op(
            "fc",
            vec![runtime("x"), constant("w", w), constant("b", b)],
            &["y"],
            LinearConfig { transpose_weight: true },
        ))],
        &["x"],
        &["y"],
    );
    let y = run_one(&m, vec![tensor(&[1.0, 2.0, 3.0], &[1, 3])]);
    assert_eq!(dims(&y), vec![1, 2]);
    assert_eq!(values(y), vec![101.0, 205.0]);
}

#[test]
fn linear_with_inline_bias_and_plain_weight() {
    let w = TensorData::new(vec![1.0f32, 2.0, 3.0, 4.0], vec![2, 2]);
    let m = model(
        vec![Node::Linear(op(
            "fc",
            vec![runtime("x"), constant("w", w), inline(TensorData::from([1.0f32, 1.0]))],
            &["y"],
            LinearConfig { transpose_weight: false },
        ))],
        &["x"],
        &["y"],
    );
    let y = run_one(&m, vec![tensor(&[1.0, 1.0], &[1, 2])]);
    assert_eq!(values(y), vec![5.0, 7.0]);
}

#[test]
fn linear_missing_weight() {
    let m = model(
        vec![Node::Linear(op(
            "fc",
            vec![runtime("x"), runtime("w")],
            &["y"],
            LinearConfig { transpose_weight: false },
        ))],
        &["x"],
        &["y"],
    );
    match m.call(vec![tensor(&[1.0], &[1, 1])]).result {
        Err(CallError::Op { error, .. }) => {
            assert_eq!(error, OpError::Unavailable("linear: missing weight"))
        },
        _ => panic!("expected an operator error"),
    }
}

#[test]
fn gemm_scales_and_transposes() {
    // A is [2, 1] transposed to [1, 2]; B is [2, 1]; C is a scalar.
    let nodes = vec![Node::Gemm(op(
        "g",
        vec![runtime("a"), runtime("b"), inline(TensorData::from([1.0f32]))],
        &["y"],
        GemmConfig { alpha: scale(2.0), beta: scale(3.0), trans_a: 1, trans_b: 0 },
    ))];
    let m = model(nodes, &["a", "b"], &["y"]);
    let y = run_one(&m, vec![tensor(&[1.0, 2.0], &[2, 1]), tensor(&[3.0, 4.0], &[2, 1])]);
    assert_eq!(dims(&y), vec![1, 1]);
    // 2 * (1*3 + 2*4) + 3 * 1
    assert_eq!(values(y), vec![25.0]);
}

#[test]
fn gemm_without_c() {
    let nodes = vec![Node::Gemm(op(
        "g",
        vec![runtime("a"), runtime("b")],
        &["y"],
        GemmConfig { alpha: scale(1.0), beta: scale(1.0), trans_a: 0, trans_b: 1 },
    ))];
    let m = model(nodes, &["a", "b"], &["y"]);
    let y = run_one(&m, vec![tensor(&[1.0, 2.0], &[1, 2]), tensor(&[3.0, 4.0], &[1, 2])]);
    assert_eq!(values(y), vec![11.0]);
}

#[test]
fn gemm_inner_size_mismatch_is_rejected() {
    let nodes = vec![Node::Gemm(op(
        "g",
        vec![runtime("a"), runtime("b")],
        &["y"],
        GemmConfig { alpha: scale(1.0), beta: scale(1.0), trans_a: 0, trans_b: 0 },
    ))];
    let m = model(nodes, &["a", "b"], &["y"]);
    match m.call(vec![tensor(&[1.0, 2.0], &[1, 2]), tensor(&[3.0, 4.0, 5.0], &[3, 1])]).result {
        Err(CallError::Op { error, .. }) => assert_eq!(error, OpError::Rejected),
        _ => panic!("expected an operator error"),
    }
}

#[test]
fn reshape_fills_and_copies() {
    let data = [1.0, 2.0, 3.0, 4.0, 5.0, 6.0];
    let fill = inline(TensorData::from([2i64, -1]));
    let m = model(
        vec![Node::Reshape(op("rs", vec![runtime("x"), fill], &["y"], ()))],
        &["x"],
        &["y"],
    );
    let y = run_one(&m, vec![tensor(&data, &[2, 3, 1])]);
    assert_eq!(dims(&y), vec![2, 3]);
    assert_eq!(values(y), data.to_vec());
    let copy = inline(TensorData::from([0i64, 3]));
    let m = model(
        vec![Node::Reshape(op("rs", vec![runtime("x"), copy], &["y"], ()))],
        &["x"],
        &["y"],
    );
    let y = run_one(&m, vec![tensor(&data, &[2, 3, 1])]);
    assert_eq!(dims(&y), vec![2, 3]);
}

#[test]
fn reshape_fill_beside_copy() {
    // a `0` entry copies the input's dimension, which then divides the count for the `-1`
    let target = inline(TensorData::from([0i64, -1]));
    let m = model(
        vec![Node::Reshape(op("rs", vec![runtime("x"), target], &["y"], ()))],
        &["x"],
        &["y"],
    );
    let y = run_one(&m, vec![tensor(&[1.0, 2.0, 3.0, 4.0, 5.0, 6.0], &[2, 3, 1])]);
    assert_eq!(dims(&y), vec![2, 3]);
    assert_eq!(values(y), vec![1.0, 2.0, 3.0, 4.0, 5.0, 6.0]);
}

#[test]
fn reshape_needs_static_i64_target() {
    let m = model(
        vec![Node::Reshape(op("rs", vec![runtime("x"), runtime("s")], &["y"], ()))],
        &["x"],
        &["y"],
    );
    match m.call(vec![tensor(&[1.0], &[1])]).result {
        Err(CallError::Op { error, .. }) => {
            assert_eq!(error, OpError::Unavailable("reshape: shape must be static"))
        },
        _ => panic!("expected an operator error"),
    }
    let m = model(
        vec![Node::Reshape(op(
            "rs",
            vec![runtime("x"), inline(TensorData::from([1.0f32]))],
            &["y"],
            (),
        ))],
        &["x"],
        &["y"],
    );
    match m.call(vec![tensor(&[1.0], &[1])]).result {
        Err(CallError::Op { error, .. }) => {
            assert_eq!(error, OpError::Unavailable("reshape: shape must be i64"))
        },
        _ => panic!("expected an operator error"),
    }
}

#[test]
fn reshape_to_other_count_is_rejected() {
    let m = model(
        vec![Node::Reshape(op(
            "rs",
            vec![runtime("x"), inline(TensorData::from([5i64]))],
            &["y"],
            (),
        ))],
        &["x"],
        &["y"],
    );
    match m.call(vec![tensor(&[1.0, 2.0], &[2])]).result {
        Err(CallError::Op { error, .. }) => assert_eq!(error, OpError::Rejected),
        _ => panic!("expected an operator error"),
    }
}

#[test]
fn flatten_splits_at_axis() {
    let m = model(
        vec![Node::Flatten(op("f", vec![runtime("x")], &["y"], FlattenConfig { axis: 1 }))],
        &["x"],
        &["y"],
    );
    let y = run_one(&m, vec![tensor(&[0.0; 24], &[2, 3, 4])]);
    assert_eq!(dims(&y), vec![2, 12]);
    let m = model(
        vec![Node::Flatten(op("f", vec![runtime("x")], &["y"], FlattenConfig { axis: 0 }))],
        &["x"],
        &["y"],
    );
    let y = run_one(&m, vec![tensor(&[0.0; 6], &[2, 3])]);
    assert_eq!(dims(&y), vec![1, 6]);
}

#[test]
fn transpose_default_reverses() {
    let m = model(
        vec![Node::Transpose(op("t", vec![runtime("x")], &["y"], TransposeConfig { perm: vec![] }))],
        &["x"],
        &["y"],
    );
    let y = run_one(&m, vec![tensor(&[1.0, 2.0, 3.0, 4.0, 5.0, 6.0], &[2, 3])]);
    assert_eq!(dims(&y), vec![3, 2]);
    assert_eq!(values(y), vec![1.0, 4.0, 2.0, 5.0, 3.0, 6.0]);
}

#[test]
fn transpose_with_perm() {
    let m = model(
        vec![Node::Transpose(op(
            "t",
            vec![runtime("x")],
            &["y"],
            TransposeConfig { perm: vec![1, 0, 2] },
        ))],
        &["x"],
        &["y"],
    );
    let y = run_one(&m, vec![tensor(&[0.0; 24], &[2, 3, 4])]);
    assert_eq!(dims(&y), vec![3, 2, 4]);
}

#[test]
fn transpose_with_bad_perm_is_rejected() {
    let m = model(
        vec![Node::Transpose(op(
            "t",
            vec![runtime("x")],
            &["y"],
            TransposeConfig { perm: vec![0, 0] },
        ))],
        &["x"],
        &["y"],
    );
    match m.call(vec![tensor(&[0.0; 4], &[2, 2])]).result {
        Err(CallError::Op { error, .. }) => assert_eq!(error, OpError::Rejected),
        _ => panic!("expected an operator error"),
    }
}

#[test]
fn conv2d_sums_a_window() {
    let w = TensorData::new(vec![1.0f32; 4], vec![1, 1, 2, 2]);
    let cfg = Conv2dConfig {
        stride: [1, 1],
        padding: PaddingConfig2d::Valid,
        dilation: [1, 1],
        groups: 1,
    };
    let m = model(
        vec![Node::Conv2d(op(
            "c",
            vec![runtime("x"), constant("w", w), inline(TensorData::from([10.0f32]))],
            &["y"],
            cfg,
        ))],
        &["x"],
        &["y"],
    );
    let y = run_one(&m, vec![tensor(&[1.0, 2.0, 3.0, 4.0, 5.0, 6.0, 7.0, 8.0, 9.0], &[1, 1, 3, 3])]);
    assert_eq!(dims(&y), vec![1, 1, 2, 2]);
    assert_eq!(values(y), vec![22.0, 26.0, 34.0, 38.0]);
}

#[test]
fn conv2d_with_explicit_padding_keeps_size() {
    let w = TensorData::new(vec![1.0f32; 9], vec![1, 1, 3, 3]);
    let cfg = Conv2dConfig {
        stride: [1, 1],
        padding: PaddingConfig2d::Explicit(1, 1, 1, 1),
        dilation: [1, 1],
        groups: 1,
    };
    let m = model(
        vec![Node::Conv2d(op("c", vec![runtime("x"), constant("w", w)], &["y"], cfg))],
        &["x"],
        &["y"],
    );
    let y = run_one(&m, vec![tensor(&[1.0; 16], &[1, 1, 4, 4])]);
    assert_eq!(dims(&y), vec![1, 1, 4, 4]);
    let v = values(y);
    assert_eq!(v[0], 4.0);
    assert_eq!(v[5], 9.0);
}

#[test]
fn conv2d_channel_mismatch_is_rejected() {
    let w = TensorData::new(vec![1.0f32; 8], vec![1, 2, 2, 2]);
    let cfg = Conv2dConfig {
        stride: [1, 1],
        padding: PaddingConfig2d::Valid,
        dilation: [1, 1],
        groups: 1,
    };
    let m = model(
        vec![Node::Conv2d(op("c", vec![runtime("x"), constant("w", w)], &["y"], cfg))],
        &["x"],
        &["y"],
    );
    match m.call(vec![tensor(&[1.0; 9], &[1, 1, 3, 3])]).result {
        Err(CallError::Op { error, .. }) => assert_eq!(error, OpError::Rejected),
        _ => panic!("expected an operator error"),
    }
}

#[test]
fn max_and_average_pooling() {
    let nodes = vec![
        Node::MaxPool2d(op(
            "mp",
            vec![runtime("x")],
            &["a"],
            MaxPool2dConfig {
                kernel_size: [2, 2],
                strides: [2, 2],
                padding: PaddingConfig2d::Valid,
                dilation: [1, 1],
            },
        )),
        Node::AveragePool2d(op(
            "ap",
            vec![runtime("x")],
            &["b"],
            AvgPool2dConfig {
                kernel_size: [2, 2],
                strides: [2, 2],
                padding: PaddingConfig2d::Valid,
                count_include_pad: true,
            },
        )),
        Node::GlobalAveragePool(op("gp", vec![runtime("x")], &["c"], ())),
    ];
    let m = model(nodes, &["x"], &["a", "b", "c"]);
    let x: Vec<f32> = (1..=16).map(|v| v as f32).collect();
    let outs = m.call(vec![tensor(&x, &[1, 1, 4, 4])]).result.unwrap();
    let mut it = outs.into_iter();
    let a = it.next().unwrap();
    assert_eq!(dims(&a), vec![1, 1, 2, 2]);
    assert_eq!(values(a), vec![6.0, 8.0, 14.0, 16.0]);
    assert_eq!(values(it.next().unwrap()), vec![3.5, 5.5, 11.5, 13.5]);
    let c = it.next().unwrap();
    assert_eq!(dims(&c), vec![1, 1, 1, 1]);
    assert_eq!(values(c), vec![8.5]);
}

#[test]
fn pooling_needs_four_dimensions() {
    let m = model(
        vec![Node::GlobalAveragePool(op("gp", vec![runtime("x")], &["c"], ()))],
        &["x"],
        &["c"],
    );
    match m.call(vec![tensor(&[1.0, 2.0], &[2])]).result {
        Err(CallError::Op { error, .. }) => assert_eq!(error, OpError::Rejected),
        _ => panic!("expected an operator error"),
    }
}

fn bn_node(name: &str, eps: f32) -> Node {
    Node::BatchNormalization(op(
        name,
        vec![
            runtime("x"),
            constant("gamma", TensorData::from([2.0f32, 1.0])),
            constant("beta", TensorData::from([1.0f32, 0.0])),
            constant("mean", TensorData::from([1.0f32, 2.0])),
            constant("var", TensorData::from([4.0f32, 1.0])),
        ],
        &["y"],
        BatchNormConfig { epsilon: TensorData::from([eps]) },
    ))
}

#[test]
fn batch_norm_from_parameters() {
    let m = model(vec![bn_node("bn", 0.0)], &["x"], &["y"]);
    // channel 0: (3 - 1) / 2 * 2 + 1 = 3; channel 1: (5 - 2) / 1 * 1 + 0 = 3
    let y = run_one(&m, vec![tensor(&[3.0, 5.0], &[1, 2, 1, 1])]);
    assert_eq!(dims(&y), vec![1, 2, 1, 1]);
    assert!(close(&values(y), &[3.0, 3.0]));
}

#[test]
fn batch_norm_fuses_static_parameters_at_load() {
    let m = model(vec![bn_node("bn", 0.0)], &["x"], &["y", "bn::scale", "bn::offset"]);
    let outs = m.call(vec![tensor(&[3.0, 5.0], &[1, 2, 1, 1])]).result.unwrap();
    let mut it = outs.into_iter();
    assert!(close(&values(it.next().unwrap()), &[3.0, 3.0]));
    // scale = gamma / sqrt(var) = [1, 1]; offset = beta - mean * scale = [0, -2]
    let scale = it.next().unwrap();
    assert_eq!(dims(&scale), vec![1, 2, 1, 1]);
    assert!(close(&values(scale), &[1.0, 1.0]));
    let offset = it.next().unwrap();
    assert_eq!(dims(&offset), vec![1, 2, 1, 1]);
    assert!(close(&values(offset), &[0.0, -2.0]));
}

#[test]
fn batch_norm_prefers_fused_parameters() {
    // the parameters are computed at run time, so nothing is fused at load; the model's own
    // `bn::scale` and `bn::offset` are used
    let node = Node::BatchNormalization(op(
        "bn",
        vec![runtime("x"), runtime("g"), runtime("b"), runtime("m"), runtime("v")],
        &["y"],
        BatchNormConfig { epsilon: TensorData::from([0.0f32]) },
    ));
    let nodes = vec![
        Node::Constant(op(
            "k1",
            vec![constant("bn::scale", TensorData::new(vec![10.0f32, 20.0], vec![1, 2, 1, 1]))],
            &["bn::scale"],
            (),
        )),
        Node::Constant(op(
            "k2",
            vec![constant("bn::offset", TensorData::new(vec![1.0f32, 2.0], vec![1, 2, 1, 1]))],
            &["bn::offset"],
            (),
        )),
        node,
    ];
    let m = model(nodes, &["x"], &["y"]);
    let y = run_one(&m, vec![tensor(&[1.0, 1.0], &[1, 2, 1, 1])]);
    assert_eq!(values(y), vec![11.0, 22.0]);
}

#[test]
fn batch_norm_from_parameters_given_at_run_time() {
    // parameters that are inputs cannot be fused at load: the full formula runs
    let node = Node::BatchNormalization(op(
        "bn",
        vec![runtime("x"), runtime("g"), runtime("b"), runtime("m"), runtime("v")],
        &["y"],
        BatchNormConfig { epsilon: TensorData::from([0.0f32]) },
    ));
    let m = model(vec![node], &["x", "g", "b", "m", "v"], &["y"]);
    let inputs = vec![
        tensor(&[3.0, 5.0], &[1, 2, 1, 1]),
        tensor(&[2.0, 1.0], &[2]),
        tensor(&[1.0, 0.0], &[2]),
        tensor(&[1.0, 2.0], &[2]),
        tensor(&[4.0, 1.0], &[2]),
    ];
    let y = run_one(&m, inputs);
    assert_eq!(dims(&y), vec![1, 2, 1, 1]);
    assert!(close(&values(y), &[3.0, 3.0]));
}

#[test]
fn batch_norm_missing_gamma() {
    let node = Node::BatchNormalization(op(
        "bn",
        vec![runtime("x"), runtime("g")],
        &["y"],
        BatchNormConfig { epsilon: TensorData::from([0.0f32]) },
    ));
    let m = model(vec![node], &["x"], &["y"]);
    match m.call(vec![tensor(&[1.0, 1.0], &[1, 2, 1, 1])]).result {
        Err(CallError::Op { error, .. }) => {
            assert_eq!(error, OpError::Unavailable("batch_norm: missing gamma"))
        },
        _ => panic!("expected an operator error"),
    }
}

#[test]
fn input_count_is_checked() {
    let m = model(vec![], &["x", "z"], &["x"]);
    let report = m.call(vec![tensor(&[1.0], &[1])]);
    assert!(report.unsupported.is_empty());
    match report.result {
        Err(CallError::InputCount { expected, got }) => {
            assert_eq!(expected, 2);
            assert_eq!(got, 1);
        },
        _ => panic!("expected an input count error"),
    }
}

#[test]
fn input_count_matches_the_graph() {
    let m = model(vec![], &["a", "b"], &["a"]);
    assert_eq!(m.input_count(), 2);
    assert_eq!(model(vec![], &[], &[]).input_count(), 0);
}

#[test]
fn missing_output_is_named() {
    let m = model(vec![], &["x"], &["x", "nothing", "other"]);
    match m.call(vec![tensor(&[1.0], &[1])]).result {
        Err(CallError::MissingOutput(name)) => assert_eq!(name, "nothing"),
        _ => panic!("expected a missing output"),
    }
}

#[test]
fn unsupported_nodes_are_listed_and_skipped() {
    let nodes = vec![
        Node::Other(op("mystery", vec![runtime("x")], &["z"], ())),
        Node::Relu(op("r", vec![runtime("x")], &["y"], ())),
        Node::Other(op("another", vec![], &[], ())),
    ];
    let m = model(nodes, &["x"], &["y"]);
    let report = m.call(vec![tensor(&[-1.0], &[1])]);
    assert_eq!(report.unsupported, vec!["mystery".to_string(), "another".to_string()]);
    assert_eq!(values(report.result.unwrap().remove(0)), vec![0.0]);
}

#[test]
fn inputs_pass_through_and_weights_are_read() {
    let nodes = vec![Node::Add(op(
        "a",
        vec![runtime("x"), constant("w", TensorData::from([1.0f32]))],
        &["y"],
        (),
    ))];
    let m = model(nodes, &["x"], &["x", "w", "y"]);
    let outs = m.call(vec![tensor(&[5.0], &[1])]).result.unwrap();
    let v: Vec<Vec<f32>> = outs.into_iter().map(values).collect();
    assert_eq!(v, vec![vec![5.0], vec![1.0], vec![6.0]]);
}

#[test]
fn computed_tensor_shadows_weight() {
    let nodes = vec![
        Node::Add(op("a", vec![runtime("x"), constant("w", TensorData::from([1.0f32]))], &["w"], ())),
        Node::Relu(op("r", vec![runtime("w")], &["y"], ())),
    ];
    let m = model(nodes, &["x"], &["y", "w"]);
    let outs = m.call(vec![tensor(&[5.0], &[1])]).result.unwrap();
    let v: Vec<Vec<f32>> = outs.into_iter().map(values).collect();
    assert_eq!(v, vec![vec![6.0], vec![6.0]]);
}

#[test]
fn later_nodes_see_earlier_results() {
    let nodes = vec![
        Node::Relu(op("r", vec![runtime("x")], &["h"], ())),
        Node::Mul(op("m", vec![runtime("h"), runtime("h")], &["y"], ())),
    ];
    let m = model(nodes, &["x"], &["y"]);
    let y = run_one(&m, vec![tensor(&[-3.0, 3.0], &[2])]);
    assert_eq!(values(y), vec![0.0, 9.0]);
}

#[test]
fn load_weight_filters_arguments() {
    assert!(load_weight(&runtime("x")).is_none());
    assert!(load_weight(&inline(TensorData::from([1.0f32]))).is_none());
    assert!(load_weight(&constant("ints", TensorData::from([1i64]))).is_none());
    let opt = Argument {
        name: "o".to_string(),
        value_source: ValueSource::Optional,
        value: Some(TensorData::from([1.0f32])),
    };
    assert!(load_weight(&opt).is_none());
    let named_static = Argument {
        name: "s".to_string(),
        value_source: ValueSource::Static,
        value: Some(TensorData::from([1.0f32, 2.0])),
    };
    let (name, t) = load_weight(&named_static).unwrap();
    assert_eq!(name, "s");
    assert_eq!(dims(&t), vec![2]);
    assert_eq!(values(t), vec![1.0, 2.0]);
}

#[test]
fn repr_lists_names_and_count() {
    let nodes = vec![Node::Relu(op("r", vec![runtime("x")], &["y"], ()))];
    let m = model(nodes, &["x"], &["y", "z"]);
    assert_eq!(m.repr(), "OnnxModel(inputs=[\"x\"], outputs=[\"y\", \"z\"], nodes=1)");
    let m = model(vec![], &[], &[]);
    assert_eq!(m.repr(), "OnnxModel(inputs=[], outputs=[], nodes=0)");
}
