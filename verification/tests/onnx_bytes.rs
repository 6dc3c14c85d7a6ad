use burn_backend::{TensorData, TensorMetadata};
use burn_flex::FlexTensor;
use burn_python::interpreter::load_onnx_graph;
use onnx_ir::OnnxGraphBuilder;

fn varint(mut v: u64, out: &mut Vec<u8>) {
    loop {
        let b = (v & 0x7f) as u8;
        v >>= 7;
        if v == 0 {
            out.push(b);
            break;
        }
        out.push(b | 0x80);
    }
}

fn field_varint(field: u64, v: u64, out: &mut Vec<u8>) {
    varint(field << 3, out);
    varint(v, out);
}

fn field_bytes(field: u64, bytes: &[u8], out: &mut Vec<u8>) {
    varint((field << 3) | 2, out);
    varint(bytes.len() as u64, out);
    out.extend_from_slice(bytes);
}

fn value_info(name: &str, dims: &[u64]) -> Vec<u8> {
    let mut shape = Vec::new();
    for d in dims {
        let mut dim = Vec::new();
        field_varint(1, *d, &mut dim);
        field_bytes(1, &dim, &mut shape);
    }
    let mut tensor = Vec::new();
    field_varint(1, 1, &mut tensor);
    field_bytes(2, &shape, &mut tensor);
    let mut ty = Vec::new();
    field_bytes(1, &tensor, &mut ty);
    let mut info = Vec::new();
    field_bytes(1, name.as_bytes(), &mut info);
    field_bytes(2, &ty, &mut info);
    info
}

/// A model of one `Relu` node from `x` (shape `[2]`) to `y`.
fn relu_model() -> Vec<u8> {
    let mut node = Vec::new();
    field_bytes(1, b"x", &mut node);
    field_bytes(2, b"y", &mut node);
    field_bytes(3, b"r", &mut node);
    field_bytes(4, b"Relu", &mut node);
    let mut graph = Vec::new();
    field_bytes(1, &node, &mut graph);
    field_bytes(2, b"g", &mut graph);
    field_bytes(11, &value_info("x", &[2]), &mut graph);
    field_bytes(12, &value_info("y", &[2]), &mut graph);
    let mut opset = Vec::new();
    field_varint(2, 16, &mut opset);
    let mut model = Vec::new();
    field_varint(1, 8, &mut model);
    field_bytes(7, &graph, &mut model);
    field_bytes(8, &opset, &mut model);
    model
}

#[test]
fn a_parsed_relu_model_runs() {
    let graph = OnnxGraphBuilder::new().parse_bytes(&relu_model()).unwrap();
    let m = load_onnx_graph(&graph);
    assert_eq!(m.input_count(), 1);
    // onnx-ir names node outputs after the operator and its position
    assert_eq!(m.repr(), "OnnxModel(inputs=[\"x\"], outputs=[\"relu1_out1\"], nodes=1)");
    let x = FlexTensor::from_data(TensorData::new(vec![-1.0f32, 2.0], vec![2]));
    let mut outs = m.call(vec![x]).result.unwrap();
    let y = outs.remove(0);
    assert_eq!(y.shape().to_vec(), vec![2]);
    assert_eq!(y.into_data().to_vec::<f32>().unwrap(), vec![0.0, 2.0]);
}

#[test]
fn a_parsed_graph_converts_node_by_node() {
    let graph = OnnxGraphBuilder::new().parse_bytes(&relu_model()).unwrap();
    let converted = burn_python::onnx::convert_graph(&graph);
    assert_eq!(converted.nodes.len(), 1);
    assert_eq!(converted.nodes[0].name(), "relu1");
    assert!(matches!(converted.nodes[0], burn_python::graph::Node::Relu(_)));
    assert_eq!(converted.inputs, vec!["x".to_string()]);
}
