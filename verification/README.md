# burn_python

An ONNX inference interpreter over the Burn `Flex` CPU backend, with its logic verified by Verus,
and a thin Python extension module around it (numpy in, numpy out).

## Layout

- `src/` — the verified library.
  - `shape.rs`: element counts, broadcasting, matrix-product shapes, `Reshape` targets,
    `Flatten` dimensions and convolution/pooling windows, with the laws that hold of them.
  - `tensor.rs`: what each backend operator makes of the shape and element type of its
    operands, and the operators themselves, each checking that the backend accepts them.
  - `backend.rs`: the Flex tensor types and one trusted wrapper per backend call.
  - `graph.rs`: the parsed graph as the interpreter reads it.
  - `onnx.rs`: the graph that onnx-ir parses, converted into the library's graph, one trusted
    accessor per field read.
  - `interpreter/`: the execution context, the operators, node dispatch, weight loading (with
    batch-normalization parameters fused at load) and the forward pass, whose contract records
    the whole run node by node.
  - `text.rs`: decimal numbers and debug-formatted name lists.
- `tests/` — tests of the library on concrete values, run with the real backend.
- `app/` — the Python module: parsing ONNX files with onnx-ir, the numpy bridge and the
  `OnnxModel` class.

## Operators

Gemm, Linear, Relu, Sigmoid, Tanh, Gelu, Softmax, LogSoftmax, Add, Sub, Mul, Div, Reshape,
Flatten, Transpose, Conv2d, BatchNormalization (fused), MaxPool2d, AveragePool2d and
GlobalAveragePool. Any other operator is skipped and reported.
