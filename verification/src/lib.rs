//! An ONNX inference interpreter over the Burn `Flex` CPU backend.

pub mod backend;
pub mod graph;
pub mod interpreter;
pub mod onnx;
pub mod shape;
pub mod tensor;
pub mod text;
