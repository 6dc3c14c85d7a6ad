//! The Flex backend of Burn as the interpreter uses it: its tensor and tensor-data types, what
//! the contracts know of them, and one wrapper per backend call.
//!
//! A Flex tensor holds its elements as floating-point numbers, which the library does not
//! model. Of a tensor the contracts know its shape and element type. Of each backend operator
//! they know what shape and element type its result has and, where its elements are fixed by
//! the operands alone (exact IEEE arithmetic, comparisons and moves of elements), that the result
//! is the one named for it (`flex_add` and the like) on the operands given. Operators whose
//! elements depend on how the machine evaluates them (the platform's `exp` and `tanh`, or matrix
//! products whose summation follows the vector width chosen at run time) get no such name.

use burn_backend::backend::ops::{ActivationOps, ConvOptions, FloatTensorOps, ModuleOps};
use burn_backend::{DType, TensorData, TensorMetadata};
use burn_flex::{Flex, FlexDevice, FlexTensor};
use vstd::prelude::*;

use crate::tensor::{
    adaptive_avg_pool2d_meta, avg_pool2d_meta, binary_meta, conv2d_meta, is_float,
    log_softmax_meta, matmul_meta, max_pool2d_meta, permute_meta, reshape_meta, softmax_meta,
    swap_meta, ElementType, TensorMeta,
};

verus! {

#[verifier::external_type_specification]
#[verifier::external_body]
pub struct ExFlexTensor(burn_flex::FlexTensor);

#[verifier::external_type_specification]
#[verifier::external_body]
pub struct ExTensorData(burn_backend::TensorData);

#[verifier::external_type_specification]
#[verifier::external_body]
pub struct ExFlexDevice(burn_flex::FlexDevice);

/// The dimensions of a Flex tensor.
pub uninterp spec fn tensor_shape(t: FlexTensor) -> Seq<usize>;

/// The element type of a Flex tensor.
pub uninterp spec fn tensor_element(t: FlexTensor) -> ElementType;

/// The dimensions recorded in a tensor-data value.
pub uninterp spec fn data_shape(d: TensorData) -> Seq<usize>;

/// The element type recorded in a tensor-data value.
pub uninterp spec fn data_element(d: TensorData) -> ElementType;

/// The elements of a tensor-data value whose element type is `i64`.
pub uninterp spec fn data_integers(d: TensorData) -> Seq<i64>;

/// Whether the bytes of a tensor-data value read as `i64` values (`bytemuck`'s checked cast
/// succeeds on them: their length is a multiple of 8 and their start 8-aligned).
pub uninterp spec fn data_i64_readable(d: TensorData) -> bool;

/// What Flex's `float_from_data` makes of a tensor-data value.
pub uninterp spec fn flex_from_data(d: TensorData) -> FlexTensor;

/// What Flex's `relu` gives for a tensor.
pub uninterp spec fn flex_relu(t: FlexTensor) -> FlexTensor;

/// What Flex's `gelu` gives for a tensor.
pub uninterp spec fn flex_gelu(t: FlexTensor) -> FlexTensor;

/// What Flex's `float_sqrt` gives for a tensor.
pub uninterp spec fn flex_sqrt(t: FlexTensor) -> FlexTensor;

/// What Flex's `float_add` gives for two tensors.
pub uninterp spec fn flex_add(a: FlexTensor, b: FlexTensor) -> FlexTensor;

/// What Flex's `float_sub` gives for two tensors.
pub uninterp spec fn flex_sub(a: FlexTensor, b: FlexTensor) -> FlexTensor;

/// What Flex's `float_mul` gives for two tensors.
pub uninterp spec fn flex_mul(a: FlexTensor, b: FlexTensor) -> FlexTensor;

/// What Flex's `float_div` gives for two tensors.
pub uninterp spec fn flex_div(a: FlexTensor, b: FlexTensor) -> FlexTensor;

/// What Flex's `float_swap_dims` gives for a tensor and two dimensions.
pub uninterp spec fn flex_swap_dims(t: FlexTensor, i: usize, j: usize) -> FlexTensor;

/// What Flex's `float_permute` gives for a tensor and an order of its dimensions.
pub uninterp spec fn flex_permute(t: FlexTensor, axes: Seq<usize>) -> FlexTensor;

/// What Flex's `float_reshape` gives for a tensor and new dimensions.
pub uninterp spec fn flex_reshape(t: FlexTensor, dims: Seq<usize>) -> FlexTensor;

/// What Flex's `max_pool2d` (without ceiling mode) gives for an input and the window settings.
pub uninterp spec fn flex_max_pool2d(
    x: FlexTensor,
    kernel: Seq<usize>,
    stride: Seq<usize>,
    padding: Seq<usize>,
    dilation: Seq<usize>,
) -> FlexTensor;

/// What Flex's `avg_pool2d` (without ceiling mode) gives for an input and the window settings.
pub uninterp spec fn flex_avg_pool2d(
    x: FlexTensor,
    kernel: Seq<usize>,
    stride: Seq<usize>,
    padding: Seq<usize>,
    count_include_pad: bool,
) -> FlexTensor;

/// What Flex's `adaptive_avg_pool2d` gives for an input and an output size.
pub uninterp spec fn flex_adaptive_avg_pool2d(x: FlexTensor, output_size: Seq<usize>) -> FlexTensor;

/// Shape and element type of a Flex tensor.
pub open spec fn meta(t: FlexTensor) -> TensorMeta {
    TensorMeta { shape: tensor_shape(t), element: tensor_element(t) }
}

/// Shape and element type of a tensor-data value.
pub open spec fn data_meta(d: TensorData) -> TensorMeta {
    TensorMeta { shape: data_shape(d), element: data_element(d) }
}

/// The device of the Flex backend (`FlexDevice`, its only value).
#[verifier::external_body]
pub fn default_device() -> FlexDevice {
    FlexDevice
}

/// `TensorMetadata::shape` of `FlexTensor`: the tensor's dimensions.
#[verifier::external_body]
pub(crate) fn shape_of(t: &FlexTensor) -> (s: Vec<usize>)
    ensures
        s@ == tensor_shape(*t),
{
    t.shape().to_vec()
}

/// `TensorMetadata::dtype` of `FlexTensor`, one arm per element type the interpreter tells
/// apart.
#[verifier::external_body]
pub(crate) fn element_of(t: &FlexTensor) -> (e: ElementType)
    ensures
        e == tensor_element(*t),
{
    match t.dtype() {
        DType::F64 => ElementType::F64,
        DType::F32 => ElementType::F32,
        DType::F16 => ElementType::F16,
        DType::BF16 => ElementType::BF16,
        DType::I64 => ElementType::I64,
        _ => ElementType::Other,
    }
}

/// `Clone` of `FlexTensor` (derived): a second handle on the same storage, layout and element
/// type, that is the same tensor.
#[verifier::external_body]
pub(crate) fn clone_tensor(t: &FlexTensor) -> (r: FlexTensor)
    ensures
        r == *t,
{
    t.clone()
}

/// The `dtype` field of `TensorData`, one arm per element type the interpreter tells apart.
#[verifier::external_body]
pub(crate) fn data_element_of(d: &TensorData) -> (e: ElementType)
    ensures
        e == data_element(*d),
{
    match d.dtype {
        DType::F64 => ElementType::F64,
        DType::F32 => ElementType::F32,
        DType::F16 => ElementType::F16,
        DType::BF16 => ElementType::BF16,
        DType::I64 => ElementType::I64,
        _ => ElementType::Other,
    }
}

/// `Clone` of `TensorData` (derived): the same bytes, shape and element type.
#[verifier::external_body]
pub(crate) fn clone_data(d: &TensorData) -> (r: TensorData)
    ensures
        r == *d,
{
    d.clone()
}

/// `TensorData::to_vec::<i64>`, its error mapped to `None`. The source refuses every element
/// type but `i64` (`as_slice` checks the element type) and otherwise succeeds exactly where the
/// bytes read as `i64` values (`bytemuck::checked::try_cast_slice`).
#[verifier::external_body]
pub(crate) fn data_to_i64(d: &TensorData) -> (r: Option<Vec<i64>>)
    ensures
        r is Some <==> (data_element(*d) == ElementType::I64 && data_i64_readable(*d)),
        r matches Some(v) ==> v@ == data_integers(*d),
{
    d.to_vec::<i64>().ok()
}

/// `FloatTensorOps::float_from_data` of Flex: wraps the data's bytes as a tensor with the data's
/// shape and element type (no conversion).
#[verifier::external_body]
pub(crate) fn tensor_from_data(d: TensorData) -> (r: FlexTensor)
    ensures
        r == flex_from_data(d),
        tensor_shape(r) == data_shape(d),
        tensor_element(r) == data_element(d),
{
    Flex::float_from_data(d, &FlexDevice)
}

/// `ActivationOps::relu` of Flex: elementwise, so shape and element type stay; it panics on a
/// non-float element type.
#[verifier::external_body]
pub(crate) fn relu(t: FlexTensor) -> (r: FlexTensor)
    requires
        is_float(tensor_element(t)),
    ensures
        r == flex_relu(t),
        meta(r) == meta(t),
{
    Flex::relu(t)
}

/// `ActivationOps::sigmoid` of Flex: elementwise, so shape and element type stay; it panics on
/// a non-float element type. Its elements come from the platform's `exp` and are left unsaid.
#[verifier::external_body]
pub(crate) fn sigmoid(t: FlexTensor) -> (r: FlexTensor)
    requires
        is_float(tensor_element(t)),
    ensures
        meta(r) == meta(t),
{
    Flex::sigmoid(t)
}

/// `FloatTensorOps::float_tanh` of Flex: elementwise, so shape and element type stay; it panics
/// on a non-float element type. Its elements come from the platform's `tanh` and are left
/// unsaid.
#[verifier::external_body]
pub(crate) fn tanh(t: FlexTensor) -> (r: FlexTensor)
    requires
        is_float(tensor_element(t)),
    ensures
        meta(r) == meta(t),
{
    Flex::float_tanh(t)
}

/// `ActivationOps::gelu` of Flex: elementwise, so shape and element type stay; it panics on a
/// non-float element type. Its elements are `0.5 * x * (1 + erf(x / sqrt 2))` with the `erf` of
/// the `libm` crate, a software implementation, so the result is named.
#[verifier::external_body]
pub(crate) fn gelu(t: FlexTensor) -> (r: FlexTensor)
    requires
        is_float(tensor_element(t)),
    ensures
        r == flex_gelu(t),
        meta(r) == meta(t),
{
    Flex::gelu(t)
}

/// `FloatTensorOps::float_sqrt` of Flex: elementwise, so shape and element type stay; it panics
/// on a non-float element type.
#[verifier::external_body]
pub(crate) fn sqrt(t: FlexTensor) -> (r: FlexTensor)
    requires
        is_float(tensor_element(t)),
    ensures
        r == flex_sqrt(t),
        meta(r) == meta(t),
{
    Flex::float_sqrt(t)
}

/// `ActivationOps::softmax` of Flex along `dim`: it panics unless `dim` is below the rank and the
/// element type is a float type; the shape stays. Its elements (exponentials and their sums) are
/// left unsaid.
#[verifier::external_body]
pub(crate) fn softmax(t: FlexTensor, dim: usize) -> (r: FlexTensor)
    requires
        softmax_meta(meta(t), dim as int) is Some,
    ensures
        meta(r) == meta(t),
{
    Flex::softmax(t, dim)
}

/// `ActivationOps::log_softmax` of Flex (the trait's default: a max, a subtraction, an
/// exponential, a sum and a logarithm along `dim`): it panics unless `dim` is below the rank, the
/// dimension is not empty and the element type is a float type; the shape stays. Its elements
/// are left unsaid.
#[verifier::external_body]
pub(crate) fn log_softmax(t: FlexTensor, dim: usize) -> (r: FlexTensor)
    requires
        log_softmax_meta(meta(t), dim as int) is Some,
    ensures
        meta(r) == meta(t),
{
    Flex::log_softmax(t, dim)
}

/// `FloatTensorOps::float_add` of Flex: broadcasts the operands (it panics on shapes that do not
/// broadcast and on non-float element types; operands of differing element types are not
/// supported, which only a debug assertion checks).
#[verifier::external_body]
pub(crate) fn add(a: FlexTensor, b: FlexTensor) -> (r: FlexTensor)
    requires
        binary_meta(meta(a), meta(b)) is Some,
    ensures
        r == flex_add(a, b),
        meta(r) == binary_meta(meta(a), meta(b))->Some_0,
{
    Flex::float_add(a, b)
}

/// `FloatTensorOps::float_sub` of Flex: broadcasts the operands (it panics on shapes that do not
/// broadcast and on non-float element types; operands of differing element types are not
/// supported, which only a debug assertion checks).
#[verifier::external_body]
pub(crate) fn sub(a: FlexTensor, b: FlexTensor) -> (r: FlexTensor)
    requires
        binary_meta(meta(a), meta(b)) is Some,
    ensures
        r == flex_sub(a, b),
        meta(r) == binary_meta(meta(a), meta(b))->Some_0,
{
    Flex::float_sub(a, b)
}

/// `FloatTensorOps::float_mul` of Flex: broadcasts the operands (it panics on shapes that do not
/// broadcast and on non-float element types; operands of differing element types are not
/// supported, which only a debug assertion checks).
#[verifier::external_body]
pub(crate) fn mul(a: FlexTensor, b: FlexTensor) -> (r: FlexTensor)
    requires
        binary_meta(meta(a), meta(b)) is Some,
    ensures
        r == flex_mul(a, b),
        meta(r) == binary_meta(meta(a), meta(b))->Some_0,
{
    Flex::float_mul(a, b)
}

/// `FloatTensorOps::float_div` of Flex: broadcasts the operands (it panics on shapes that do not
/// broadcast and on non-float element types; operands of differing element types are not
/// supported, which only a debug assertion checks).
#[verifier::external_body]
pub(crate) fn div(a: FlexTensor, b: FlexTensor) -> (r: FlexTensor)
    requires
        binary_meta(meta(a), meta(b)) is Some,
    ensures
        r == flex_div(a, b),
        meta(r) == binary_meta(meta(a), meta(b))->Some_0,
{
    Flex::float_div(a, b)
}

/// `FloatTensorOps::float_matmul` of Flex: the batched product `[..., m, k] x [..., k, n]`
/// with broadcast batch dimensions (it panics on ranks below 2, on inner sizes that differ, on
/// differing element types and on non-float ones; batch dimensions that do not broadcast, and a
/// batch size 1 against a batch size 0, which the source sizes by the larger of the two and then
/// reads past the empty operand, are left out too). Its elements are sums whose order follows the vector width that the machine
/// offers at run time, and are left unsaid.
#[verifier::external_body]
pub(crate) fn matmul(a: FlexTensor, b: FlexTensor) -> (r: FlexTensor)
    requires
        matmul_meta(meta(a), meta(b)) is Some,
    ensures
        meta(r) == matmul_meta(meta(a), meta(b))->Some_0,
{
    Flex::float_matmul(a, b)
}

/// `FloatTensorOps::float_swap_dims` of Flex: exchanges two dimensions (it panics on a
/// dimension beyond the rank).
#[verifier::external_body]
pub(crate) fn swap_dims(t: FlexTensor, i: usize, j: usize) -> (r: FlexTensor)
    requires
        swap_meta(meta(t), i as int, j as int) is Some,
    ensures
        r == flex_swap_dims(t, i, j),
        meta(r) == swap_meta(meta(t), i as int, j as int)->Some_0,
{
    Flex::float_swap_dims(t, i, j)
}

/// `FloatTensorOps::float_permute` of Flex: reorders the dimensions; the source documents that
/// `axes` must be a permutation of the dimensions.
#[verifier::external_body]
pub(crate) fn permute(t: FlexTensor, axes: &[usize]) -> (r: FlexTensor)
    requires
        permute_meta(meta(t), axes@) is Some,
    ensures
        r == flex_permute(t, axes@),
        meta(r) == permute_meta(meta(t), axes@)->Some_0,
{
    Flex::float_permute(t, axes)
}

/// `FloatTensorOps::float_reshape` of Flex: gives the elements new dimensions (it panics
/// unless the element count stays).
#[verifier::external_body]
pub(crate) fn reshape(t: FlexTensor, dims: Vec<usize>) -> (r: FlexTensor)
    requires
        reshape_meta(meta(t), dims@) is Some,
    ensures
        r == flex_reshape(t, dims@),
        meta(r) == reshape_meta(meta(t), dims@)->Some_0,
{
    Flex::float_reshape(t, dims.into())
}

/// `ModuleOps::conv2d` of Flex without bias, with `ConvOptions::new(stride, padding, dilation,
/// groups)`, which panics on a zero stride, dilation or group count. The contract admits input and
/// weight that a 2-D convolution is defined on (see `conv2d_meta`). Its elements are sums computed
/// as matrix products, and are left unsaid.
#[verifier::external_body]
pub(crate) fn conv2d(
    x: FlexTensor,
    w: FlexTensor,
    stride: [usize; 2],
    padding: [usize; 2],
    dilation: [usize; 2],
    groups: usize,
) -> (r: FlexTensor)
    requires
        conv2d_meta(meta(x), meta(w), None, stride@, padding@, dilation@, groups as int) is Some,
    ensures
        meta(r) == conv2d_meta(
            meta(x),
            meta(w),
            None,
            stride@,
            padding@,
            dilation@,
            groups as int,
        )->Some_0,
{
    Flex::conv2d(x, w, None, ConvOptions::new(stride, padding, dilation, groups))
}

/// `ModuleOps::max_pool2d` of Flex without ceiling mode, on a 4-D float input (it panics on a
/// zero kernel size or stride).
#[verifier::external_body]
pub(crate) fn max_pool2d(
    x: FlexTensor,
    kernel: [usize; 2],
    stride: [usize; 2],
    padding: [usize; 2],
    dilation: [usize; 2],
) -> (r: FlexTensor)
    requires
        max_pool2d_meta(meta(x), kernel@, stride@, padding@, dilation@) is Some,
    ensures
        r == flex_max_pool2d(x, kernel@, stride@, padding@, dilation@),
        meta(r) == max_pool2d_meta(meta(x), kernel@, stride@, padding@, dilation@)->Some_0,
{
    Flex::max_pool2d(x, kernel, stride, padding, dilation, false)
}

/// `ModuleOps::avg_pool2d` of Flex without ceiling mode, on a 4-D float input (it panics on a
/// zero kernel size or stride). Each output element sums its window in a fixed order and divides
/// by the window's count, so the result is named.
#[verifier::external_body]
pub(crate) fn avg_pool2d(
    x: FlexTensor,
    kernel: [usize; 2],
    stride: [usize; 2],
    padding: [usize; 2],
    count_include_pad: bool,
) -> (r: FlexTensor)
    requires
        avg_pool2d_meta(meta(x), kernel@, stride@, padding@) is Some,
    ensures
        r == flex_avg_pool2d(x, kernel@, stride@, padding@, count_include_pad),
        meta(r) == avg_pool2d_meta(meta(x), kernel@, stride@, padding@)->Some_0,
{
    Flex::avg_pool2d(x, kernel, stride, padding, count_include_pad, false)
}

/// `ModuleOps::adaptive_avg_pool2d` of Flex on a 4-D float input: the two spatial dimensions
/// become `output_size`. Each output element sums its window in a fixed order and divides by the
/// window's count, so the result is named.
#[verifier::external_body]
pub(crate) fn adaptive_avg_pool2d(x: FlexTensor, output_size: [usize; 2]) -> (r: FlexTensor)
    requires
        adaptive_avg_pool2d_meta(meta(x), output_size@) is Some,
    ensures
        r == flex_adaptive_avg_pool2d(x, output_size@),
        meta(r) == adaptive_avg_pool2d_meta(meta(x), output_size@)->Some_0,
{
    Flex::adaptive_avg_pool2d(x, output_size)
}

} // verus!
