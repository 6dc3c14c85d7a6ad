//! What each backend operator makes of the shape and element type of its operands, and the
//! operators themselves, each checking first that the backend accepts its operands and then
//! giving the backend's result.

use burn_flex::FlexTensor;
use vstd::prelude::*;

use crate::backend;
use crate::backend::meta;

pub use crate::backend::default_device;
use crate::shape::{
    aligned_dim, lemma_product_push, max_rank, broadcast_shape, broadcast_shapes, broadcastable, check_permutation, checked_product,
    conv_output_len, conv_output_size, conv_window_fits, is_permutation, matmul_compatible,
    matmul_dims, matmul_shape, permuted, pool_output_len, pool_output_size, pool_window_valid,
    product, swapped,
};

verus! {

/// The element type of a tensor, as far as the interpreter tells them apart.
#[derive(Clone, Copy, Debug, PartialEq, Eq, Structural)]
pub enum ElementType {
    F64,
    F32,
    F16,
    BF16,
    I64,
    Other,
}

/// What the contracts know of a tensor: its dimensions and its element type.
pub struct TensorMeta {
    pub shape: Seq<usize>,
    pub element: ElementType,
}

/// The element types that the backend's float operators accept.
pub open spec fn is_float(e: ElementType) -> bool {
    e == ElementType::F64 || e == ElementType::F32 || e == ElementType::F16 || e
        == ElementType::BF16
}

/// Whether `e` is one of the float element types.
pub fn is_float_element(e: ElementType) -> (r: bool)
    ensures
        r == is_float(e),
{
    match e {
        ElementType::F64 | ElementType::F32 | ElementType::F16 | ElementType::BF16 => true,
        _ => false,
    }
}

/// An elementwise operator: defined on float tensors, keeping shape and element type.
pub open spec fn unary_meta(m: TensorMeta) -> Option<TensorMeta> {
    if is_float(m.element) {
        Some(m)
    } else {
        None
    }
}

/// Softmax along `dim`: defined on float tensors with `dim` below the rank.
pub open spec fn softmax_meta(m: TensorMeta, dim: int) -> Option<TensorMeta> {
    if is_float(m.element) && 0 <= dim < m.shape.len() {
        Some(m)
    } else {
        None
    }
}

/// Log-softmax along `dim`: as softmax, and the dimension must not be empty.
pub open spec fn log_softmax_meta(m: TensorMeta, dim: int) -> Option<TensorMeta> {
    if is_float(m.element) && 0 <= dim < m.shape.len() && m.shape[dim] > 0 {
        Some(m)
    } else {
        None
    }
}

/// An elementwise operator of two operands: same float element type, broadcastable shapes; the
/// result has the broadcast shape.
pub open spec fn binary_meta(a: TensorMeta, b: TensorMeta) -> Option<TensorMeta> {
    if is_float(a.element) && a.element == b.element && broadcastable(a.shape, b.shape) {
        Some(TensorMeta { shape: broadcast_shape(a.shape, b.shape), element: a.element })
    } else {
        None
    }
}

/// The batched matrix product: same float element type and compatible shapes.
pub open spec fn matmul_meta(a: TensorMeta, b: TensorMeta) -> Option<TensorMeta> {
    if is_float(a.element) && a.element == b.element && matmul_compatible(a.shape, b.shape) {
        Some(TensorMeta { shape: matmul_shape(a.shape, b.shape), element: a.element })
    } else {
        None
    }
}

/// Exchanging dimensions `i` and `j`, both below the rank.
pub open spec fn swap_meta(m: TensorMeta, i: int, j: int) -> Option<TensorMeta> {
    if 0 <= i < m.shape.len() && 0 <= j < m.shape.len() {
        Some(TensorMeta { shape: swapped(m.shape, i, j), element: m.element })
    } else {
        None
    }
}

/// Reordering the dimensions by a permutation of them.
pub open spec fn permute_meta(m: TensorMeta, axes: Seq<usize>) -> Option<TensorMeta> {
    if is_permutation(axes, m.shape.len() as int) {
        Some(TensorMeta { shape: permuted(m.shape, axes), element: m.element })
    } else {
        None
    }
}

/// New dimensions with the same element count, a count that fits in a `usize`.
pub open spec fn reshape_meta(m: TensorMeta, dims: Seq<usize>) -> Option<TensorMeta> {
    if product(dims) == product(m.shape) && product(dims) <= usize::MAX {
        Some(TensorMeta { shape: dims, element: m.element })
    } else {
        None
    }
}

/// The output shape of a 2-D convolution of `x` (`[n, c_in, h, w]`) by `w`
/// (`[c_out, c_in / groups, kh, kw]`).
pub open spec fn conv2d_shape(
    x: Seq<usize>,
    w: Seq<usize>,
    stride: Seq<usize>,
    padding: Seq<usize>,
    dilation: Seq<usize>,
) -> Seq<usize> {
    seq![
        x[0],
        w[0],
        conv_output_len(
            x[2] as int,
            w[2] as int,
            stride[0] as int,
            padding[0] as int,
            dilation[0] as int,
        ) as usize,
        conv_output_len(
            x[3] as int,
            w[3] as int,
            stride[1] as int,
            padding[1] as int,
            dilation[1] as int,
        ) as usize,
    ]
}

/// A 2-D convolution: 4-D input and weight of one float element type, a nonzero group count that
/// splits the input channels into the weight's channels and divides the output channels, windows
/// that fit the padded input, a bias (if any) of one value per output channel, and output and
/// kernel element counts that fit in a `usize`.
pub open spec fn conv2d_meta(
    x: TensorMeta,
    w: TensorMeta,
    bias: Option<TensorMeta>,
    stride: Seq<usize>,
    padding: Seq<usize>,
    dilation: Seq<usize>,
    groups: int,
) -> Option<TensorMeta> {
    let xs = x.shape;
    let ws = w.shape;
    if {
        &&& xs.len() == 4
        &&& ws.len() == 4
        &&& stride.len() == 2
        &&& padding.len() == 2
        &&& dilation.len() == 2
        &&& is_float(x.element)
        &&& w.element == x.element
        &&& groups >= 1
        &&& xs[1] == ws[1] * groups
        &&& (ws[0] as int) % groups == 0
        &&& conv_window_fits(
            xs[2] as int,
            ws[2] as int,
            stride[0] as int,
            padding[0] as int,
            dilation[0] as int,
        )
        &&& conv_window_fits(
            xs[3] as int,
            ws[3] as int,
            stride[1] as int,
            padding[1] as int,
            dilation[1] as int,
        )
        &&& match bias {
            Some(b) => b.shape == seq![ws[0]] && b.element == x.element,
            None => true,
        }
        &&& product(conv2d_shape(xs, ws, stride, padding, dilation)) <= usize::MAX
        &&& product(ws.skip(1)) <= usize::MAX
    } {
        Some(TensorMeta { shape: conv2d_shape(xs, ws, stride, padding, dilation), element: x.element })
    } else {
        None
    }
}

/// Max pooling over the two spatial dimensions of a 4-D float input.
pub open spec fn max_pool2d_meta(
    x: TensorMeta,
    kernel: Seq<usize>,
    stride: Seq<usize>,
    padding: Seq<usize>,
    dilation: Seq<usize>,
) -> Option<TensorMeta> {
    let xs = x.shape;
    if {
        &&& xs.len() == 4
        &&& kernel.len() == 2
        &&& stride.len() == 2
        &&& padding.len() == 2
        &&& dilation.len() == 2
        &&& is_float(x.element)
        &&& pool_window_valid(
            xs[2] as int,
            kernel[0] as int,
            stride[0] as int,
            padding[0] as int,
            dilation[0] as int,
        )
        &&& pool_window_valid(
            xs[3] as int,
            kernel[1] as int,
            stride[1] as int,
            padding[1] as int,
            dilation[1] as int,
        )
    } {
        Some(
            TensorMeta {
                shape: seq![
                    xs[0],
                    xs[1],
                    pool_output_len(
                        xs[2] as int,
                        kernel[0] as int,
                        stride[0] as int,
                        padding[0] as int,
                        dilation[0] as int,
                    ) as usize,
                    pool_output_len(
                        xs[3] as int,
                        kernel[1] as int,
                        stride[1] as int,
                        padding[1] as int,
                        dilation[1] as int,
                    ) as usize,
                ],
                element: x.element,
            },
        )
    } else {
        None
    }
}

/// Average pooling: as max pooling with no dilation.
pub open spec fn avg_pool2d_meta(
    x: TensorMeta,
    kernel: Seq<usize>,
    stride: Seq<usize>,
    padding: Seq<usize>,
) -> Option<TensorMeta> {
    max_pool2d_meta(x, kernel, stride, padding, seq![1usize, 1usize])
}

/// Adaptive average pooling of a 4-D float input to the spatial size `output_size`.
pub open spec fn adaptive_avg_pool2d_meta(x: TensorMeta, output_size: Seq<usize>) -> Option<
    TensorMeta,
> {
    if x.shape.len() == 4 && output_size.len() == 2 && is_float(x.element) {
        Some(
            TensorMeta {
                shape: seq![x.shape[0], x.shape[1], output_size[0], output_size[1]],
                element: x.element,
            },
        )
    } else {
        None
    }
}

/// The elementwise operators of one operand.
#[derive(Clone, Copy, Debug, PartialEq, Eq, Structural)]
pub enum UnaryOp {
    Relu,
    Sigmoid,
    Tanh,
    Gelu,
    Sqrt,
}

/// The elementwise operators of two operands.
#[derive(Clone, Copy, Debug, PartialEq, Eq, Structural)]
pub enum BinaryOp {
    Add,
    Sub,
    Mul,
    Div,
}

/// The backend's result of an elementwise operator of one operand, where its elements are fixed
/// by the operand alone (`Relu`, `Gelu` and `Sqrt`); `None` for `Sigmoid` and `Tanh`, whose
/// elements come from the platform's `exp` and `tanh`.
pub open spec fn unary_value(op: UnaryOp, t: FlexTensor) -> Option<FlexTensor> {
    match op {
        UnaryOp::Relu => Some(backend::flex_relu(t)),
        UnaryOp::Gelu => Some(backend::flex_gelu(t)),
        UnaryOp::Sqrt => Some(backend::flex_sqrt(t)),
        _ => None,
    }
}

/// The backend's result of an elementwise operator of two operands.
pub open spec fn binary_value(op: BinaryOp, a: FlexTensor, b: FlexTensor) -> FlexTensor {
    match op {
        BinaryOp::Add => backend::flex_add(a, b),
        BinaryOp::Sub => backend::flex_sub(a, b),
        BinaryOp::Mul => backend::flex_mul(a, b),
        BinaryOp::Div => backend::flex_div(a, b),
    }
}

/// Applies an elementwise operator, or gives `None` where the element type is not a float type.
pub fn apply_unary(op: UnaryOp, t: FlexTensor) -> (r: Option<FlexTensor>)
    ensures
        r matches Some(y) ==> (unary_value(op, t) matches Some(v) ==> y == v),
        r is Some <==> unary_meta(meta(t)) is Some,
        r matches Some(y) ==> meta(y) == meta(t),
{
    if !is_float_element(backend::element_of(&t)) {
        return None;
    }
    let y = match op {
        UnaryOp::Relu => backend::relu(t),
        UnaryOp::Sigmoid => backend::sigmoid(t),
        UnaryOp::Tanh => backend::tanh(t),
        UnaryOp::Gelu => backend::gelu(t),
        UnaryOp::Sqrt => backend::sqrt(t),
    };
    Some(y)
}

/// Softmax (or log-softmax, with `log`) along `dim`, or `None` where the backend does not accept
/// the operand.
pub fn apply_softmax(t: FlexTensor, dim: usize, log: bool) -> (r: Option<FlexTensor>)
    ensures
        !log ==> (r is Some <==> softmax_meta(meta(t), dim as int) is Some),
        log ==> (r is Some <==> log_softmax_meta(meta(t), dim as int) is Some),
        r matches Some(y) ==> meta(y) == meta(t),
{
    if !is_float_element(backend::element_of(&t)) {
        return None;
    }
    let dims = backend::shape_of(&t);
    if dim >= dims.len() {
        return None;
    }
    if log {
        if dims[dim] == 0 {
            return None;
        }
        Some(backend::log_softmax(t, dim))
    } else {
        Some(backend::softmax(t, dim))
    }
}

/// An elementwise operator of two broadcast operands, or `None` where the backend does not
/// accept them.
pub fn apply_binary(op: BinaryOp, a: FlexTensor, b: FlexTensor) -> (r: Option<FlexTensor>)
    ensures
        r matches Some(y) ==> y == binary_value(op, a, b),
        r is Some <==> binary_meta(meta(a), meta(b)) is Some,
        r matches Some(y) ==> meta(y) == binary_meta(meta(a), meta(b))->Some_0,
{
    let ea = backend::element_of(&a);
    let eb = backend::element_of(&b);
    if !is_float_element(ea) || ea != eb {
        return None;
    }
    let sa = backend::shape_of(&a);
    let sb = backend::shape_of(&b);
    if broadcast_shapes(sa.as_slice(), sb.as_slice()).is_none() {
        return None;
    }
    let y = match op {
        BinaryOp::Add => backend::add(a, b),
        BinaryOp::Sub => backend::sub(a, b),
        BinaryOp::Mul => backend::mul(a, b),
        BinaryOp::Div => backend::div(a, b),
    };
    Some(y)
}

/// The batched matrix product, or `None` where the backend does not accept the operands.
pub fn apply_matmul(a: FlexTensor, b: FlexTensor) -> (r: Option<FlexTensor>)
    ensures
        r is Some <==> matmul_meta(meta(a), meta(b)) is Some,
        r matches Some(y) ==> meta(y) == matmul_meta(meta(a), meta(b))->Some_0,
{
    let ea = backend::element_of(&a);
    let eb = backend::element_of(&b);
    if !is_float_element(ea) || ea != eb {
        return None;
    }
    let sa = backend::shape_of(&a);
    let sb = backend::shape_of(&b);
    if matmul_dims(sa.as_slice(), sb.as_slice()).is_none() {
        return None;
    }
    Some(backend::matmul(a, b))
}

/// Exchanges dimensions `i` and `j`, or gives `None` where one is beyond the rank.
pub fn apply_swap_dims(t: FlexTensor, i: usize, j: usize) -> (r: Option<FlexTensor>)
    ensures
        r matches Some(y) ==> y == backend::flex_swap_dims(t, i, j),
        r is Some <==> swap_meta(meta(t), i as int, j as int) is Some,
        r matches Some(y) ==> meta(y) == swap_meta(meta(t), i as int, j as int)->Some_0,
{
    let rank = backend::shape_of(&t).len();
    if i >= rank || j >= rank {
        return None;
    }
    Some(backend::swap_dims(t, i, j))
}

/// Reorders the dimensions, or gives `None` where `axes` is not a permutation of them.
pub fn apply_permute(t: FlexTensor, axes: &[usize]) -> (r: Option<FlexTensor>)
    ensures
        r matches Some(y) ==> y == backend::flex_permute(t, axes@),
        r is Some <==> permute_meta(meta(t), axes@) is Some,
        r matches Some(y) ==> meta(y) == permute_meta(meta(t), axes@)->Some_0,
{
    let rank = backend::shape_of(&t).len();
    if !check_permutation(axes, rank) {
        return None;
    }
    Some(backend::permute(t, axes))
}

/// Gives the elements the dimensions `dims`, or gives `None` where the element count would
/// change.
pub fn apply_reshape(t: FlexTensor, dims: Vec<usize>) -> (r: Option<FlexTensor>)
    ensures
        r matches Some(y) ==> y == backend::flex_reshape(t, dims@),
        r is Some <==> reshape_meta(meta(t), dims@) is Some,
        r matches Some(y) ==> meta(y) == reshape_meta(meta(t), dims@)->Some_0,
{
    let s = backend::shape_of(&t);
    let before = checked_product(s.as_slice());
    let after = checked_product(dims.as_slice());
    match (before, after) {
        (Some(p), Some(q)) => {
            if p != q {
                return None;
            }
        },
        _ => {
            return None;
        },
    }
    Some(backend::reshape(t, dims))
}

/// A convolution result with the optional bias added: where there is a bias `b`, some tensor
/// `c` (the convolution without bias, whose elements are left to the backend) plus `b` reshaped to
/// `[1, c_out, 1, 1]`; without a bias, any tensor.
pub open spec fn conv_with_bias(bias: Option<FlexTensor>, c_out: usize) -> spec_fn(FlexTensor) -> bool {
    |t: FlexTensor|
        match bias {
            Some(b) => exists|c: FlexTensor|
                t == #[trigger] backend::flex_add(c, channel_bias(b, c_out)),
            None => true,
        }
}

/// A bias of `c_out` values reshaped by the backend to `[1, c_out, 1, 1]`.
pub open spec fn channel_bias(b: FlexTensor, c_out: usize) -> FlexTensor {
    backend::flex_reshape(b, seq![1usize, c_out, 1usize, 1usize])
}

/// A 2-D convolution: the backend's convolution without bias, then the bias (if any), one value
/// per output channel, added through the backend's broadcast addition; `None` where the backend
/// does not accept the operands (see `conv2d_meta`).
pub fn apply_conv2d(
    x: FlexTensor,
    w: FlexTensor,
    bias: Option<FlexTensor>,
    stride: [usize; 2],
    padding: [usize; 2],
    dilation: [usize; 2],
    groups: usize,
) -> (r: Option<FlexTensor>)
    ensures
        ({
            let m = conv2d_meta(
                meta(x),
                meta(w),
                match bias {
                    Some(b) => Some(meta(b)),
                    None => None,
                },
                stride@,
                padding@,
                dilation@,
                groups as int,
            );
            &&& r is Some <==> m is Some
            &&& r matches Some(y) ==> meta(y) == m->Some_0
        }),
        r matches Some(y) ==> conv_with_bias(bias, meta(w).shape[0])(y),
{
    let ex = backend::element_of(&x);
    if !is_float_element(ex) || backend::element_of(&w) != ex {
        return None;
    }
    let xs = backend::shape_of(&x);
    let ws = backend::shape_of(&w);
    if xs.len() != 4 || ws.len() != 4 || groups == 0 {
        return None;
    }
    match ws[1].checked_mul(groups) {
        Some(c) => {
            if c != xs[1] {
                return None;
            }
        },
        None => return None,
    }
    if ws[0] % groups != 0 {
        return None;
    }
    match &bias {
        Some(b) => {
            if backend::element_of(b) != ex {
                return None;
            }
            let bs = backend::shape_of(b);
            if bs.len() != 1 || bs[0] != ws[0] {
                return None;
            }
            assert(bs@ =~= seq![ws@[0]]);
        },
        None => {},
    }
    let oh = match conv_output_size(xs[2], ws[2], stride[0], padding[0], dilation[0]) {
        Some(v) => v,
        None => return None,
    };
    let ow = match conv_output_size(xs[3], ws[3], stride[1], padding[1], dilation[1]) {
        Some(v) => v,
        None => return None,
    };
    let mut out: Vec<usize> = Vec::new();
    out.push(xs[0]);
    out.push(ws[0]);
    out.push(oh);
    out.push(ow);
    assert(out@ =~= conv2d_shape(xs@, ws@, stride@, padding@, dilation@));
    if checked_product(out.as_slice()).is_none() {
        return None;
    }
    let mut kernel: Vec<usize> = Vec::new();
    kernel.push(ws[1]);
    kernel.push(ws[2]);
    kernel.push(ws[3]);
    assert(kernel@ =~= ws@.skip(1));
    if checked_product(kernel.as_slice()).is_none() {
        return None;
    }
    let c_out = ws[0];
    let y = backend::conv2d(x, w, stride, padding, dilation, groups);
    match bias {
        None => Some(y),
        Some(b) => {
            let mut dims: Vec<usize> = Vec::new();
            dims.push(1);
            dims.push(c_out);
            dims.push(1);
            dims.push(1);
            let ghost bs = seq![1usize, c_out, 1usize, 1usize];
            assert(dims@ =~= bs);
            proof {
                assert(meta(b).shape == seq![c_out]);
                let e = Seq::<usize>::empty();
                lemma_product_push(e, c_out);
                assert(meta(b).shape =~= e.push(c_out));
                lemma_product_push(e, 1);
                lemma_product_push(e.push(1), c_out);
                lemma_product_push(e.push(1).push(c_out), 1);
                lemma_product_push(e.push(1).push(c_out).push(1), 1);
                assert(bs =~= e.push(1).push(c_out).push(1).push(1));
                assert(product(e) == 1);
                let p1 = product(e);
                let p2 = product(e.push(1));
                assert(p1 * c_out == c_out) by (nonlinear_arith)
                    requires
                        p1 == 1,
                ;
                assert(p2 == 1);
                assert(p2 * c_out == c_out) by (nonlinear_arith)
                    requires
                        p2 == 1,
                ;
                assert(product(meta(b).shape) == c_out);
                assert(product(bs) == c_out);
                assert(dims@ == bs);
            }
            let rb = backend::reshape(b, dims);
            proof {
                let n = max_rank(meta(y).shape, bs);
                assert(n == 4);
                assert forall|i: int| 0 <= i < 4 implies aligned_dim(meta(y).shape, 4, i) == meta(
                    y,
                ).shape[i] && aligned_dim(bs, 4, i) == bs[i] by {}
                assert(broadcastable(meta(y).shape, bs));
                assert(broadcast_shape(meta(y).shape, bs) =~= meta(y).shape);
            }
            let r = backend::add(y, rb);
            assert(r == backend::flex_add(y, channel_bias(b, c_out)));
            Some(r)
        },
    }
}

/// Max pooling over the two spatial dimensions, or `None` where the backend does not accept the
/// operand.
pub fn apply_max_pool2d(
    x: FlexTensor,
    kernel: [usize; 2],
    stride: [usize; 2],
    padding: [usize; 2],
    dilation: [usize; 2],
) -> (r: Option<FlexTensor>)
    ensures
        r matches Some(y) ==> y == backend::flex_max_pool2d(x, kernel@, stride@, padding@, dilation@),
        r is Some <==> max_pool2d_meta(meta(x), kernel@, stride@, padding@, dilation@) is Some,
        r matches Some(y) ==> meta(y) == max_pool2d_meta(
            meta(x),
            kernel@,
            stride@,
            padding@,
            dilation@,
        )->Some_0,
{
    if !is_float_element(backend::element_of(&x)) {
        return None;
    }
    let xs = backend::shape_of(&x);
    if xs.len() != 4 {
        return None;
    }
    if pool_output_size(xs[2], kernel[0], stride[0], padding[0], dilation[0]).is_none() {
        return None;
    }
    if pool_output_size(xs[3], kernel[1], stride[1], padding[1], dilation[1]).is_none() {
        return None;
    }
    Some(backend::max_pool2d(x, kernel, stride, padding, dilation))
}

/// Average pooling over the two spatial dimensions, or `None` where the backend does not accept
/// the operand.
pub fn apply_avg_pool2d(
    x: FlexTensor,
    kernel: [usize; 2],
    stride: [usize; 2],
    padding: [usize; 2],
    count_include_pad: bool,
) -> (r: Option<FlexTensor>)
    ensures
        r matches Some(y) ==> y == backend::flex_avg_pool2d(x, kernel@, stride@, padding@, count_include_pad),
        r is Some <==> avg_pool2d_meta(meta(x), kernel@, stride@, padding@) is Some,
        r matches Some(y) ==> meta(y) == avg_pool2d_meta(meta(x), kernel@, stride@, padding@)->Some_0,
{
    if !is_float_element(backend::element_of(&x)) {
        return None;
    }
    let xs = backend::shape_of(&x);
    if xs.len() != 4 {
        return None;
    }
    if pool_output_size(xs[2], kernel[0], stride[0], padding[0], 1).is_none() {
        return None;
    }
    if pool_output_size(xs[3], kernel[1], stride[1], padding[1], 1).is_none() {
        return None;
    }
    Some(backend::avg_pool2d(x, kernel, stride, padding, count_include_pad))
}

/// Adaptive average pooling to the spatial size `output_size`, or `None` where the operand is
/// not a 4-D float tensor.
pub fn apply_adaptive_avg_pool2d(x: FlexTensor, output_size: [usize; 2]) -> (r: Option<
    FlexTensor,
>)
    ensures
        r matches Some(y) ==> y == backend::flex_adaptive_avg_pool2d(x, output_size@),
        r is Some <==> adaptive_avg_pool2d_meta(meta(x), output_size@) is Some,
        r matches Some(y) ==> meta(y) == adaptive_avg_pool2d_meta(meta(x), output_size@)->Some_0,
{
    if !is_float_element(backend::element_of(&x)) {
        return None;
    }
    if backend::shape_of(&x).len() != 4 {
        return None;
    }
    Some(backend::adaptive_avg_pool2d(x, output_size))
}

} // verus!
