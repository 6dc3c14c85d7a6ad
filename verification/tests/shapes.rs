use burn_python::graph::PaddingConfig2d;
use burn_python::interpreter::ops::conv::symmetric_padding;
use burn_python::interpreter::ops::reshape::transpose_perm;
use burn_python::shape::{
    broadcast_shapes, check_permutation, checked_product, conv_output_size, flatten_dims,
    matmul_dims, pool_output_size, resolve_reshape_target,
};
use burn_python::text::decimal_string;

#[test]
fn product_of_dimensions() {
    assert_eq!(checked_product(&[2, 3, 4]), Some(24));
    assert_eq!(checked_product(&[]), Some(1));
    assert_eq!(checked_product(&[usize::MAX, 2, 0]), Some(0));
    assert_eq!(checked_product(&[usize::MAX, 2]), None);
}

#[test]
fn broadcasting_aligns_to_the_right() {
    assert_eq!(broadcast_shapes(&[2, 3], &[3]), Some(vec![2, 3]));
    assert_eq!(broadcast_shapes(&[4, 1, 5], &[3, 1]), Some(vec![4, 3, 5]));
    assert_eq!(broadcast_shapes(&[], &[2]), Some(vec![2]));
    assert_eq!(broadcast_shapes(&[2, 3], &[2]), None);
}

#[test]
fn matmul_shapes() {
    assert_eq!(matmul_dims(&[2, 3], &[3, 4]), Some(vec![2, 4]));
    assert_eq!(matmul_dims(&[5, 1, 2, 3], &[7, 3, 4]), Some(vec![5, 7, 2, 4]));
    assert_eq!(matmul_dims(&[2, 3], &[4, 5]), None);
    assert_eq!(matmul_dims(&[3], &[3, 4]), None);
    assert_eq!(matmul_dims(&[2, 2, 3], &[3, 3, 4]), None);
    // a batch of 1 against an empty batch is refused, while two empty batches are not
    assert_eq!(matmul_dims(&[1, 2, 3], &[0, 3, 4]), None);
    assert_eq!(matmul_dims(&[2, 3], &[0, 3, 4]), None);
    assert_eq!(matmul_dims(&[0, 2, 3], &[0, 3, 4]), Some(vec![0, 2, 4]));
}

#[test]
fn permutations() {
    assert!(check_permutation(&[2, 0, 1], 3));
    assert!(check_permutation(&[], 0));
    assert!(!check_permutation(&[0, 0], 2));
    assert!(!check_permutation(&[0, 2], 2));
    assert!(!check_permutation(&[0], 2));
}

#[test]
fn reshape_targets() {
    assert_eq!(resolve_reshape_target(&[-1], &[2, 3]), Some(vec![6]));
    assert_eq!(resolve_reshape_target(&[2, -1], &[2, 3, 4]), Some(vec![2, 12]));
    assert_eq!(resolve_reshape_target(&[0, 12], &[2, 3, 4]), Some(vec![2, 12]));
    assert_eq!(resolve_reshape_target(&[0, -1], &[2, 3, 4]), Some(vec![2, 12]));
    assert_eq!(resolve_reshape_target(&[3, 2], &[2, 3]), Some(vec![3, 2]));
    // -1 next to a 0 entry copying an empty dimension has nothing to divide by
    assert_eq!(resolve_reshape_target(&[0, -1], &[0, 3]), None);
    // a 0 entry beyond the input's rank has no dimension to copy
    assert_eq!(resolve_reshape_target(&[-1, 0, 0], &[6, 2]), None);
    // 0 copies a dimension the input lacks
    assert_eq!(resolve_reshape_target(&[1, 0], &[6]), None);
    assert_eq!(resolve_reshape_target(&[-2], &[6]), None);
    // two -1 entries each take the count over the known entries
    assert_eq!(resolve_reshape_target(&[-1, -1], &[4]), Some(vec![4, 4]));
}

#[test]
fn flatten_dimensions() {
    assert_eq!(flatten_dims(&[2, 3, 4], 1), Some(vec![2, 12]));
    assert_eq!(flatten_dims(&[2, 3, 4], 0), Some(vec![1, 24]));
    assert_eq!(flatten_dims(&[2, 3, 4], 3), Some(vec![24, 1]));
    assert_eq!(flatten_dims(&[0, 3], 1), Some(vec![1, 3]));
    assert_eq!(flatten_dims(&[2, 3], 3), None);
}

#[test]
fn window_sizes() {
    assert_eq!(conv_output_size(5, 3, 1, 0, 1), Some(3));
    assert_eq!(conv_output_size(5, 3, 2, 1, 1), Some(3));
    assert_eq!(conv_output_size(7, 3, 1, 0, 2), Some(3));
    assert_eq!(conv_output_size(2, 3, 1, 0, 1), None);
    assert_eq!(conv_output_size(5, 0, 1, 0, 1), None);
    assert_eq!(pool_output_size(4, 2, 2, 0, 1), Some(2));
    assert_eq!(pool_output_size(4, 2, 2, 1, 1), Some(3));
    assert_eq!(pool_output_size(7, 2, 1, 0, 2), Some(5));
    assert_eq!(pool_output_size(1, 3, 1, 0, 1), Some(0));
    assert_eq!(pool_output_size(4, 2, 0, 0, 1), None);
}

#[test]
fn padding_is_made_symmetric() {
    assert_eq!(symmetric_padding(&PaddingConfig2d::Valid), [0, 0]);
    assert_eq!(symmetric_padding(&PaddingConfig2d::Explicit(1, 2, 1, 3)), [1, 2]);
    assert_eq!(
        symmetric_padding(&PaddingConfig2d::Explicit(usize::MAX, 0, usize::MAX, 1)),
        [usize::MAX, 0]
    );
}

#[test]
fn transpose_axes() {
    assert_eq!(transpose_perm(&vec![], 3), Some(vec![2, 1, 0]));
    assert_eq!(transpose_perm(&vec![1, 0], 2), Some(vec![1, 0]));
    assert_eq!(transpose_perm(&vec![-1, 0], 2), None);
}

#[test]
fn decimal_numbers() {
    assert_eq!(decimal_string(0), "0");
    assert_eq!(decimal_string(7), "7");
    assert_eq!(decimal_string(10), "10");
    assert_eq!(decimal_string(4096), "4096");
    assert_eq!(decimal_string(usize::MAX), usize::MAX.to_string());
}

#[test]
fn the_device_is_the_flex_cpu() {
    assert!(burn_python::tensor::default_device() == burn_flex::FlexDevice);
}

#[test]
fn flatten_and_fill_keep_the_count() {
    let shape = [2, 3, 4];
    let flat = flatten_dims(&shape, 1).unwrap();
    assert_eq!(checked_product(&flat), checked_product(&shape));
    let filled = resolve_reshape_target(&[3, -1], &shape).unwrap();
    assert_eq!(filled, vec![3, 8]);
    assert_eq!(checked_product(&filled), Some(24));
}
