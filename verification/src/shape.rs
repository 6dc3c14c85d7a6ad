//! Shape arithmetic: element counts, broadcasting, and the shapes that the tensor operators
//! produce.

use vstd::prelude::*;

verus! {

/// The number of elements of a tensor with dimensions `s`.
pub open spec fn product(s: Seq<usize>) -> int
    decreases s.len(),
{
    if s.len() == 0 {
        1
    } else {
        product(s.drop_last()) * s.last()
    }
}

/// A shape with no dimension of size zero.
pub open spec fn all_positive(s: Seq<usize>) -> bool {
    forall|i: int| 0 <= i < s.len() ==> s[i] >= 1
}

pub proof fn lemma_product_nonneg(s: Seq<usize>)
    ensures
        product(s) >= 0,
    decreases s.len(),
{
    if s.len() > 0 {
        lemma_product_nonneg(s.drop_last());
        let p = product(s.drop_last());
        let x = s.last() as int;
        assert(p * x >= 0) by (nonlinear_arith)
            requires
                p >= 0,
                x >= 0,
        ;
    }
}

pub proof fn lemma_product_zero(s: Seq<usize>, k: int)
    requires
        0 <= k < s.len(),
        s[k] == 0,
    ensures
        product(s) == 0,
    decreases s.len(),
{
    let p = product(s.drop_last());
    let x = s.last() as int;
    if k == s.len() - 1 {
        assert(p * x == 0) by (nonlinear_arith)
            requires
                x == 0,
        ;
    } else {
        lemma_product_zero(s.drop_last(), k);
        assert(p * x == 0) by (nonlinear_arith)
            requires
                p == 0,
        ;
    }
}

pub proof fn lemma_product_push(s: Seq<usize>, x: usize)
    ensures
        product(s.push(x)) == product(s) * x,
{
    assert(s.push(x).drop_last() =~= s);
}

/// With no zero dimension, every prefix has at most as many elements as the whole.
pub proof fn lemma_product_prefix_le(s: Seq<usize>, k: int)
    requires
        all_positive(s),
        0 <= k <= s.len(),
    ensures
        1 <= product(s.take(k)) <= product(s),
    decreases s.len(),
{
    if k == s.len() {
        assert(s.take(k) =~= s);
        lemma_product_positive(s);
    } else {
        let t = s.drop_last();
        assert(all_positive(t));
        lemma_product_prefix_le(t, k);
        assert(t.take(k) =~= s.take(k));
        lemma_product_positive(t);
        let p = product(t);
        let x = s.last() as int;
        assert(p <= p * x) by (nonlinear_arith)
            requires
                p >= 1,
                x >= 1,
        ;
    }
}

pub proof fn lemma_product_positive(s: Seq<usize>)
    requires
        all_positive(s),
    ensures
        product(s) >= 1,
    decreases s.len(),
{
    if s.len() > 0 {
        let t = s.drop_last();
        assert(all_positive(t));
        lemma_product_positive(t);
        let p = product(t);
        let x = s.last() as int;
        assert(p * x >= 1) by (nonlinear_arith)
            requires
                p >= 1,
                x >= 1,
        ;
    }
}

/// The element count of `s`, or `None` where it does not fit in a `usize`.
pub fn checked_product(s: &[usize]) -> (r: Option<usize>)
    ensures
        r matches Some(p) ==> p == product(s@),
        r is None ==> product(s@) > usize::MAX,
{
    let n = s.len();
    let mut i: usize = 0;
    while i < n
        invariant
            n == s@.len(),
            0 <= i <= n,
            forall|j: int| 0 <= j < i ==> s@[j] >= 1,
        decreases n - i,
    {
        if s[i] == 0 {
            proof {
                lemma_product_zero(s@, i as int);
            }
            return Some(0);
        }
        i = i + 1;
    }
    let mut acc: usize = 1;
    let mut i: usize = 0;
    while i < n
        invariant
            n == s@.len(),
            0 <= i <= n,
            all_positive(s@),
            acc == product(s@.take(i as int)),
        decreases n - i,
    {
        proof {
            assert(s@.take(i + 1) =~= s@.take(i as int).push(s@[i as int]));
            lemma_product_push(s@.take(i as int), s@[i as int]);
        }
        match acc.checked_mul(s[i]) {
            Some(v) => {
                acc = v;
            },
            None => {
                proof {
                    lemma_product_prefix_le(s@, i + 1);
                }
                return None;
            },
        }
        i = i + 1;
    }
    assert(s@.take(n as int) =~= s@);
    Some(acc)
}

// ---------------------------------------------------------------------------------------------
// Broadcasting

/// The size of dimension `i` of `s` once `s` is aligned to the right within `n` dimensions, the
/// missing leading dimensions counting as 1.
pub open spec fn aligned_dim(s: Seq<usize>, n: int, i: int) -> int {
    let off = n - s.len();
    if i < off {
        1
    } else {
        s[i - off] as int
    }
}

pub open spec fn max_rank(a: Seq<usize>, b: Seq<usize>) -> int {
    if a.len() >= b.len() {
        a.len() as int
    } else {
        b.len() as int
    }
}

/// Two shapes can be broadcast together: aligned to the right, each pair of dimensions is equal
/// or one of them is 1.
pub open spec fn broadcastable(a: Seq<usize>, b: Seq<usize>) -> bool {
    let n = max_rank(a, b);
    forall|i: int|
        #![trigger aligned_dim(a, n, i)]
        0 <= i < n ==> {
            let x = aligned_dim(a, n, i);
            let y = aligned_dim(b, n, i);
            x == y || x == 1 || y == 1
        }
}

/// The shape that two broadcastable shapes broadcast to.
pub open spec fn broadcast_shape(a: Seq<usize>, b: Seq<usize>) -> Seq<usize> {
    let n = max_rank(a, b);
    Seq::new(
        n as nat,
        |i: int|
            if aligned_dim(a, n, i) == 1 {
                aligned_dim(b, n, i) as usize
            } else {
                aligned_dim(a, n, i) as usize
            },
    )
}

/// The broadcast of two shapes, or `None` where they cannot be broadcast together.
pub fn broadcast_shapes(a: &[usize], b: &[usize]) -> (r: Option<Vec<usize>>)
    ensures
        r is Some <==> broadcastable(a@, b@),
        r matches Some(s) ==> s@ == broadcast_shape(a@, b@),
{
    let r = broadcast_prefixes(a, a.len(), b, b.len());
    assert(a@.take(a@.len() as int) =~= a@);
    assert(b@.take(b@.len() as int) =~= b@);
    r
}

/// The broadcast of the first `na` dimensions of `a` with the first `nb` dimensions of `b`.
fn broadcast_prefixes(a: &[usize], na: usize, b: &[usize], nb: usize) -> (r: Option<Vec<usize>>)
    requires
        na <= a@.len(),
        nb <= b@.len(),
    ensures
        r is Some <==> broadcastable(a@.take(na as int), b@.take(nb as int)),
        r matches Some(s) ==> s@ == broadcast_shape(a@.take(na as int), b@.take(nb as int)),
{
    let ghost ga = a@.take(na as int);
    let ghost gb = b@.take(nb as int);
    let n = if na >= nb {
        na
    } else {
        nb
    };
    let ghost gn = n as int;
    let mut out: Vec<usize> = Vec::new();
    let mut i: usize = 0;
    while i < n
        invariant
            na <= a@.len(),
            nb <= b@.len(),
            ga == a@.take(na as int),
            gb == b@.take(nb as int),
            gn == n,
            n == max_rank(ga, gb),
            0 <= i <= n,
            out@.len() == i,
            forall|j: int|
                #![trigger aligned_dim(ga, gn, j)]
                0 <= j < i ==> {
                    let x = aligned_dim(ga, gn, j);
                    let y = aligned_dim(gb, gn, j);
                    &&& (x == y || x == 1 || y == 1)
                    &&& out@[j] == (if x == 1 {
                        y as usize
                    } else {
                        x as usize
                    })
                },
        decreases n - i,
    {
        let x: usize = if i < n - na {
            1
        } else {
            a[i - (n - na)]
        };
        let y: usize = if i < n - nb {
            1
        } else {
            b[i - (n - nb)]
        };
        assert(x == aligned_dim(ga, gn, i as int));
        assert(y == aligned_dim(gb, gn, i as int));
        if x != y && x != 1 && y != 1 {
            return None;
        }
        if x == 1 {
            out.push(y);
        } else {
            out.push(x);
        }
        i = i + 1;
    }
    assert(out@ =~= broadcast_shape(ga, gb));
    Some(out)
}

// ---------------------------------------------------------------------------------------------
// Matrix product

/// The batch dimensions of a matrix operand: all but the last two.
pub open spec fn batch_dims(s: Seq<usize>) -> Seq<usize> {
    s.take(s.len() - 2)
}

/// No aligned pair of dimensions is a 1 against a 0 (the missing leading dimensions counting
/// as 1).
pub open spec fn no_one_against_zero(a: Seq<usize>, b: Seq<usize>) -> bool {
    let n = max_rank(a, b);
    forall|i: int|
        #![trigger aligned_dim(a, n, i)]
        0 <= i < n ==> {
            let x = aligned_dim(a, n, i);
            let y = aligned_dim(b, n, i);
            !(x == 1 && y == 0) && !(x == 0 && y == 1)
        }
}

/// Shapes that a batched matrix product accepts: at least two dimensions each, matching inner
/// sizes, and batch dimensions that broadcast, where no batch size 1 meets a batch size 0 (the
/// backend sizes such a batch by the larger of the two and reads past the empty operand).
pub open spec fn matmul_compatible(a: Seq<usize>, b: Seq<usize>) -> bool {
    &&& a.len() >= 2
    &&& b.len() >= 2
    &&& a[a.len() - 1] == b[b.len() - 2]
    &&& broadcastable(batch_dims(a), batch_dims(b))
    &&& no_one_against_zero(batch_dims(a), batch_dims(b))
}

/// Whether the first `na` dimensions of `a` and the first `nb` of `b` never pair a 1 with a 0.
fn check_no_one_against_zero(a: &[usize], na: usize, b: &[usize], nb: usize) -> (r: bool)
    requires
        na <= a@.len(),
        nb <= b@.len(),
    ensures
        r == no_one_against_zero(a@.take(na as int), b@.take(nb as int)),
{
    let ghost ga = a@.take(na as int);
    let ghost gb = b@.take(nb as int);
    let n = if na >= nb {
        na
    } else {
        nb
    };
    let ghost gn = n as int;
    let mut i: usize = 0;
    while i < n
        invariant
            na <= a@.len(),
            nb <= b@.len(),
            ga == a@.take(na as int),
            gb == b@.take(nb as int),
            gn == n,
            n == max_rank(ga, gb),
            0 <= i <= n,
            forall|j: int|
                #![trigger aligned_dim(ga, gn, j)]
                0 <= j < i ==> {
                    let x = aligned_dim(ga, gn, j);
                    let y = aligned_dim(gb, gn, j);
                    !(x == 1 && y == 0) && !(x == 0 && y == 1)
                },
        decreases n - i,
    {
        let x: usize = if i < n - na {
            1
        } else {
            a[i - (n - na)]
        };
        let y: usize = if i < n - nb {
            1
        } else {
            b[i - (n - nb)]
        };
        assert(x == aligned_dim(ga, gn, i as int));
        assert(y == aligned_dim(gb, gn, i as int));
        if (x == 1 && y == 0) || (x == 0 && y == 1) {
            return false;
        }
        i = i + 1;
    }
    true
}

/// The shape of the batched product `[..., m, k] x [..., k, n]`: the broadcast batch followed by
/// `m, n`.
pub open spec fn matmul_shape(a: Seq<usize>, b: Seq<usize>) -> Seq<usize> {
    broadcast_shape(batch_dims(a), batch_dims(b)).push(a[a.len() - 2]).push(b[b.len() - 1])
}

/// The shape of the matrix product of operands shaped `a` and `b`, or `None` where the product
/// is not defined.
pub fn matmul_dims(a: &[usize], b: &[usize]) -> (r: Option<Vec<usize>>)
    ensures
        r is Some <==> matmul_compatible(a@, b@),
        r matches Some(s) ==> s@ == matmul_shape(a@, b@),
{
    let la = a.len();
    let lb = b.len();
    if la < 2 || lb < 2 {
        return None;
    }
    if a[la - 1] != b[lb - 2] {
        return None;
    }
    if !check_no_one_against_zero(a, la - 2, b, lb - 2) {
        return None;
    }
    match broadcast_prefixes(a, la - 2, b, lb - 2) {
        None => None,
        Some(mut out) => {
            out.push(a[la - 2]);
            out.push(b[lb - 1]);
            Some(out)
        },
    }
}

// ---------------------------------------------------------------------------------------------
// Axis reordering

/// `s` with dimensions `i` and `j` exchanged.
pub open spec fn swapped(s: Seq<usize>, i: int, j: int) -> Seq<usize> {
    s.update(i, s[j]).update(j, s[i])
}

/// `axes` lists each of `0..n` exactly once.
pub open spec fn is_permutation(axes: Seq<usize>, n: int) -> bool {
    &&& axes.len() == n
    &&& forall|k: int| 0 <= k < axes.len() ==> axes[k] < n
    &&& forall|k: int, l: int| 0 <= k < l < axes.len() ==> axes[k] != axes[l]
}

/// The dimensions of `s` in the order `axes`.
pub open spec fn permuted(s: Seq<usize>, axes: Seq<usize>) -> Seq<usize> {
    Seq::new(axes.len(), |k: int| s[axes[k] as int])
}

/// Whether `axes` is a permutation of `0..n`.
pub fn check_permutation(axes: &[usize], n: usize) -> (r: bool)
    ensures
        r == is_permutation(axes@, n as int),
{
    if axes.len() != n {
        return false;
    }
    let mut seen: Vec<bool> = Vec::new();
    let mut i: usize = 0;
    while i < n
        invariant
            0 <= i <= n,
            seen@.len() == i,
            forall|j: int| 0 <= j < i ==> !seen@[j],
        decreases n - i,
    {
        seen.push(false);
        i = i + 1;
    }
    let mut k: usize = 0;
    while k < n
        invariant
            axes@.len() == n,
            seen@.len() == n,
            0 <= k <= n,
            forall|p: int| 0 <= p < k ==> axes@[p] < n,
            forall|p: int, q: int| 0 <= p < q < k ==> axes@[p] != axes@[q],
            forall|v: int|
                0 <= v < n ==> (seen@[v] <==> exists|p: int| 0 <= p < k && axes@[p] == v),
        decreases n - k,
    {
        let v = axes[k];
        if v >= n {
            return false;
        }
        if seen[v] {
            assert(exists|p: int| 0 <= p < k && axes@[p] == v);
            return false;
        }
        seen.set(v, true);
        k = k + 1;
        assert forall|w: int| 0 <= w < n implies (seen@[w] <==> exists|p: int|
            0 <= p < k && axes@[p] == w) by {
            if w != v && !seen@[w] {
                if exists|p: int| 0 <= p < k && axes@[p] == w {
                    let p = choose|p: int| 0 <= p < k && axes@[p] == w;
                    assert(p != k - 1);
                }
            }
            if w == v {
                assert(axes@[k - 1] == w);
            }
        }
    }
    true
}

// ---------------------------------------------------------------------------------------------
// ONNX `Reshape` targets

/// The sizes that the entries of a `Reshape` target multiply to when filling entry `skip`: every
/// entry but `skip` and the `-1` entries, a `0` entry taken as the input's dimension at its
/// position and any other entry as its value.
pub open spec fn known_factors(raw: Seq<i64>, orig: Seq<usize>, skip: int) -> Seq<usize> {
    Seq::new(
        raw.len(),
        |j: int|
            if j == skip || raw[j] == -1 {
                1usize
            } else if raw[j] == 0 {
                orig[j]
            } else {
                raw[j] as usize
            },
    )
}

/// A `Reshape` target that the interpreter can resolve against an input of shape `orig`: no entry
/// below -1 or beyond `usize`, each `-1` filled from a nonzero product of the other entries that
/// fits in a `usize`, each `0` copying a dimension that the input has, and an input whose element
/// count fits in a `usize`.
pub open spec fn reshape_target_resolvable(raw: Seq<i64>, orig: Seq<usize>) -> bool {
    &&& product(orig) <= usize::MAX
    &&& forall|i: int| 0 <= i < raw.len() ==> -1 <= #[trigger] raw[i] <= usize::MAX
    &&& forall|i: int|
        0 <= i < raw.len() && #[trigger] raw[i] == -1 ==> 0 < product(known_factors(raw, orig, i))
            <= usize::MAX
    &&& forall|i: int| 0 <= i < raw.len() && #[trigger] raw[i] == 0 ==> i < orig.len()
}

/// The shape a resolvable `Reshape` target stands for: `-1` takes the input's element count
/// divided by the product of the other entries, `0` copies the input's dimension at the same
/// position, any other entry is the size itself.
pub open spec fn reshape_target(raw: Seq<i64>, orig: Seq<usize>) -> Seq<usize> {
    Seq::new(
        raw.len(),
        |i: int|
            if raw[i] == -1 {
                (product(orig) / product(known_factors(raw, orig, i))) as usize
            } else if raw[i] == 0 {
                orig[i]
            } else {
                raw[i] as usize
            },
    )
}

/// Two shapes that agree but at position `i`, where `k` has size 1: the count of `s` is the count
/// of `k` times the size of `s` at `i`.
pub proof fn lemma_product_replace(s: Seq<usize>, k: Seq<usize>, i: int)
    requires
        s.len() == k.len(),
        0 <= i < s.len(),
        k[i] == 1,
        forall|j: int| 0 <= j < s.len() && j != i ==> s[j] == k[j],
    ensures
        product(s) == product(k) * s[i],
    decreases s.len(),
{
    let n = s.len() - 1;
    let sd = s.drop_last();
    let kd = k.drop_last();
    if i == n {
        assert(sd =~= kd);
    } else {
        lemma_product_replace(sd, kd, i);
        let ps = product(kd);
        let x = s.last() as int;
        let y = s[i] as int;
        assert(ps * y * x == ps * x * y) by (nonlinear_arith);
    }
}

/// A `Reshape` target with a single `-1` entry keeps the element count of the input wherever the
/// product of its other entries divides that count.
pub proof fn law_reshape_fill_keeps_count(raw: Seq<i64>, orig: Seq<usize>, i: int)
    requires
        reshape_target_resolvable(raw, orig),
        0 <= i < raw.len(),
        raw[i] == -1,
        forall|j: int| 0 <= j < raw.len() && j != i ==> raw[j] != -1,
        product(orig) % product(known_factors(raw, orig, i)) == 0,
    ensures
        product(reshape_target(raw, orig)) == product(orig),
{
    let t = reshape_target(raw, orig);
    let k = known_factors(raw, orig, i);
    let kp = product(k);
    let p = product(orig);
    assert(0 < kp);
    assert forall|j: int| 0 <= j < raw.len() && j != i implies t[j] == k[j] by {}
    lemma_product_replace(t, k, i);
    lemma_product_nonneg(orig);
    assert(kp * (p / kp) == p) by (nonlinear_arith)
        requires
            0 < kp,
            p % kp == 0,
    ;
    assert(0 <= p / kp <= p) by (nonlinear_arith)
        requires
            0 < kp,
            0 <= p,
    ;
}

/// Resolves a `Reshape` target against the input shape `orig`, or `None` where it cannot be
/// resolved.
pub fn resolve_reshape_target(raw: &[i64], orig: &[usize]) -> (r: Option<Vec<usize>>)
    ensures
        r is Some <==> reshape_target_resolvable(raw@, orig@),
        r matches Some(s) ==> s@ == reshape_target(raw@, orig@),
{
    let total = match checked_product(orig) {
        Some(t) => t,
        None => return None,
    };
    let n = raw.len();
    let mut i: usize = 0;
    while i < n
        invariant
            n == raw@.len(),
            0 <= i <= n,
            forall|j: int| 0 <= j < i ==> -1 <= #[trigger] raw@[j] <= usize::MAX,
        decreases n - i,
    {
        if raw[i] < -1 || raw[i] as i128 > usize::MAX as i128 {
            return None;
        }
        i = i + 1;
    }
    let mut out: Vec<usize> = Vec::new();
    let mut i: usize = 0;
    while i < n
        invariant
            n == raw@.len(),
            0 <= i <= n,
            total == product(orig@),
            forall|j: int| 0 <= j < n ==> -1 <= #[trigger] raw@[j] <= usize::MAX,
            forall|j: int|
                0 <= j < i && #[trigger] raw@[j] == -1 ==> 0 < product(known_factors(raw@, orig@, j))
                    <= usize::MAX,
            forall|j: int| 0 <= j < i && #[trigger] raw@[j] == 0 ==> j < orig@.len(),
            out@.len() == i,
            forall|j: int| 0 <= j < i ==> out@[j] == #[trigger] reshape_target(raw@, orig@)[j],
        decreases n - i,
    {
        let v = raw[i];
        if v == -1 {
            let factors = match known_factor_vec(raw, orig, i) {
                Some(f) => f,
                None => return None,
            };
            let known = match checked_product(&factors) {
                Some(k) => k,
                None => return None,
            };
            if known == 0 {
                return None;
            }
            out.push(total / known);
        } else if v == 0 {
            if i >= orig.len() {
                return None;
            }
            out.push(orig[i]);
        } else {
            out.push(v as usize);
        }
        i = i + 1;
    }
    assert(out@ =~= reshape_target(raw@, orig@));
    Some(out)
}

/// The factors of `known_factors`, or `None` where a `0` entry other than `skip` has no input
/// dimension to copy.
fn known_factor_vec(raw: &[i64], orig: &[usize], skip: usize) -> (r: Option<Vec<usize>>)
    requires
        forall|j: int| 0 <= j < raw@.len() ==> -1 <= #[trigger] raw@[j] <= usize::MAX,
    ensures
        r matches Some(v) ==> v@ == known_factors(raw@, orig@, skip as int),
        r is None ==> exists|j: int|
            0 <= j < raw@.len() && j != skip && #[trigger] raw@[j] == 0 && j >= orig@.len(),
{
    let mut out: Vec<usize> = Vec::new();
    let mut j: usize = 0;
    while j < raw.len()
        invariant
            forall|k: int| 0 <= k < raw@.len() ==> -1 <= #[trigger] raw@[k] <= usize::MAX,
            0 <= j <= raw@.len(),
            out@.len() == j,
            forall|k: int|
                0 <= k < j ==> out@[k] == #[trigger] known_factors(raw@, orig@, skip as int)[k],
        decreases raw@.len() - j,
    {
        if j == skip || raw[j] == -1 {
            out.push(1);
        } else if raw[j] == 0 {
            if j >= orig.len() {
                return None;
            }
            out.push(orig[j]);
        } else {
            out.push(raw[j] as usize);
        }
        j = j + 1;
    }
    assert(out@ =~= known_factors(raw@, orig@, skip as int));
    Some(out)
}

// ---------------------------------------------------------------------------------------------
// `Flatten`

/// The two dimensions `Flatten` gives to a shape `s` at `axis`: the element count before the axis
/// (at least 1) and the element count from the axis on.
pub open spec fn flatten_shape(s: Seq<usize>, axis: int) -> Seq<usize> {
    let outer = product(s.take(axis));
    seq![
        (if outer >= 1 {
            outer
        } else {
            1
        }) as usize,
        product(s.skip(axis)) as usize,
    ]
}

/// The element count of two shapes one after the other is the product of their counts.
pub proof fn lemma_product_concat(a: Seq<usize>, b: Seq<usize>)
    ensures
        product(a + b) == product(a) * product(b),
    decreases b.len(),
{
    if b.len() == 0 {
        assert(a + b =~= a);
    } else {
        lemma_product_concat(a, b.drop_last());
        assert((a + b).drop_last() =~= a + b.drop_last());
        assert((a + b).last() == b.last());
        let pa = product(a);
        let pb = product(b.drop_last());
        let x = b.last() as int;
        assert(pa * pb * x == pa * (pb * x)) by (nonlinear_arith);
    }
}

/// `Flatten` keeps the element count wherever no dimension before the axis is empty: the two
/// dimensions it gives multiply to the count of the shape.
pub proof fn law_flatten_keeps_count(s: Seq<usize>, axis: int)
    requires
        flatten_computable(s, axis),
        product(s.take(axis)) >= 1,
    ensures
        product(flatten_shape(s, axis)) == product(s),
{
    lemma_product_nonneg(s.skip(axis));
    lemma_product_concat(s.take(axis), s.skip(axis));
    assert(s.take(axis) + s.skip(axis) =~= s);
    let f = flatten_shape(s, axis);
    let outer = product(s.take(axis));
    let inner = product(s.skip(axis));
    assert(f[0] == outer && f[1] == inner);
    lemma_product_push(Seq::<usize>::empty(), f[0]);
    lemma_product_push(Seq::<usize>::empty().push(f[0]), f[1]);
    assert(Seq::<usize>::empty().push(f[0]).push(f[1]) =~= f);
}

/// `Flatten` can compute its two dimensions: the axis is within the rank and both element counts
/// fit in a `usize`.
pub open spec fn flatten_computable(s: Seq<usize>, axis: int) -> bool {
    &&& 0 <= axis <= s.len()
    &&& product(s.take(axis)) <= usize::MAX
    &&& product(s.skip(axis)) <= usize::MAX
}

/// The two dimensions `Flatten` gives to shape `s` at `axis`, or `None` where they cannot be
/// computed.
pub fn flatten_dims(s: &[usize], axis: usize) -> (r: Option<Vec<usize>>)
    ensures
        r is Some <==> flatten_computable(s@, axis as int),
        r matches Some(v) ==> v@ == flatten_shape(s@, axis as int),
{
    if axis > s.len() {
        return None;
    }
    let mut head: Vec<usize> = Vec::new();
    let mut tail: Vec<usize> = Vec::new();
    let mut i: usize = 0;
    while i < s.len()
        invariant
            axis <= s@.len(),
            0 <= i <= s@.len(),
            i <= axis ==> head@ =~= s@.take(i as int),
            i <= axis ==> tail@.len() == 0,
            i > axis ==> head@ =~= s@.take(axis as int),
            i > axis ==> tail@ =~= s@.subrange(axis as int, i as int),
        decreases s@.len() - i,
    {
        if i < axis {
            head.push(s[i]);
        } else {
            tail.push(s[i]);
        }
        i = i + 1;
    }
    if axis == s.len() {
        assert(head@ =~= s@.take(axis as int));
    }
    assert(tail@ =~= s@.skip(axis as int));
    let outer = match checked_product(&head) {
        Some(p) => p,
        None => return None,
    };
    let inner = match checked_product(&tail) {
        Some(p) => p,
        None => return None,
    };
    let outer = if outer >= 1 {
        outer
    } else {
        1
    };
    let mut out: Vec<usize> = Vec::new();
    out.push(outer);
    out.push(inner);
    assert(out@ =~= flatten_shape(s@, axis as int));
    Some(out)
}

// ---------------------------------------------------------------------------------------------
// Convolution and pooling windows

/// The output length of a convolution along one axis: `(n + 2p - d(k - 1) - 1) / s + 1`.
pub open spec fn conv_output_len(n: int, k: int, s: int, p: int, d: int) -> int {
    (n + 2 * p - d * (k - 1) - 1) / s + 1
}

/// The dilated kernel fits in the padded input, and neither size overflows a `usize`.
pub open spec fn conv_window_fits(n: int, k: int, s: int, p: int, d: int) -> bool {
    &&& k >= 1
    &&& s >= 1
    &&& d >= 1
    &&& n + 2 * p <= usize::MAX
    &&& d * (k - 1) + 1 <= n + 2 * p
}

/// The output length of a convolution window along one axis, or `None` where the window does
/// not fit.
pub fn conv_output_size(n: usize, k: usize, s: usize, p: usize, d: usize) -> (r: Option<usize>)
    ensures
        r is Some <==> conv_window_fits(n as int, k as int, s as int, p as int, d as int),
        r matches Some(v) ==> v == conv_output_len(n as int, k as int, s as int, p as int, d as int),
{
    if k == 0 || s == 0 || d == 0 {
        return None;
    }
    let padded = match p.checked_mul(2) {
        Some(pp) => match n.checked_add(pp) {
            Some(v) => v,
            None => return None,
        },
        None => return None,
    };
    let span = match d.checked_mul(k - 1) {
        Some(v) => v,
        None => {
            assert(d * (k - 1) + 1 > n + 2 * p) by (nonlinear_arith)
                requires
                    d * (k - 1) > usize::MAX,
                    n + 2 * p <= usize::MAX,
            ;
            return None;
        },
    };
    if span >= padded {
        return None;
    }
    let out = (padded - span - 1) / s + 1;
    Some(out)
}

/// The output length of a pooling window along one axis (without ceiling mode): 0 where the
/// dilated window is longer than the padded input, otherwise `(n + 2p - (d(k - 1) + 1)) / s + 1`.
pub open spec fn pool_output_len(n: int, k: int, s: int, p: int, d: int) -> int {
    let window = d * (k - 1) + 1;
    if n + 2 * p < window {
        0
    } else {
        (n + 2 * p - window) / s + 1
    }
}

/// A pooling window the backend accepts: nonzero kernel and stride, and sizes that fit in a
/// `usize`.
pub open spec fn pool_window_valid(n: int, k: int, s: int, p: int, d: int) -> bool {
    &&& k >= 1
    &&& s >= 1
    &&& n + 2 * p <= usize::MAX
    &&& d * (k - 1) + 1 <= usize::MAX
}

/// The output length of a pooling window along one axis, or `None` where the window is not
/// valid.
pub fn pool_output_size(n: usize, k: usize, s: usize, p: usize, d: usize) -> (r: Option<usize>)
    ensures
        r is Some <==> pool_window_valid(n as int, k as int, s as int, p as int, d as int),
        r matches Some(v) ==> v == pool_output_len(n as int, k as int, s as int, p as int, d as int),
{
    if k == 0 || s == 0 {
        return None;
    }
    let padded = match p.checked_mul(2) {
        Some(pp) => match n.checked_add(pp) {
            Some(v) => v,
            None => return None,
        },
        None => return None,
    };
    let window = match d.checked_mul(k - 1) {
        Some(v) => match v.checked_add(1) {
            Some(w) => w,
            None => return None,
        },
        None => return None,
    };
    if padded < window {
        Some(0)
    } else {
        Some((padded - window) / s + 1)
    }
}

} // verus!
