//! Tensors: multi-dimensional numeric arrays stored in row-major order.
//!
//! The orchestration layer never looks inside an element — elements are
//! carried as opaque 32-bit scalar words (the bit pattern of the value the
//! embedding application computes with), so a reconstructed tensor is
//! bit-identical to the one it was built from. What this crate does reason
//! about is the shape: every tensor maintains the invariant that its element
//! count equals the product of its dimension sizes.

use vstd::prelude::*;

verus! {

/// Mathematical model of a [`Tensor`]: a dimension list and the row-major
/// element sequence.
pub struct TensorView {
    pub shape: Seq<usize>,
    pub data: Seq<u32>,
}

/// The mathematical sequence of element words a kernel result is modeled
/// by. Embedding applications name this type only in the specification
/// members of [`crate::layers::LayerBackend`], which no code ever runs.
pub type WordSeq = Seq<u32>;

/// Product of a dimension list, as an unbounded natural number.
pub open spec fn shape_product(s: Seq<usize>) -> nat
    decreases s.len(),
{
    if s.len() == 0 {
        1
    } else {
        s[0] as nat * shape_product(s.skip(1))
    }
}

/// A multi-dimensional array of opaque 32-bit scalar words.
#[derive(Debug)]
pub struct Tensor {
    shape: Vec<usize>,
    data: Vec<u32>,
}

impl View for Tensor {
    type V = TensorView;

    closed spec fn view(&self) -> TensorView {
        TensorView { shape: self.shape@, data: self.data@ }
    }
}

impl Tensor {
    #[verifier::type_invariant]
    spec fn shape_matches_data(self) -> bool {
        self.data@.len() == shape_product(self.shape@)
    }

    /// Builds a tensor from a dimension list and a row-major element list.
    /// Succeeds exactly when the element count equals the product of the
    /// dimensions.
    pub fn new(shape: Vec<usize>, data: Vec<u32>) -> (r: Option<Tensor>)
        ensures
            r is Some <==> data@.len() == shape_product(shape@),
            r is Some ==> r->0@ == (TensorView { shape: shape@, data: data@ }),
    {
        let elems: usize = data.len();
        match checked_product(&shape) {
            Some(n) if n == elems => Some(Tensor { shape, data }),
            _ => None,
        }
    }

    /// The dimension list.
    pub fn shape(&self) -> (r: &Vec<usize>)
        ensures
            r@ == self@.shape,
    {
        &self.shape
    }

    /// The elements, row-major.
    pub fn data(&self) -> (r: &Vec<u32>)
        ensures
            r@ == self@.data,
    {
        &self.data
    }

    /// Number of dimensions.
    pub fn rank(&self) -> (r: usize)
        ensures
            r == self@.shape.len(),
    {
        self.shape.len()
    }

    /// Number of elements. Always the product of the dimensions: the
    /// constructor admits nothing else.
    pub fn len(&self) -> (r: usize)
        ensures
            r == self@.data.len(),
            self@.data.len() == shape_product(self@.shape),
    {
        proof {
            use_type_invariant(self);
        }
        self.data.len()
    }

    /// An owned copy of the elements, row-major.
    pub fn data_owned(&self) -> (r: Vec<u32>)
        ensures
            r@ == self@.data,
    {
        clone_words(&self.data)
    }

    /// An identical tensor: same shape, bit-identical elements.
    pub fn duplicate(&self) -> (r: Tensor)
        ensures
            r@ == self@,
    {
        proof {
            use_type_invariant(self);
        }
        let shape: Vec<usize> = clone_usizes(&self.shape);
        let data: Vec<u32> = clone_words(&self.data);
        Tensor { shape, data }
    }
}

/// Builds a tensor whose consistency the caller has already established.
pub(crate) fn from_parts(shape: Vec<usize>, data: Vec<u32>) -> (r: Tensor)
    requires
        data@.len() == shape_product(shape@),
    ensures
        r@ == (TensorView { shape: shape@, data: data@ }),
{
    Tensor { shape, data }
}

/// Copies a dimension list.
pub(crate) fn clone_usizes(v: &Vec<usize>) -> (r: Vec<usize>)
    ensures
        r@ == v@,
{
    let mut r: Vec<usize> = Vec::new();
    let mut i: usize = 0;
    while i < v.len()
        invariant
            i <= v.len(),
            r@ == v@.take(i as int),
        decreases v.len() - i,
    {
        r.push(v[i]);
        i += 1;
        proof {
            assert(r@ =~= v@.take(i as int));
        }
    }
    proof {
        assert(r@ =~= v@);
    }
    r
}

/// Copies an element list.
fn clone_words(v: &Vec<u32>) -> (r: Vec<u32>)
    ensures
        r@ == v@,
{
    let mut r: Vec<u32> = Vec::new();
    let mut i: usize = 0;
    while i < v.len()
        invariant
            i <= v.len(),
            r@ == v@.take(i as int),
        decreases v.len() - i,
    {
        r.push(v[i]);
        i += 1;
        proof {
            assert(r@ =~= v@.take(i as int));
        }
    }
    proof {
        assert(r@ =~= v@);
    }
    r
}

/// `n` capped at the largest `usize`: cost figures saturate instead of
/// wrapping.
pub open spec fn capped(n: nat) -> nat {
    if n > usize::MAX {
        usize::MAX as nat
    } else {
        n
    }
}

/// Capping the factors of a product before capping the product loses
/// nothing: saturating multiplications compose.
pub proof fn lemma_capped_mul(a: nat, b: nat)
    ensures
        capped(capped(a) * capped(b)) == capped(a * b),
{
    let m = usize::MAX as nat;
    if a == 0 || b == 0 {
        assert(capped(a) * capped(b) == 0) by (nonlinear_arith)
            requires
                capped(a) == 0 || capped(b) == 0,
        ;
        assert(a * b == 0) by (nonlinear_arith)
            requires
                a == 0 || b == 0,
        ;
    } else if a <= m && b <= m {
        assert(capped(a) == a && capped(b) == b);
        assert(capped(capped(a) * capped(b)) == capped(a * b));
    } else {
        assert(a * b >= a && a * b >= b) by (nonlinear_arith)
            requires
                a >= 1,
                b >= 1,
        ;
        assert(capped(a) * capped(b) >= capped(a) && capped(a) * capped(b) >= capped(b))
            by (nonlinear_arith)
            requires
                capped(a) >= 1,
                capped(b) >= 1,
        ;
        if a > m {
            assert(capped(a) == m);
            assert(a * b > m);
        } else {
            assert(b > m);
            assert(capped(b) == m);
            assert(a * b > m);
        }
        assert(capped(a) * capped(b) >= m);
        assert(capped(capped(a) * capped(b)) == m);
        assert(capped(a * b) == m);
    }
}

/// Saturating product of two sizes.
pub fn sat_mul(a: usize, b: usize) -> (r: usize)
    ensures
        r == capped(a as nat * b as nat),
{
    match a.checked_mul(b) {
        Some(r) => r,
        None => usize::MAX,
    }
}

/// Saturating sum of two sizes.
pub fn sat_add(a: usize, b: usize) -> (r: usize)
    ensures
        r == capped(a as nat + b as nat),
{
    match a.checked_add(b) {
        Some(r) => r,
        None => usize::MAX,
    }
}

/// Product of a dimension list; `None` exactly when the product does not
/// fit a `usize`.
pub(crate) fn checked_product(shape: &Vec<usize>) -> (r: Option<usize>)
    ensures
        r is Some <==> shape_product(shape@) <= usize::MAX,
        r is Some ==> r->0 == shape_product(shape@),
{
    let mut i: usize = 0;
    while i < shape.len()
        invariant
            i <= shape.len(),
            forall|j: int| 0 <= j < i ==> shape@[j] >= 1,
        decreases shape.len() - i,
    {
        if shape[i] == 0 {
            proof {
                lemma_product_zero(shape@, i as int);
            }
            return Some(0);
        }
        i += 1;
    }
    let mut acc: usize = 1;
    let mut k: usize = shape.len();
    proof {
        assert(shape@.skip(k as int) =~= Seq::<usize>::empty());
    }
    while k > 0
        invariant
            k <= shape.len(),
            forall|j: int| 0 <= j < shape@.len() ==> shape@[j] >= 1,
            acc == shape_product(shape@.skip(k as int)),
            shape_product(shape@.skip(k as int)) <= usize::MAX,
        decreases k,
    {
        k -= 1;
        proof {
            lemma_product_step(shape@, k as int);
        }
        match shape[k].checked_mul(acc) {
            Some(p) => {
                acc = p;
            }
            None => {
                proof {
                    lemma_product_lower_bound(shape@, k as int);
                }
                return None;
            }
        }
    }
    proof {
        assert(shape@.skip(0) =~= shape@);
    }
    Some(acc)
}

/// One unfolding step: the product of the suffix at `i` is dimension `i`
/// times the product of the suffix at `i + 1`.
proof fn lemma_product_step(s: Seq<usize>, i: int)
    requires
        0 <= i < s.len(),
    ensures
        shape_product(s.skip(i)) == s[i] * shape_product(s.skip(i + 1)),
{
    assert(s.skip(i)[0] == s[i]);
    assert(s.skip(i).skip(1) =~= s.skip(i + 1));
}

/// A zero dimension makes the whole product zero.
proof fn lemma_product_zero(s: Seq<usize>, i: int)
    requires
        0 <= i < s.len(),
        s[i] == 0,
    ensures
        shape_product(s) == 0,
    decreases i,
{
    lemma_product_step(s, 0);
    if i > 0 {
        assert(s.skip(1)[i - 1] == s[i]);
        lemma_product_zero(s.skip(1), i - 1);
    }
}

/// With no zero dimension to its left, a suffix product that exceeds the
/// representable range carries the whole product out of range too.
proof fn lemma_product_lower_bound(s: Seq<usize>, i: int)
    requires
        0 <= i <= s.len(),
        forall|j: int| 0 <= j < i ==> s[j] >= 1,
        shape_product(s.skip(i)) > usize::MAX,
    ensures
        shape_product(s) > usize::MAX,
    decreases i,
{
    if i == 0 {
        assert(s.skip(0) =~= s);
    } else {
        lemma_product_step(s, i - 1);
        assert(s[i - 1] * shape_product(s.skip(i)) >= shape_product(s.skip(i)))
            by (nonlinear_arith)
            requires
                s[i - 1] >= 1,
                shape_product(s.skip(i)) >= 0,
        ;
        lemma_product_lower_bound(s, i - 1);
    }
}

} // verus!
