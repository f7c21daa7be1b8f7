//! Typed control descriptors, and the length rule for array controls.
use vstd::prelude::*;

use core::marker::PhantomData;

verus! {

/// Whether a control belongs to the frozen public property set or to the
/// experimental one.
#[derive(Clone, Copy, Debug, PartialEq, Eq, Structural)]
pub enum ControlNamespace {
    Stable,
    Draft,
}

/// A statically typed property descriptor: a stable numeric id bound to the
/// host type `T` that values of the property are read and written as.
#[derive(Debug)]
pub struct Control<T> {
    id: u32,
    namespace: ControlNamespace,
    marker: PhantomData<T>,
}

impl<T> Control<T> {
    pub closed spec fn spec_id(&self) -> u32 {
        self.id
    }

    pub closed spec fn spec_namespace(&self) -> ControlNamespace {
        self.namespace
    }

    pub fn new(id: u32, namespace: ControlNamespace) -> (r: Control<T>)
        ensures
            r.spec_id() == id,
            r.spec_namespace() == namespace,
    {
        Control { id, namespace, marker: PhantomData }
    }

    pub fn id(&self) -> (r: u32)
        ensures
            r == self.spec_id(),
    {
        self.id
    }

    pub fn namespace(&self) -> (r: ControlNamespace)
        ensures
            r == self.spec_namespace(),
    {
        self.namespace
    }
}

/// One dimension of an array control as a property schema gives it: a number
/// of elements, or a name that stands for a length known only at run time.
#[derive(Debug)]
pub enum SchemaDimension {
    Count(u64),
    Named(String),
}

/// How long the values of an array control are.
#[derive(Clone, Copy, Debug, PartialEq, Eq, Structural)]
pub enum ArrayExtent {
    /// Exactly this many elements, the product of the dimensions.
    Fixed(u64),
    /// A length decided at run time.
    Dynamic,
}

/// The product of the numeric dimensions.
pub open spec fn dimension_product(dims: Seq<SchemaDimension>) -> int
    decreases dims.len(),
{
    if dims.len() == 0 {
        1
    } else {
        dimension_product(dims.drop_last()) * match dims.last() {
            SchemaDimension::Count(n) => n as int,
            SchemaDimension::Named(_) => 1int,
        }
    }
}

/// Whether every dimension is a number.
pub open spec fn all_counted(dims: Seq<SchemaDimension>) -> bool {
    forall|i: int| 0 <= i < dims.len() ==> #[trigger] dims[i] is Count
}

/// The extent of an array control with the given dimensions: fixed, at the
/// product of the dimensions, where all of them are numbers; dynamic where any
/// of them is not. None where a fixed product does not fit in 64 bits.
pub fn array_extent(dims: &[SchemaDimension]) -> (r: Option<ArrayExtent>)
    ensures
        !all_counted(dims@) ==> r == Some(ArrayExtent::Dynamic),
        all_counted(dims@) && dimension_product(dims@) <= u64::MAX ==> r == Some(
            ArrayExtent::Fixed(dimension_product(dims@) as u64),
        ),
        all_counted(dims@) && dimension_product(dims@) > u64::MAX ==> r is None,
{
    let n = dims.len();
    let mut i: usize = 0;
    while i < n
        invariant
            n == dims@.len(),
            i <= n,
            all_counted(dims@.subrange(0, i as int)),
        decreases n - i,
    {
        if let SchemaDimension::Named(_) = &dims[i] {
            return Some(ArrayExtent::Dynamic);
        }
        assert(dims@.subrange(0, i as int + 1)[i as int] == dims@[i as int]);
        i = i + 1;
    }
    assert(dims@.subrange(0, n as int) =~= dims@);
    let mut product: u64 = 1;
    let mut overflow = false;
    let mut k: usize = 0;
    while k < n
        invariant
            n == dims@.len(),
            k <= n,
            all_counted(dims@),
            dimension_product(dims@.subrange(0, k as int)) >= 0,
            !overflow ==> product == dimension_product(dims@.subrange(0, k as int)),
            overflow ==> dimension_product(dims@.subrange(0, k as int)) > u64::MAX,
        decreases n - k,
    {
        let ghost before = dims@.subrange(0, k as int);
        let ghost after = dims@.subrange(0, k as int + 1);
        assert(after.drop_last() =~= before);
        assert(after.last() == dims@[k as int]);
        let count = match &dims[k] {
            SchemaDimension::Count(c) => *c,
            SchemaDimension::Named(_) => 1,
        };
        assert(dims@[k as int] is Count);
        assert(dimension_product(after) == dimension_product(before) * count);
        if overflow || count == 0 {
            if count == 0 {
                assert(dimension_product(before) * 0 == 0);
                overflow = false;
                product = 0;
            } else {
                assert(dimension_product(before) * count >= dimension_product(before)) by (nonlinear_arith)
                    requires count >= 1, dimension_product(before) >= 0;
            }
        } else if product > u64::MAX / count {
            overflow = true;
            assert(dimension_product(before) * count > u64::MAX) by (nonlinear_arith)
                requires product == dimension_product(before), product > u64::MAX / count, count >= 1;
        } else {
            assert(product * count <= u64::MAX) by (nonlinear_arith)
                requires product <= u64::MAX / count, count >= 1;
            product = product * count;
        }
        assert(dimension_product(after) >= 0) by (nonlinear_arith)
            requires dimension_product(after) == dimension_product(before) * count, dimension_product(before) >= 0, count >= 0;
        k = k + 1;
    }
    if overflow {
        None
    } else {
        Some(ArrayExtent::Fixed(product))
    }
}

} // verus!
