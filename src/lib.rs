//! Merging two optional values into one with a caller-supplied combiner.
//!
//! Both values present: the combiner is applied to them, left then right.
//! One present: that value is passed through and the combiner is not called.
//! None present: the result is empty.
use vstd::prelude::*;

verus! {

/// What `reduce(a, b, f)` may return.
///
/// With both values present, `res` holds an outcome that `f` may give on
/// `(l, r)`; with one present, `res` is that value unchanged; with neither,
/// `res` is empty.
pub open spec fn reduces_to<T, F: FnOnce(T, T) -> T>(
    a: Option<T>,
    b: Option<T>,
    f: F,
    res: Option<T>,
) -> bool {
    match (a, b) {
        (Some(l), Some(r)) => res is Some && f.ensures((l, r), res->0),
        (Some(l), None) => res == Some(l),
        (None, Some(r)) => res == Some(r),
        (None, None) => res is None,
    }
}

/// What `reduce(a, b, f)` needs of `f`: that it accepts `(l, r)` when both
/// values are present, and nothing otherwise, since it is not called then.
pub open spec fn combiner_accepts<T, F: FnOnce(T, T) -> T>(
    a: Option<T>,
    b: Option<T>,
    f: F,
) -> bool {
    (a is Some && b is Some) ==> f.requires((a->0, b->0))
}

/// Merges the options `a` and `b`.
///
/// Returns `Some(f(l, r))` when both are `Some`, the one present value when
/// exactly one is `Some`, and `None` when both are `None`.
pub fn reduce<T, F>(a: Option<T>, b: Option<T>, f: F) -> (res: Option<T>) where
    F: FnOnce(T, T) -> T,

    requires
        combiner_accepts(a, b, f),
    ensures
        reduces_to(a, b, f, res),
{
    match (a, b) {
        (Some(l), Some(r)) => Some(f(l, r)),
        (Some(l), None) => Some(l),
        (None, Some(r)) => Some(r),
        (None, None) => None,
    }
}

/// Extension of `Option` with a `reduce` method.
pub trait OptionExt: Sized {
    /// The type of the held value: `A` in `Option<A>`.
    type T;

    /// The optional value that `self` is.
    spec fn as_option(self) -> Option<Self::T>;

    /// Merges `self` with `other`, exactly as the free function `reduce`
    /// merges them.
    fn reduce<F>(self, other: Option<Self::T>, f: F) -> (res: Option<Self::T>) where
        F: FnOnce(Self::T, Self::T) -> Self::T,

        requires
            combiner_accepts(self.as_option(), other, f),
        ensures
            reduces_to(self.as_option(), other, f, res),
    ;
}

impl<T> OptionExt for Option<T> {
    type T = T;

    open spec fn as_option(self) -> Option<T> {
        self
    }

    fn reduce<F>(self, other: Option<T>, f: F) -> (res: Option<T>) where F: FnOnce(T, T) -> T {
        reduce(self, other, f)
    }
}

/// With both values present and a combiner that has the single outcome `v`
/// on `(l, r)`, the result is `Some(v)`.
pub proof fn lemma_both_present_gives_combined<T, F: FnOnce(T, T) -> T>(
    l: T,
    r: T,
    f: F,
    v: T,
    res: Option<T>,
)
    requires
        reduces_to(Some(l), Some(r), f, res),
        forall|w: T| #[trigger] f.ensures((l, r), w) ==> w == v,
    ensures
        res == Some(v),
{
}

/// The order of the operands is kept: the left value is the combiner's first
/// argument. So when no outcome of `f` on `(l, r)` is an outcome of `f` on
/// `(r, l)`, reducing `Some(l), Some(r)` and reducing `Some(r), Some(l)` give
/// different results.
pub proof fn lemma_operand_order_kept<T, F: FnOnce(T, T) -> T>(
    l: T,
    r: T,
    f: F,
    res_lr: Option<T>,
    res_rl: Option<T>,
)
    requires
        reduces_to(Some(l), Some(r), f, res_lr),
        reduces_to(Some(r), Some(l), f, res_rl),
        forall|w: T| #[trigger] f.ensures((l, r), w) ==> !f.ensures((r, l), w),
    ensures
        res_lr != res_rl,
{
}

/// The method form and the free form agree on every pair of options: where
/// the combiner has at most one outcome on the two values, `a.reduce(b, f)`
/// and `reduce(a, b, f)` return the same option.
pub proof fn lemma_method_agrees_with_free<T, F: FnOnce(T, T) -> T>(
    a: Option<T>,
    b: Option<T>,
    f: F,
    res_method: Option<T>,
    res_free: Option<T>,
)
    requires
        reduces_to(OptionExt::as_option(a), b, f, res_method),
        reduces_to(a, b, f, res_free),
        (a is Some && b is Some) ==> forall|w: T, u: T|
            #[trigger] f.ensures((a->0, b->0), w) && #[trigger] f.ensures((a->0, b->0), u) ==> w
                == u,
    ensures
        res_method == res_free,
{
}

} // verus!
