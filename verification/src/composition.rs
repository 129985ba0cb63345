use vstd::prelude::*;
use crate::laws::chain3;
use crate::laws::chain3_requires;
use crate::laws::lemma_chain3_grouped_left;

verus! {

/// What it means for `h` to be the composition of `f` and `g` (apply `f`,
/// then `g`), stated over the contracts of the three function values.
///
/// The first conjunct says when `h` may be called: whenever `f` may be
/// called and `g` accepts every value `f` may return. The second says what
/// a call of `h` may return: only a value that `g` may return on some value
/// that `f` may return.
pub open spec fn composes<A, B, C, F: Fn(A) -> B, G: Fn(B) -> C, H: Fn(A) -> C>(
    f: F,
    g: G,
    h: H,
) -> bool {
    &&& forall|x: A|
        call_requires(f, (x,)) && (forall|b: B| call_ensures(f, (x,), b) ==> call_requires(g, (b,)))
            ==> #[trigger] call_requires(h, (x,))
    &&& forall|x: A, y: C| #[trigger] call_ensures(h, (x,), y)
            ==> exists|b: B| call_ensures(f, (x,), b) && #[trigger] call_ensures(g, (b,), y)
}

/// Function composition: given `f: A -> B` and `g: B -> C`, returns the
/// function `A -> C` that applies `f` to its input and then `g` to the
/// result. Composing performs no evaluation; `f` and `g` run only when the
/// returned function is invoked.
pub fn compose<A, B, C, F: Fn(A) -> B, G: Fn(B) -> C>(f: F, g: G) -> (h: impl Fn(A) -> C)
    ensures
        composes(f, g, h),
{
    move |x: A| -> (y: C)
        requires
            call_requires(f, (x,)),
            forall|b: B| call_ensures(f, (x,), b) ==> call_requires(g, (b,)),
        ensures
            exists|b: B| call_ensures(f, (x,), b) && #[trigger] call_ensures(g, (b,), y),
        {
            g(f(x))
        }
}

/// Triple composition: applies `f`, then `g`, then `h`. By the
/// associativity law the grouping does not matter, so the contract speaks
/// of the three stages directly: the returned function refines their
/// three-step relation, and may be called wherever each stage accepts what
/// the one before may produce.
pub fn compose3<A, B, C, D, F: Fn(A) -> B, G: Fn(B) -> C, H: Fn(C) -> D>(
    f: F,
    g: G,
    h: H,
) -> (r: impl Fn(A) -> D)
    ensures
        forall|x: A, y: D| #[trigger] call_ensures(r, (x,), y) ==> chain3(f, g, h, x, y),
        forall|x: A| chain3_requires(f, g, h, x) ==> #[trigger] call_requires(r, (x,)),
{
    let fg = compose(f, g);
    let r = compose(fg, h);
    proof {
        lemma_chain3_grouped_left(f, g, h, fg, r);
    }
    r
}

} // verus!
