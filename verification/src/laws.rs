use vstd::prelude::*;
use crate::composition::composes;
use crate::identity::id;

verus! {

/// A function value that behaves as the identity: it may be called on any
/// value, and every value it may return equals its argument.
pub open spec fn behaves_as_id<T, G: Fn(T) -> T>(g: G) -> bool {
    &&& forall|x: T| #[trigger] call_requires(g, (x,))
    &&& forall|x: T, r: T| #[trigger] call_ensures(g, (x,), r) ==> r == x
}

/// `id` itself behaves as the identity: it accepts every value and returns
/// only its argument.
pub proof fn lemma_id_behaves_as_id<T>()
    ensures
        behaves_as_id(id::<T>),
{
}

/// Left identity law: a composition that applies `f` and then an
/// identity-behaved `g` may be called wherever `f` may be, and returns only
/// values that `f` may return.
pub proof fn lemma_left_identity<A, B, F: Fn(A) -> B, G: Fn(B) -> B, H: Fn(A) -> B>(
    f: F,
    g: G,
    h: H,
)
    requires
        behaves_as_id(g),
        composes(f, g, h),
    ensures
        forall|x: A| #[trigger] call_requires(f, (x,)) ==> call_requires(h, (x,)),
        forall|x: A, y: B| #[trigger] call_ensures(h, (x,), y) ==> call_ensures(f, (x,), y),
{
}

/// Right identity law: a composition that applies an identity-behaved `g`
/// and then `f` may be called wherever `f` may be, and returns only values
/// that `f` may return.
pub proof fn lemma_right_identity<A, B, G: Fn(A) -> A, F: Fn(A) -> B, H: Fn(A) -> B>(
    g: G,
    f: F,
    h: H,
)
    requires
        behaves_as_id(g),
        composes(g, f, h),
    ensures
        forall|x: A| #[trigger] call_requires(f, (x,)) ==> call_requires(h, (x,)),
        forall|x: A, y: B| #[trigger] call_ensures(h, (x,), y) ==> call_ensures(f, (x,), y),
{
}

/// Identity self-composition: composing two identity-behaved functions
/// yields a function that accepts every value and behaves as the identity.
pub proof fn lemma_identity_self_composition<T, G1: Fn(T) -> T, G2: Fn(T) -> T, H: Fn(T) -> T>(
    g1: G1,
    g2: G2,
    h: H,
)
    requires
        behaves_as_id(g1),
        behaves_as_id(g2),
        composes(g1, g2, h),
    ensures
        forall|x: T| #[trigger] call_requires(h, (x,)),
        forall|x: T, y: T| #[trigger] call_ensures(h, (x,), y) ==> y == x,
{
}

/// The three-step relation that both groupings of a triple composition
/// refine: `y` is a value `h` may return on a value `g` may return on a
/// value `f` may return on `x`.
pub open spec fn chain3<A, B, C, D, F: Fn(A) -> B, G: Fn(B) -> C, H: Fn(C) -> D>(
    f: F,
    g: G,
    h: H,
    x: A,
    y: D,
) -> bool {
    exists|b: B, c: C|
        call_ensures(f, (x,), b) && #[trigger] call_ensures(g, (b,), c) && call_ensures(
            h,
            (c,),
            y,
        )
}

/// When a triple composition may be called on `x`: `f` accepts `x`, `g`
/// accepts every value `f` may return on it, and `h` accepts every value
/// `g` may then return.
pub open spec fn chain3_requires<A, B, C, D, F: Fn(A) -> B, G: Fn(B) -> C, H: Fn(C) -> D>(
    f: F,
    g: G,
    h: H,
    x: A,
) -> bool {
    &&& call_requires(f, (x,))
    &&& forall|b: B| #[trigger] call_ensures(f, (x,), b) ==> call_requires(g, (b,))
    &&& forall|b: B, c: C|
        call_ensures(f, (x,), b) && #[trigger] call_ensures(g, (b,), c) ==> call_requires(
            h,
            (c,),
        )
}

/// A composition grouped to the left, `(f then g) then h`, refines the
/// three-step relation of `f`, `g`, `h`, and may be called wherever all
/// three stages accept what the one before may produce.
pub proof fn lemma_chain3_grouped_left<
    A,
    B,
    C,
    D,
    F: Fn(A) -> B,
    G: Fn(B) -> C,
    H: Fn(C) -> D,
    FG: Fn(A) -> C,
    L: Fn(A) -> D,
>(f: F, g: G, h: H, fg: FG, l: L)
    requires
        composes(f, g, fg),
        composes(fg, h, l),
    ensures
        forall|x: A, y: D| #[trigger] call_ensures(l, (x,), y) ==> chain3(f, g, h, x, y),
        forall|x: A| chain3_requires(f, g, h, x) ==> #[trigger] call_requires(l, (x,)),
{
}

/// A composition grouped to the right, `f then (g then h)`, refines the
/// three-step relation of `f`, `g`, `h`, and may be called wherever all
/// three stages accept what the one before may produce.
pub proof fn lemma_chain3_grouped_right<
    A,
    B,
    C,
    D,
    F: Fn(A) -> B,
    G: Fn(B) -> C,
    H: Fn(C) -> D,
    GH: Fn(B) -> D,
    R: Fn(A) -> D,
>(f: F, g: G, h: H, gh: GH, r: R)
    requires
        composes(g, h, gh),
        composes(f, gh, r),
    ensures
        forall|x: A, y: D| #[trigger] call_ensures(r, (x,), y) ==> chain3(f, g, h, x, y),
        forall|x: A| chain3_requires(f, g, h, x) ==> #[trigger] call_requires(r, (x,)),
{
}

/// Associativity law: composing `(f then g) then h` and `f then (g then h)`
/// gives observationally identical functions. Both groupings return only
/// values related to the input by the same three-step relation, and both
/// may be called whenever each stage accepts what the one before may
/// produce.
pub proof fn lemma_associativity<
    A,
    B,
    C,
    D,
    F: Fn(A) -> B,
    G: Fn(B) -> C,
    H: Fn(C) -> D,
    FG: Fn(A) -> C,
    GH: Fn(B) -> D,
    L: Fn(A) -> D,
    R: Fn(A) -> D,
>(f: F, g: G, h: H, fg: FG, gh: GH, l: L, r: R)
    requires
        composes(f, g, fg),
        composes(fg, h, l),
        composes(g, h, gh),
        composes(f, gh, r),
    ensures
        forall|x: A, y: D| #[trigger] call_ensures(l, (x,), y) ==> chain3(f, g, h, x, y),
        forall|x: A, y: D| #[trigger] call_ensures(r, (x,), y) ==> chain3(f, g, h, x, y),
        forall|x: A|
            chain3_requires(f, g, h, x) ==> #[trigger] call_requires(l, (x,))
                && call_requires(r, (x,)),
{
    lemma_chain3_grouped_left(f, g, h, fg, l);
    lemma_chain3_grouped_right(f, g, h, gh, r);
}

} // verus!
