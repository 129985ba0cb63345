use vstd::prelude::*;

verus! {

/// The identity function: returns its argument unchanged, for any type.
///
/// It is the two-sided unit of composition: composing any function with
/// `id` on either side yields a function with the same behaviour.
pub fn id<T>(x: T) -> (r: T)
    ensures
        r == x,
{
    x
}

} // verus!
