//! Identity and composition of unary function values, with proofs of the
//! category laws: the identity is a two-sided unit of composition, and
//! composition is associative.
//!
//! `id` returns its argument unchanged for any type. `compose(f, g)`
//! builds the function that applies `f` and then `g`; `compose3` chains
//! three functions. The spec predicate `composes` states what the built
//! function may return and when it may be called, over the contracts of
//! its parts, and the `lemma_*` proof functions derive the laws from it.

mod composition;
mod identity;
mod laws;

pub use composition::compose;
pub use composition::compose3;
pub use composition::composes;
pub use identity::id;
pub use laws::behaves_as_id;
pub use laws::chain3;
pub use laws::chain3_requires;
pub use laws::lemma_associativity;
pub use laws::lemma_chain3_grouped_left;
pub use laws::lemma_chain3_grouped_right;
pub use laws::lemma_id_behaves_as_id;
pub use laws::lemma_identity_self_composition;
pub use laws::lemma_left_identity;
pub use laws::lemma_right_identity;
