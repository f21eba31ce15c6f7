//! The halo2 framework's error type, as far as module errors deal with it.

use halo2_proofs::plonk::Error as PlonkError;
use vstd::prelude::*;
use vstd::string::to_string_from_display_ensures;

verus! {

/// `halo2_proofs::plonk::Error`, the error type of the framework. Its variants
/// are not visible to proofs: a value of it is carried, displayed and built,
/// never taken apart.
#[verifier::external_type_specification]
#[verifier::external_body]
pub struct ExPlonkError(halo2_proofs::plonk::Error);

/// Whether a framework error is the variant `halo2_proofs::plonk::Error::Synthesis`,
/// the framework's generic failure of circuit synthesis.
pub uninterp spec fn is_synthesis(e: PlonkError) -> bool;

/// Builds `halo2_proofs::plonk::Error::Synthesis`, a variant without fields.
/// The contract is taken on trust: it says that the value built is that
/// variant.
#[verifier::external_body]
pub(crate) fn synthesis_error() -> (e: PlonkError)
    ensures
        is_synthesis(e),
{
    PlonkError::Synthesis
}

/// Whether `text` is what the framework's `Display` impl writes for `e`.
///
/// Nothing more is known of such a text than that `to_string` may return it.
/// The framework writes a fixed sentence for most of its variants, and for a
/// transcript failure the text of the I/O error inside, which can be anything.
pub open spec fn displays_as(e: PlonkError, text: Seq<char>) -> bool {
    exists|s: String| #[trigger] to_string_from_display_ensures::<PlonkError>(&e, s) && s@ == text
}

/// The framework's own message for `e`, as `to_string` gives it.
pub fn framework_message(e: &PlonkError) -> (text: String)
    ensures
        displays_as(*e, text@),
{
    e.to_string()
}

} // verus!
