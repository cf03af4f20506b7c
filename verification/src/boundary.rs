//! The validated side of the foreign-function boundary.
//!
//! The unverified shell converts each raw foreign pointer into a
//! [`ForeignInput`] — absent, present but not valid text, or a native string
//! — and everything from there on is verified: the fail-closed validation
//! policy, the credential policy of each entry variant, and the pipeline
//! from a loaded model to the final payload.

use vstd::prelude::*;
use crate::encode::encode_payload;
use crate::encode::payload;
use crate::engine::encode_text;
use crate::engine::LoadedModel;

verus! {

/// What a foreign string argument turned out to hold.
pub enum ForeignInput {
    /// The caller passed no pointer at all.
    Absent,
    /// The caller passed bytes that are not valid text encoding.
    NotText,
    /// A validated native string.
    Text(String),
}

/// Validation of the two required arguments: any required argument that is
/// absent or not valid text fails the call closed — regardless of the other
/// argument — and no other input is refused.
pub fn validate_inputs(text: ForeignInput, model: ForeignInput) -> (r: Option<(String, String)>)
    ensures
        r is Some <==> (text is Text && model is Text),
        r matches Some(p) ==> text == ForeignInput::Text(p.0) && model == ForeignInput::Text(p.1),
{
    match (text, model) {
        (ForeignInput::Text(t), ForeignInput::Text(m)) => Some((t, m)),
        _ => None,
    }
}

/// Credential policy of the explicit-credential entry variant: an absent
/// credential means "no credential" and the call proceeds unauthenticated,
/// but a credential that is present and not valid text fails the call
/// closed, like any other pointer argument whose bytes are not valid text;
/// a valid one is used as given.
pub fn explicit_credential(credential: ForeignInput) -> (r: Option<Option<String>>)
    ensures
        r is Some <==> !(credential is NotText),
        credential is Absent ==> r == Some(None::<String>),
        credential matches ForeignInput::Text(c) ==> r == Some(Some(c)),
{
    match credential {
        ForeignInput::Absent => Some(None),
        ForeignInput::NotText => None,
        ForeignInput::Text(c) => Some(Some(c)),
    }
}

/// Runs the tokenization engine on validated text against a resolved model
/// and serializes the outcome: on success the payload holds the engine's
/// token and id sequences — of equal length — and the given diagnostic
/// trace; an engine failure is fatal for the call.
pub fn tokenize_to_payload(
    model: &LoadedModel,
    text: &str,
    trace: &Vec<String>,
) -> (r: Option<String>)
    ensures
        r matches Some(p) ==> exists|tokens: Seq<Seq<char>>, ids: Seq<u32>|
            tokens.len() == ids.len() && p@ == payload(tokens, ids, Some(trace.deep_view())),
{
    match encode_text(model, text) {
        Ok(pair) => {
            let (tokens, ids) = pair;
            let p = encode_payload(&tokens, &ids, Some(trace));
            proof {
                assert(tokens.deep_view().len() == ids@.len() && p@ == payload(
                    tokens.deep_view(),
                    ids@,
                    Some(trace.deep_view()),
                ));
            }
            Some(p)
        },
        Err(_) => None,
    }
}

} // verus!
