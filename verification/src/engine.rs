//! Trusted bindings to the external tokenization engine (the `tokenizers`
//! crate), and the guarded loader around them.
//!
//! A parsed definition is not accepted as it stands: deserialization
//! bypasses the engine's own validation of the truncation parameters, and a
//! definition whose stride reaches its truncation limit makes the engine's
//! truncating encode abort the process. The loader therefore refuses such a
//! definition, and only models it accepted — [`LoadedModel`] values — can
//! reach the engine's encode.

use vstd::prelude::*;
use vstd::string::StringExecFns;

verus! {

#[verifier::external_type_specification]
#[verifier::external_body]
pub struct ExTokenizer(tokenizers::Tokenizer);

/// Whether a byte sequence deserializes as a tokenizer definition.
/// Parsing is a function of the bytes alone; this names its outcome.
pub uninterp spec fn parses_as_model(bytes: Seq<u8>) -> bool;

/// The `(max_length, stride)` truncation settings of the definition parsed
/// from these bytes, when it parses and configures truncation; a function
/// of the bytes alone.
pub uninterp spec fn truncation_of(bytes: Seq<u8>) -> Option<(usize, usize)>;

/// Truncation settings under which the engine's truncating encode cannot
/// abort: none configured, a zero limit (the engine empties the encoding
/// instead of truncating), or a stride strictly below the limit.
pub open spec fn safe_truncation(bounds: Option<(usize, usize)>) -> bool {
    match bounds {
        None => true,
        Some(b) => b.0 == 0 || b.1 < b.0,
    }
}

/// A definition the library accepts: it parses, and the engine can encode
/// under its truncation settings without aborting.
pub open spec fn is_valid_model(bytes: Seq<u8>) -> bool {
    parses_as_model(bytes) && safe_truncation(truncation_of(bytes))
}

/// A loaded tokenizer definition that passed the loader's truncation
/// guard. The field is private: every value of this type was built by
/// [`load_definition`], so the engine's encode cannot abort on it.
pub struct LoadedModel {
    model: tokenizers::Tokenizer,
}

/// Relies on `Tokenizer::from_bytes` and `TokenizerImpl::get_truncation`:
/// whether bytes deserialize, and which truncation settings the parsed
/// definition carries, are functions of the bytes alone.
#[verifier::external_body]
fn parse_definition(bytes: &Vec<u8>) -> (r: Result<
    (tokenizers::Tokenizer, Option<(usize, usize)>),
    String,
>)
    ensures
        r is Ok <==> parses_as_model(bytes@),
        r matches Ok(p) ==> p.1 == truncation_of(bytes@),
{
    match tokenizers::Tokenizer::from_bytes(bytes.as_slice()) {
        Ok(t) => {
            let bounds = t.get_truncation().map(|p| (p.max_length, p.stride));
            Ok((t, bounds))
        },
        Err(e) => Err(e.to_string()),
    }
}

/// Parses a tokenizer definition from raw bytes, refusing one whose
/// truncation settings the engine cannot encode with safely.
pub fn load_definition(bytes: &Vec<u8>) -> (r: Result<LoadedModel, String>)
    ensures
        r is Ok <==> is_valid_model(bytes@),
{
    match parse_definition(bytes) {
        Ok(pair) => {
            let (model, bounds) = pair;
            let safe = match bounds {
                None => true,
                Some(b) => b.0 == 0 || b.1 < b.0,
            };
            if safe {
                Ok(LoadedModel { model })
            } else {
                Err(String::from_str("tokenizer stride must be strictly less than max_length"))
            }
        },
        Err(e) => Err(e),
    }
}

/// Relies on `Tokenizer::encode` together with `Encoding::get_tokens` and
/// `Encoding::get_ids`: an encoding carries its token strings and numeric
/// ids as parallel sequences of equal length. Special tokens are never
/// added, so the engine truncates with the definition's full limit; the
/// loader's guard (stride strictly below a non-zero limit) then keeps the
/// engine's truncation from aborting, whatever the input text.
#[verifier::external_body]
pub(crate) fn encode_text(model: &LoadedModel, input: &str) -> (r: Result<
    (Vec<String>, Vec<u32>),
    String,
>)
    ensures
        r matches Ok(p) ==> p.0@.len() == p.1@.len(),
{
    match model.model.encode(input, false) {
        Ok(enc) => Ok((enc.get_tokens().to_vec(), enc.get_ids().to_vec())),
        Err(e) => Err(e.to_string()),
    }
}

} // verus!
