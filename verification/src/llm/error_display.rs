//! Uniform wording of provider errors.

use vstd::prelude::*;

verus! {

/// The message `[<provider>] <message>`.
pub open spec fn llm_error_text(provider: Seq<char>, message: Seq<char>) -> Seq<char> {
    "["@ + provider + "] "@ + message
}

/// Words a provider error as `[<provider>] <message>`.
pub fn format_llm_error(provider: &str, message: &str) -> (r: String)
    ensures
        r@ == llm_error_text(provider@, message@),
{
    let mut r = "[".to_owned();
    r.append(provider);
    r.append("] ");
    r.append(message);
    r
}

} // verus!
