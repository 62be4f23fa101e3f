use vstd::prelude::*;

use crate::text::{eq_ignoring_ascii_case, same_ignoring_ascii_case};

verus! {

/// The header whose presence admits a request. HTTP header names compare
/// without regard to ASCII letter case.
pub open spec fn token_header() -> Seq<char> {
    "X-Interstellar-Token"@
}

/// One of `header_names` names the token header.
pub open spec fn carries_token(header_names: Seq<String>) -> bool {
    exists|i: int|
        0 <= i < header_names.len() && same_ignoring_ascii_case(
            #[trigger] header_names[i]@,
            token_header(),
        )
}

/// Proof that a request passed the access gate. Every handler takes one.
///
/// Only the presence of the token header matters: its value, even
/// an empty one, is never looked at. This is not authentication.
pub struct InterstellarToken {}

impl InterstellarToken {
    /// Admits a request whose headers, given by name, include the token
    /// header; refuses it otherwise.
    pub fn from_request(header_names: &Vec<String>) -> (r: Option<InterstellarToken>)
        ensures
            r is Some <==> carries_token(header_names@),
    {
        let mut i: usize = 0;
        while i < header_names.len()
            invariant
                i <= header_names@.len(),
                forall|j: int|
                    0 <= j < i ==> !same_ignoring_ascii_case(
                        #[trigger] header_names@[j]@,
                        token_header(),
                    ),
            decreases header_names@.len() - i,
        {
            if eq_ignoring_ascii_case(header_names[i].as_str(), "X-Interstellar-Token") {
                return Some(InterstellarToken {  });
            }
            i = i + 1;
        }
        None
    }
}

} // verus!
