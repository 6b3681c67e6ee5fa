//! Rendering of a finished request as the HTTP status and body the caller
//! sees: 200 with the hex serial-number string as plain-text body on success,
//! 500 with the stage-identifying error message on any failure.

use vstd::prelude::*;
use crate::error::spec_message;
use crate::machine::{Stage, StageSpec};

verus! {

/// The HTTP status code and body of a terminal stage; none while the request
/// is still running.
pub open spec fn spec_http(s: StageSpec) -> Option<(u16, Seq<char>)> {
    match s {
        StageSpec::Formatted(t) => Option::Some((200u16, t)),
        StageSpec::Failed(e) => Option::Some((500u16, spec_message(e))),
        _ => Option::None,
    }
}

/// Renders a terminal stage as its HTTP status code and body.
pub fn http_response(state: &Stage) -> (r: Option<(u16, String)>)
    ensures
        r matches Some(p) ==> spec_http(state@) == Option::Some((p.0, p.1@)),
        r is None ==> spec_http(state@) is None,
{
    match state {
        Stage::Formatted(t) => Some((200, t.clone())),
        Stage::Failed(e) => Some((500, e.message())),
        _ => None,
    }
}

/// A request answers 200 exactly when it formatted a serial number, and the
/// 200 body is that hex string itself, never an error rendering.
pub proof fn lemma_success_is_200(s: StageSpec)
    ensures
        (spec_http(s) matches Some(p) && p.0 == 200) <==> s is Formatted,
        s matches StageSpec::Formatted(t) ==> spec_http(s) == Option::Some((200u16, t)),
        s is Failed ==> (spec_http(s) matches Some(p) && p.0 == 500),
{
}

} // verus!
