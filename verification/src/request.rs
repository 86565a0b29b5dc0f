//! A request as it reaches a plugin, and the refusals that all plugins share.

use crate::error::{ErrorView, PluginError};
use crate::number::{debug_text, quoted};
use crate::text::cat5;
use vstd::prelude::*;

verus! {

/// A request as it reaches a plugin.
#[derive(Debug, Clone)]
pub struct PluginRequest {
    pub request_type: String,
    /// Whether its deadline had passed when it arrived.
    pub past_deadline: bool,
    pub payload: Vec<u8>,
}

/// The refusal of a request that comes too late.
pub open spec fn too_late() -> ErrorView {
    ErrorView::Transient("request deadline already expired"@)
}

/// The refusal of a request of another type than the only one that is answered.
pub open spec fn unknown_type(kind: Seq<char>, known: Seq<char>) -> ErrorView {
    ErrorView::Permanent(
        "unknown request type: "@ + debug_text(kind) + " (not one of: ["@ + debug_text(known) + "])"@,
    )
}

/// Refuses a request of another type than the only one that is answered.
pub fn refuse_type(kind: &str, known: &str) -> (r: PluginError)
    ensures
        r@ == unknown_type(kind@, known@),
{
    PluginError::Permanent(
        cat5(
            "unknown request type: ",
            quoted(kind).as_str(),
            " (not one of: [",
            quoted(known).as_str(),
            "])",
        ),
    )
}

} // verus!
