//! Keys of the output messages of a model call.
use vstd::prelude::*;
use crate::text::{decimal, indexed};

pub mod tool_calls;

verus! {

pub open spec fn role_key(index: nat) -> Seq<char> {
    "llm.output_messages."@ + decimal(index) + ".message.role"@
}

/// `llm.output_messages.{index}.message.role`
pub fn role(index: usize) -> (r: String)
    ensures
        r@ == role_key(index as nat),
{
    indexed("llm.output_messages.", index, ".message.role")
}

pub open spec fn content_key(index: nat) -> Seq<char> {
    "llm.output_messages."@ + decimal(index) + ".message.content"@
}

/// `llm.output_messages.{index}.message.content`
pub fn content(index: usize) -> (r: String)
    ensures
        r@ == content_key(index as nat),
{
    indexed("llm.output_messages.", index, ".message.content")
}

} // verus!
