//! Keys of completion prompts.
use vstd::prelude::*;
use crate::text::{decimal, indexed};

verus! {

pub open spec fn text_key(index: nat) -> Seq<char> {
    "llm.prompts."@ + decimal(index) + ".prompt.text"@
}

/// `llm.prompts.{index}.prompt.text`
pub fn text(index: usize) -> (r: String)
    ensures
        r@ == text_key(index as nat),
{
    indexed("llm.prompts.", index, ".prompt.text")
}

} // verus!
