//! Keys of completion choices.
use vstd::prelude::*;
use crate::text::{decimal, indexed};

verus! {

pub open spec fn text_key(index: nat) -> Seq<char> {
    "llm.choices."@ + decimal(index) + ".completion.text"@
}

/// `llm.choices.{index}.completion.text`
pub fn text(index: usize) -> (r: String)
    ensures
        r@ == text_key(index as nat),
{
    indexed("llm.choices.", index, ".completion.text")
}

} // verus!
