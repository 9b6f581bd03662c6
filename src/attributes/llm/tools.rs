//! Keys of the tools available to a model.
use vstd::prelude::*;
use crate::text::{decimal, indexed};

verus! {

pub open spec fn json_schema_key(index: nat) -> Seq<char> {
    "llm.tools."@ + decimal(index) + ".tool.json_schema"@
}

/// `llm.tools.{index}.tool.json_schema`
pub fn json_schema(index: usize) -> (r: String)
    ensures
        r@ == json_schema_key(index as nat),
{
    indexed("llm.tools.", index, ".tool.json_schema")
}

} // verus!
