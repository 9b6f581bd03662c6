//! Keys of the embeddings of an embedding call.
use vstd::prelude::*;
use crate::text::{decimal, indexed};

verus! {

pub open spec fn vector_key(index: nat) -> Seq<char> {
    "embedding.embeddings."@ + decimal(index) + ".embedding.vector"@
}

/// `embedding.embeddings.{index}.embedding.vector`
pub fn vector(index: usize) -> (r: String)
    ensures
        r@ == vector_key(index as nat),
{
    indexed("embedding.embeddings.", index, ".embedding.vector")
}

pub open spec fn text_key(index: nat) -> Seq<char> {
    "embedding.embeddings."@ + decimal(index) + ".embedding.text"@
}

/// `embedding.embeddings.{index}.embedding.text`
pub fn text(index: usize) -> (r: String)
    ensures
        r@ == text_key(index as nat),
{
    indexed("embedding.embeddings.", index, ".embedding.text")
}

} // verus!
