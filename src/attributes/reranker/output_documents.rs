//! Keys of the documents a reranker returns.
use vstd::prelude::*;
use crate::text::{decimal, indexed};

verus! {

pub open spec fn id_key(index: nat) -> Seq<char> {
    "reranker.output_documents."@ + decimal(index) + ".document.id"@
}

/// `reranker.output_documents.{index}.document.id`
pub fn id(index: usize) -> (r: String)
    ensures
        r@ == id_key(index as nat),
{
    indexed("reranker.output_documents.", index, ".document.id")
}

pub open spec fn content_key(index: nat) -> Seq<char> {
    "reranker.output_documents."@ + decimal(index) + ".document.content"@
}

/// `reranker.output_documents.{index}.document.content`
pub fn content(index: usize) -> (r: String)
    ensures
        r@ == content_key(index as nat),
{
    indexed("reranker.output_documents.", index, ".document.content")
}

pub open spec fn score_key(index: nat) -> Seq<char> {
    "reranker.output_documents."@ + decimal(index) + ".document.score"@
}

/// `reranker.output_documents.{index}.document.score`
pub fn score(index: usize) -> (r: String)
    ensures
        r@ == score_key(index as nat),
{
    indexed("reranker.output_documents.", index, ".document.score")
}

} // verus!
