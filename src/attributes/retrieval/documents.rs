//! Keys of retrieved documents.
use vstd::prelude::*;
use crate::text::{decimal, indexed};

verus! {

pub open spec fn id_key(index: nat) -> Seq<char> {
    "retrieval.documents."@ + decimal(index) + ".document.id"@
}

/// `retrieval.documents.{index}.document.id`
pub fn id(index: usize) -> (r: String)
    ensures
        r@ == id_key(index as nat),
{
    indexed("retrieval.documents.", index, ".document.id")
}

pub open spec fn content_key(index: nat) -> Seq<char> {
    "retrieval.documents."@ + decimal(index) + ".document.content"@
}

/// `retrieval.documents.{index}.document.content`
pub fn content(index: usize) -> (r: String)
    ensures
        r@ == content_key(index as nat),
{
    indexed("retrieval.documents.", index, ".document.content")
}

pub open spec fn score_key(index: nat) -> Seq<char> {
    "retrieval.documents."@ + decimal(index) + ".document.score"@
}

/// `retrieval.documents.{index}.document.score`
pub fn score(index: usize) -> (r: String)
    ensures
        r@ == score_key(index as nat),
{
    indexed("retrieval.documents.", index, ".document.score")
}

pub open spec fn metadata_key(index: nat) -> Seq<char> {
    "retrieval.documents."@ + decimal(index) + ".document.metadata"@
}

/// `retrieval.documents.{index}.document.metadata`
pub fn metadata(index: usize) -> (r: String)
    ensures
        r@ == metadata_key(index as nat),
{
    indexed("retrieval.documents.", index, ".document.metadata")
}

} // verus!
