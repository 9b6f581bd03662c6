//! Keys of the input messages of a model call.
use vstd::prelude::*;
use crate::text::{decimal, indexed, indexed2};

verus! {

pub open spec fn role_key(index: nat) -> Seq<char> {
    "llm.input_messages."@ + decimal(index) + ".message.role"@
}

/// `llm.input_messages.{index}.message.role`
pub fn role(index: usize) -> (r: String)
    ensures
        r@ == role_key(index as nat),
{
    indexed("llm.input_messages.", index, ".message.role")
}

pub open spec fn content_key(index: nat) -> Seq<char> {
    "llm.input_messages."@ + decimal(index) + ".message.content"@
}

/// `llm.input_messages.{index}.message.content`
pub fn content(index: usize) -> (r: String)
    ensures
        r@ == content_key(index as nat),
{
    indexed("llm.input_messages.", index, ".message.content")
}

pub open spec fn content_type_key(first: nat, second: nat) -> Seq<char> {
    "llm.input_messages."@ + decimal(first) + ".message.contents."@ + decimal(second) + ".message_content.type"@
}

/// `llm.input_messages.{first}.message.contents.{second}.message_content.type`
pub fn content_type(first: usize, second: usize) -> (r: String)
    ensures
        r@ == content_type_key(first as nat, second as nat),
{
    indexed2("llm.input_messages.", first, ".message.contents.", second, ".message_content.type")
}

pub open spec fn content_text_key(first: nat, second: nat) -> Seq<char> {
    "llm.input_messages."@ + decimal(first) + ".message.contents."@ + decimal(second) + ".message_content.text"@
}

/// `llm.input_messages.{first}.message.contents.{second}.message_content.text`
pub fn content_text(first: usize, second: usize) -> (r: String)
    ensures
        r@ == content_text_key(first as nat, second as nat),
{
    indexed2("llm.input_messages.", first, ".message.contents.", second, ".message_content.text")
}

} // verus!
