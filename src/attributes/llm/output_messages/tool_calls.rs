//! Keys of the tool calls on output messages.
use vstd::prelude::*;
use crate::text::{decimal, indexed2};

verus! {

pub open spec fn id_key(first: nat, second: nat) -> Seq<char> {
    "llm.output_messages."@ + decimal(first) + ".message.tool_calls."@ + decimal(second) + ".tool_call.id"@
}

/// `llm.output_messages.{first}.message.tool_calls.{second}.tool_call.id`
pub fn id(first: usize, second: usize) -> (r: String)
    ensures
        r@ == id_key(first as nat, second as nat),
{
    indexed2("llm.output_messages.", first, ".message.tool_calls.", second, ".tool_call.id")
}

pub open spec fn function_name_key(first: nat, second: nat) -> Seq<char> {
    "llm.output_messages."@ + decimal(first) + ".message.tool_calls."@ + decimal(second) + ".tool_call.function.name"@
}

/// `llm.output_messages.{first}.message.tool_calls.{second}.tool_call.function.name`
pub fn function_name(first: usize, second: usize) -> (r: String)
    ensures
        r@ == function_name_key(first as nat, second as nat),
{
    indexed2("llm.output_messages.", first, ".message.tool_calls.", second, ".tool_call.function.name")
}

pub open spec fn function_arguments_key(first: nat, second: nat) -> Seq<char> {
    "llm.output_messages."@ + decimal(first) + ".message.tool_calls."@ + decimal(second) + ".tool_call.function.arguments"@
}

/// `llm.output_messages.{first}.message.tool_calls.{second}.tool_call.function.arguments`
pub fn function_arguments(first: usize, second: usize) -> (r: String)
    ensures
        r@ == function_arguments_key(first as nat, second as nat),
{
    indexed2("llm.output_messages.", first, ".message.tool_calls.", second, ".tool_call.function.arguments")
}

} // verus!
