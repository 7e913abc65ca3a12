//! The prompt composer: turns a capability and a context into the one
//! instruction message that is sent to the generative backend.

use vstd::prelude::*;
use crate::capability::Capability;
use crate::message::{Message, MessageView};
use crate::text::{contains_text, lemma_contains_middle};

verus! {

pub const SYSTEM_ROLE: &'static str = "system";

pub const INSTRUCTION_OPENING: &'static str = "FUNCTION ";

pub const INSTRUCTION_RULES: &'static str =
    "
  INSTRUCTION: you are a function printer. You ONLY print the results of functions.
  Nothing else. No commentary. Here is the input to the function ";

pub const INSTRUCTION_CLOSING: &'static str = ".
  Print out what the function will return";

/// The instruction that asks the backend to print what the function with
/// the given signature returns on the given input.
pub open spec fn instruction_text(signature: Seq<char>, input: Seq<char>) -> Seq<char> {
    INSTRUCTION_OPENING@ + signature + INSTRUCTION_RULES@ + input + INSTRUCTION_CLOSING@
}

/// The message that carries the instruction for a capability and an input.
pub open spec fn instruction_message(capability: Capability, input: Seq<char>) -> MessageView {
    MessageView {
        role: SYSTEM_ROLE@,
        content: instruction_text(capability.signature_text(), input),
    }
}

/// Every instruction holds its input and its signature as they were given.
pub proof fn lemma_instruction_holds_parts(signature: Seq<char>, input: Seq<char>)
    ensures
        contains_text(instruction_text(signature, input), input),
        contains_text(instruction_text(signature, input), signature),
{
    let text = instruction_text(signature, input);
    lemma_contains_middle(
        INSTRUCTION_OPENING@ + signature + INSTRUCTION_RULES@,
        input,
        INSTRUCTION_CLOSING@,
    );
    lemma_contains_middle(
        INSTRUCTION_OPENING@,
        signature,
        INSTRUCTION_RULES@ + input + INSTRUCTION_CLOSING@,
    );
    assert(text =~= INSTRUCTION_OPENING@ + signature + (INSTRUCTION_RULES@ + input
        + INSTRUCTION_CLOSING@));
}

/// Composes the instruction message for one capability and one input.
///
/// The message has the system role. Its content is the fixed instruction
/// template around the capability's signature and the input, so the input
/// can be found in it again.
pub fn extend_ai_function(ai_func: Capability, func_input: &str) -> (msg: Message)
    ensures
        msg@ == instruction_message(ai_func, func_input@),
        msg.role@ == SYSTEM_ROLE@,
        contains_text(msg.content@, func_input@),
{
    let mut content = String::from_str(INSTRUCTION_OPENING);
    content.append(ai_func.signature());
    content.append(INSTRUCTION_RULES);
    content.append(func_input);
    content.append(INSTRUCTION_CLOSING);
    proof {
        lemma_instruction_holds_parts(ai_func.signature_text(), func_input@);
    }
    Message { role: String::from_str(SYSTEM_ROLE), content }
}

} // verus!
