//! The prompts sent to the language model.

use vstd::prelude::*;

verus! {

/// Builds the prompts that the language model is given.
pub struct PromptManager;

impl PromptManager {
    /// The system prompt; none is given yet, so it is empty.
    pub fn system_prompt() -> (prompt: String)
        ensures
            prompt@ == Seq::<char>::empty(),
    {
        String::new()
    }

    /// The prompt built from what the user typed; the user's words are not
    /// passed on yet, so it is empty whatever they are.
    pub fn build_prompt(_user_input: &str) -> (prompt: String)
        ensures
            prompt@ == Seq::<char>::empty(),
    {
        String::new()
    }
}

} // verus!
