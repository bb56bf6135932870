//! The history of a design session: each prompt with the response to it.

use vstd::prelude::*;

verus! {

/// One exchange: what the user asked and what came back.
#[derive(Debug, Clone)]
pub struct SessionEntry {
    pub prompt: String,
    pub response: String,
}

/// The exchanges of a session, oldest first.
#[derive(Debug, Clone)]
pub struct Session {
    pub entries: Vec<SessionEntry>,
}

impl Session {
    /// A session with no exchanges yet.
    pub fn new() -> (s: Self)
        ensures
            s.entries@.len() == 0,
    {
        Session { entries: Vec::new() }
    }

    /// Records an exchange after all earlier ones.
    pub fn add_entry(&mut self, prompt: String, response: String)
        ensures
            final(self).entries@ == old(self).entries@.push(SessionEntry { prompt, response }),
    {
        self.entries.push(SessionEntry { prompt, response });
    }
}

impl Default for Session {
    fn default() -> (s: Self)
        ensures
            s.entries@.len() == 0,
    {
        Session::new()
    }
}

/// Recording an exchange keeps every earlier one where it was and puts the
/// new one last.
pub proof fn lemma_add_entry_appends(
    before: Session,
    after: Session,
    prompt: String,
    response: String,
)
    requires
        after.entries@ == before.entries@.push(SessionEntry { prompt, response }),
    ensures
        after.entries@.len() == before.entries@.len() + 1,
        after.entries@.last().prompt == prompt,
        after.entries@.last().response == response,
        forall|i: int| 0 <= i < before.entries@.len() ==> after.entries@[i] == before.entries@[i],
{
}

} // verus!
