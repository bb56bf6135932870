//! Talking to the language model: the prompts it is given, the framing of
//! the JSON it returns, and the design rules its answer must meet.

pub mod parser;
pub mod prompt;
pub mod validation;
