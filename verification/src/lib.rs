//! A deterministic, verified core for a natural-language conveyor design
//! assistant: the layout of a belt conveyor, the framing of model output,
//! the design rules that a specification must meet, and the state of the
//! terminal widgets that drive a session.

pub mod backend;
pub mod design;
pub mod llm;
pub mod output;
pub mod text;
pub mod tui;
