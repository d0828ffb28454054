//! Decision logic of a desktop pet: the embedded pet configurations, the
//! animation state of a pet, the speech labels, the LLM settings and the
//! behaviour rules that drive the pet from frame to frame.

pub mod text;
pub mod config;
pub mod frames;
pub mod pet;
pub mod labels;
pub mod llm;
pub mod chance;
pub mod choice;
pub mod behavior;
