//! Shared-state core of an editor agent: the replicated document's data model
//! and its transactions, the prompt sent to the inference engine, the bounded
//! tool-use turn, and the routing decisions of the two watch loops.

pub mod assoc;
pub mod bootstrap;
pub mod context;
pub mod document;
pub mod prompts;
pub mod routing;
pub mod turn;
