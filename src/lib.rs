use vstd::prelude::*;

// Settings, length settings and the fault decision.
pub mod config;
// Chat-completion replies and their delta stream.
pub mod chat_completions;
pub mod clock;
// Filler text and token counts.
pub mod content;
pub mod models;
// Fixed-window quotas.
pub mod quota;
pub mod random;
// Responses-protocol replies and their event stream.
pub mod responses;
// The simulator's state and its per-request pipeline.
pub mod server_state;

verus! {

} // verus!
