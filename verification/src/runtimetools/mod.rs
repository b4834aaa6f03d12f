//! What the agent keeps between calls of the model: build results, the
//! calls to the model and the release context.

pub mod buildresult;
pub mod releasedoc;
pub mod llmcall;
