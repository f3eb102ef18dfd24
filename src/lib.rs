//! Retrieval-augmented code completion: extracting the line and block of interest from a
//! source text, rendering the completion prompt, storing embeddings in a collection and
//! searching it by similarity, and the decisions of the index and query flows.

use vstd::prelude::*;

pub mod chunk;
pub mod error;
pub mod flow;
pub mod pipeline;
pub mod prompt;
pub mod store;

verus! {

} // verus!
