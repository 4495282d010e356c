//! Client-side library for the Condensate memory service.
//!
//! The library covers everything a caller can reason about without a live
//! network: normalizing the service base URL, computing the authorization
//! header, serializing request payloads to their JSON wire form, decoding
//! the service's replies from an HTTP status and body, and deciding what a
//! command-line invocation should do. Issuing the HTTP request itself is
//! left to the surrounding application.

use vstd::prelude::*;

pub mod cli;
pub mod client;
pub mod json;
pub mod models;
pub mod text;

pub use cli::CliCommand;
pub use cli::dispatch;
pub use cli::recall_answer_line;
pub use client::CondensateClient;
pub use client::CondensateError;
pub use client::HttpPost;
pub use client::decode_add_item;
pub use client::decode_retrieve;
pub use client::id_from_node;
pub use client::response_from_node;
pub use json::JsonNode;
pub use json::json_node_text;
pub use models::EpisodicItem;
pub use models::RetrieveRequest;
pub use models::RetrieveResponse;

verus! {

} // verus!
