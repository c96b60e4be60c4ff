//! Split a chat conversation log into `outdated` and `recent` parts, so that
//! the `recent` window respects both a maximum message count and a token
//! budget reserved for the model's completion.
//!
//! The token counting is done by `tiktoken_rs`; the boundary of the window is
//! found with a binary search over the (monotone) remaining-budget function,
//! so only logarithmically many tokenizer calls are made.

pub mod estimator;
pub mod message;
pub mod splitter;

pub use estimator::messages_within_limit;
pub use estimator::MAX_TEXT_LEN;
pub use message::ChatMessage;
pub use message::FunctionCall;
pub use message::parse_role;
pub use message::Role;
pub use splitter::ChatSplitter;
pub use splitter::SplitError;
