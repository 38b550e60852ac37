//! Turns a submitted report request into a language-model prompt, and decides
//! what the outbound chat-completion call carries and what its reply means.
pub mod completion;
pub mod form;
pub mod prompt;
pub mod text;
