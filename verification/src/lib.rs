//! A typed client for a streaming chat-completion service.
//!
//! [`chat`] holds the request and response data model: the payload, its
//! builder, the string codecs of the closed enumerations, and the frames a
//! response is delivered in. [`client`] holds the decisions of one
//! request/response exchange: whether a status is accepted, and how each chunk
//! of the body is turned into what the caller receives. [`text`] compares
//! string slices, which the codecs rest on.

pub mod chat;
pub mod client;
pub mod text;
