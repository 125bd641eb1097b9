//! The data model of a chat completion: what is sent, and what comes back.

pub mod codec;
pub mod frame;
pub mod payload;

pub use codec::{EnumKind, FinishReason, InvalidEnum, Model, Role};
pub use frame::{Choice, Delta, Response};
pub use payload::{
    Message, MessageView, Payload, PayloadBuilder, PayloadView, Scalar, ValidationError,
};

use vstd::prelude::*;

verus! {

/// Where chat payloads are posted.
pub const API_URL: &'static str = "https://api.openai.com/v1/chat/completions";

} // verus!
