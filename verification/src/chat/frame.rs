//! The response: one frame per event of the stream.
//!
//! A frame carries, for each candidate, only the text that this event adds.
//! A caller who wants the whole answer appends what [`Response::text`] gives,
//! frame after frame.

use super::codec::{FinishReason, Model};
use vstd::prelude::*;

verus! {

/// The text that one frame adds to one candidate.
#[derive(Debug, Clone, PartialEq, Eq)]
pub struct Delta {
    pub content: String,
}

/// One candidate's part of a frame. `index` tells the candidates apart when
/// more than one was asked for.
#[derive(Debug, Clone, PartialEq, Eq)]
pub struct Choice {
    pub delta: Delta,
    pub index: isize,
    pub finish_reason: Option<FinishReason>,
}

/// One decoded frame of the stream.
#[derive(Debug, Clone, PartialEq, Eq)]
pub struct Response {
    pub id: String,
    pub object: String,
    pub created: isize,
    pub model: Model,
    pub choices: Vec<Choice>,
}

impl Response {
    /// The text of the choice at position `n`, if the frame has that many.
    pub open spec fn spec_text(self, n: int) -> Option<String> {
        if 0 <= n < self.choices@.len() {
            Some(self.choices@[n].delta.content)
        } else {
            None
        }
    }

    /// Takes the text of the choice at position `n` out of the frame. A frame
    /// with fewer choices gives nothing.
    pub fn text(self, n: usize) -> (r: Option<String>)
        ensures
            r == self.spec_text(n as int),
    {
        let mut choices = self.choices;
        if n < choices.len() {
            let choice = choices.remove(n);
            Some(choice.delta.content)
        } else {
            None
        }
    }
}

} // verus!
