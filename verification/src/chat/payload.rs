//! The request: messages, the payload that carries them, and its builder.
//!
//! A payload is only ever made by [`PayloadBuilder::build`], which is the one
//! place where a request is validated: it must carry at least one message.
//! Nothing else is checked here; the service judges the sampling parameters.

use super::codec::{Model, Role};
use std::collections::HashMap;
use vstd::prelude::*;

verus! {

/// Bit pattern of the binary64 number zero.
pub const ZERO_BITS: u64 = 0;

/// Bit pattern of the binary64 number one.
pub const ONE_BITS: u64 = 0x3FF0_0000_0000_0000;

/// How many tokens a response may hold unless the caller says otherwise.
pub const DEFAULT_MAX_TOKENS: isize = 1024;

/// The caller identifier of a payload whose builder was given none.
pub const DEFAULT_USER: &'static str = "Rust Openai Developer";

/// A binary64 number, carried by its bit pattern.
///
/// The library never computes with a sampling parameter: it stores the number
/// it was given and hands the same number on. Two scalars are equal when their
/// bit patterns are.
#[derive(Debug, Clone, Copy, PartialEq, Eq, Structural)]
pub struct Scalar {
    pub bits: u64,
}

impl Scalar {
    pub fn from_bits(bits: u64) -> (r: Scalar)
        ensures
            r.bits == bits,
    {
        Scalar { bits }
    }

    pub fn to_bits(self) -> (r: u64)
        ensures
            r == self.bits,
    {
        self.bits
    }

    pub fn zero() -> (r: Scalar)
        ensures
            r.bits == ZERO_BITS,
    {
        Scalar { bits: ZERO_BITS }
    }

    pub fn one() -> (r: Scalar)
        ensures
            r.bits == ONE_BITS,
    {
        Scalar { bits: ONE_BITS }
    }
}

/// One turn of a conversation: who speaks, and what is said.
#[derive(Debug, Clone, PartialEq, Eq)]
pub struct Message {
    pub role: Role,
    pub content: String,
}

/// A message with its content as a sequence of characters.
pub struct MessageView {
    pub role: Role,
    pub content: Seq<char>,
}

impl View for Message {
    type V = MessageView;

    open spec fn view(&self) -> MessageView {
        MessageView { role: self.role, content: self.content@ }
    }
}

impl Message {
    pub fn new(role: Role, content: &str) -> (r: Message)
        ensures
            r@ == (MessageView { role, content: content@ }),
    {
        Message { role, content: content.to_owned() }
    }
}

/// The views of a list of messages, in the same order.
pub open spec fn message_views(messages: Seq<Message>) -> Seq<MessageView> {
    Seq::new(messages.len(), |i: int| messages[i]@)
}

/// What a payload, or a builder of one, holds.
pub struct PayloadView {
    pub model: Model,
    pub messages: Seq<MessageView>,
    pub temperature: Scalar,
    pub top_p: Scalar,
    pub n: isize,
    pub stream: bool,
    pub stop: Option<Seq<char>>,
    pub max_tokens: isize,
    pub presence_penalty: Scalar,
    pub frequency_penalty: Scalar,
    pub logit_bias: Map<String, Scalar>,
    pub user: Seq<char>,
}

impl PayloadView {
    /// What a fresh builder holds: no message, and the documented defaults.
    pub open spec fn initial() -> PayloadView {
        PayloadView {
            model: Model::Gpt35Turbo,
            messages: Seq::empty(),
            temperature: Scalar { bits: ONE_BITS },
            top_p: Scalar { bits: ONE_BITS },
            n: 1,
            stream: true,
            stop: None,
            max_tokens: DEFAULT_MAX_TOKENS,
            presence_penalty: Scalar { bits: ZERO_BITS },
            frequency_penalty: Scalar { bits: ZERO_BITS },
            logit_bias: Map::empty(),
            user: DEFAULT_USER@,
        }
    }

    /// The same with one more message at the end.
    pub open spec fn with_message(self, message: MessageView) -> PayloadView {
        PayloadView { messages: self.messages.push(message), ..self }
    }

    /// The same with more messages at the end, in their order.
    pub open spec fn with_messages(self, messages: Seq<MessageView>) -> PayloadView {
        PayloadView { messages: self.messages + messages, ..self }
    }

    /// Whether a payload may be built from this: it holds a message.
    pub open spec fn complete(self) -> bool {
        self.messages.len() > 0
    }
}

/// The view of an optional string.
pub open spec fn stop_view(stop: Option<String>) -> Option<Seq<char>> {
    match stop {
        Some(s) => Some(s@),
        None => None,
    }
}

/// Everything the service needs to complete a chat.
///
/// Make one with [`Payload::builder`]; a payload that a builder made holds at
/// least one message.
#[derive(Debug, Clone)]
pub struct Payload {
    pub model: Model,
    pub messages: Vec<Message>,
    pub temperature: Scalar,
    pub top_p: Scalar,
    pub n: isize,
    pub stream: bool,
    pub stop: Option<String>,
    pub max_tokens: isize,
    pub presence_penalty: Scalar,
    pub frequency_penalty: Scalar,
    pub logit_bias: HashMap<String, Scalar>,
    pub user: String,
}

impl View for Payload {
    type V = PayloadView;

    open spec fn view(&self) -> PayloadView {
        PayloadView {
            model: self.model,
            messages: message_views(self.messages@),
            temperature: self.temperature,
            top_p: self.top_p,
            n: self.n,
            stream: self.stream,
            stop: stop_view(self.stop),
            max_tokens: self.max_tokens,
            presence_penalty: self.presence_penalty,
            frequency_penalty: self.frequency_penalty,
            logit_bias: self.logit_bias@,
            user: self.user@,
        }
    }
}

impl Payload {
    /// Whether the payload holds what the service asks of every payload: at
    /// least one message.
    pub open spec fn well_formed(&self) -> bool {
        self@.complete()
    }

    /// A builder that holds no message and the documented defaults.
    pub fn builder() -> (r: PayloadBuilder)
        ensures
            r@ == PayloadView::initial(),
    {
        PayloadBuilder::default()
    }
}

/// Why a payload could not be built.
#[derive(Debug, Clone, Copy, PartialEq, Eq, Structural)]
pub enum ValidationError {
    /// The builder was given no message.
    MissingField,
}

impl ValidationError {
    pub open spec fn spec_message(self) -> Seq<char> {
        "messages are not set"@
    }

    pub fn message(&self) -> (r: &'static str)
        ensures
            r@ == self.spec_message(),
    {
        "messages are not set"
    }
}

/// Stages a payload field by field. Only `messages` has no default.
#[derive(Debug, Clone)]
pub struct PayloadBuilder {
    model: Model,
    messages: Vec<Message>,
    temperature: Scalar,
    top_p: Scalar,
    n: isize,
    stream: bool,
    stop: Option<String>,
    max_tokens: isize,
    presence_penalty: Scalar,
    frequency_penalty: Scalar,
    logit_bias: HashMap<String, Scalar>,
    user: String,
}

impl View for PayloadBuilder {
    type V = PayloadView;

    closed spec fn view(&self) -> PayloadView {
        PayloadView {
            model: self.model,
            messages: message_views(self.messages@),
            temperature: self.temperature,
            top_p: self.top_p,
            n: self.n,
            stream: self.stream,
            stop: stop_view(self.stop),
            max_tokens: self.max_tokens,
            presence_penalty: self.presence_penalty,
            frequency_penalty: self.frequency_penalty,
            logit_bias: self.logit_bias@,
            user: self.user@,
        }
    }
}

impl Default for PayloadBuilder {
    fn default() -> (r: PayloadBuilder)
        ensures
            r@ == PayloadView::initial(),
    {
        let r = PayloadBuilder {
            model: Model::Gpt35Turbo,
            messages: Vec::new(),
            temperature: Scalar::one(),
            top_p: Scalar::one(),
            n: 1,
            stream: true,
            stop: None,
            max_tokens: DEFAULT_MAX_TOKENS,
            presence_penalty: Scalar::zero(),
            frequency_penalty: Scalar::zero(),
            logit_bias: HashMap::new(),
            user: DEFAULT_USER.to_owned(),
        };
        assert(r@.messages =~= Seq::empty());
        r
    }
}

impl PayloadBuilder {
    /// Makes the payload, if a message was staged; every field is handed on as
    /// it was staged.
    pub fn build(self) -> (r: Result<Payload, ValidationError>)
        ensures
            self@.complete() ==> r is Ok && r->Ok_0@ == self@ && r->Ok_0.well_formed(),
            !self@.complete() ==> r == Err::<Payload, ValidationError>(
                ValidationError::MissingField,
            ),
    {
        if self.messages.len() == 0 {
            return Err(ValidationError::MissingField);
        }
        Ok(
            Payload {
                model: self.model,
                messages: self.messages,
                temperature: self.temperature,
                top_p: self.top_p,
                n: self.n,
                stream: self.stream,
                stop: self.stop,
                max_tokens: self.max_tokens,
                presence_penalty: self.presence_penalty,
                frequency_penalty: self.frequency_penalty,
                logit_bias: self.logit_bias,
                user: self.user,
            },
        )
    }

    pub fn model(self, model: Model) -> (r: PayloadBuilder)
        ensures
            r@ == (PayloadView { model, ..self@ }),
    {
        let mut staged = self;
        staged.model = model;
        staged
    }

    /// Appends the given messages, in their order, to those already staged.
    pub fn messages(self, messages: Vec<Message>) -> (r: PayloadBuilder)
        ensures
            r@ == self@.with_messages(message_views(messages@)),
    {
        let mut staged = self;
        let mut rest = messages;
        staged.messages.append(&mut rest);
        assert(staged@.messages =~= self@.messages + message_views(messages@));
        staged
    }

    /// Appends one message to those already staged.
    pub fn message(self, message: Message) -> (r: PayloadBuilder)
        ensures
            r@ == self@.with_message(message@),
    {
        let mut staged = self;
        staged.messages.push(message);
        assert(staged@.messages =~= self@.messages.push(message@));
        staged
    }

    pub fn user_message(self, content: &str) -> (r: PayloadBuilder)
        ensures
            r@ == self@.with_message(MessageView { role: Role::User, content: content@ }),
    {
        self.message(Message::new(Role::User, content))
    }

    pub fn system_message(self, content: &str) -> (r: PayloadBuilder)
        ensures
            r@ == self@.with_message(MessageView { role: Role::System, content: content@ }),
    {
        self.message(Message::new(Role::System, content))
    }

    pub fn assistant_message(self, content: &str) -> (r: PayloadBuilder)
        ensures
            r@ == self@.with_message(MessageView { role: Role::Assistant, content: content@ }),
    {
        self.message(Message::new(Role::Assistant, content))
    }
    pub fn temperature(self, temperature: Scalar) -> (r: PayloadBuilder)
        ensures
            r@ == (PayloadView { temperature, ..self@ }),
    {
        let mut staged = self;
        staged.temperature = temperature;
        staged
    }

    pub fn top_p(self, top_p: Scalar) -> (r: PayloadBuilder)
        ensures
            r@ == (PayloadView { top_p, ..self@ }),
    {
        let mut staged = self;
        staged.top_p = top_p;
        staged
    }

    /// Sets how many candidates are asked for. Any number is staged, also one
    /// that the service will refuse.
    pub fn n(self, n: isize) -> (r: PayloadBuilder)
        ensures
            r@ == (PayloadView { n, ..self@ }),
    {
        let mut staged = self;
        staged.n = n;
        staged
    }

    pub fn stream(self, stream: bool) -> (r: PayloadBuilder)
        ensures
            r@ == (PayloadView { stream, ..self@ }),
    {
        let mut staged = self;
        staged.stream = stream;
        staged
    }

    pub fn stop(self, stop: &str) -> (r: PayloadBuilder)
        ensures
            r@ == (PayloadView { stop: Some(stop@), ..self@ }),
    {
        let mut staged = self;
        staged.stop = Some(stop.to_owned());
        staged
    }

    pub fn max_tokens(self, max_tokens: isize) -> (r: PayloadBuilder)
        ensures
            r@ == (PayloadView { max_tokens, ..self@ }),
    {
        let mut staged = self;
        staged.max_tokens = max_tokens;
        staged
    }

    pub fn presence_penalty(self, presence_penalty: Scalar) -> (r: PayloadBuilder)
        ensures
            r@ == (PayloadView { presence_penalty, ..self@ }),
    {
        let mut staged = self;
        staged.presence_penalty = presence_penalty;
        staged
    }

    pub fn frequency_penalty(self, frequency_penalty: Scalar) -> (r: PayloadBuilder)
        ensures
            r@ == (PayloadView { frequency_penalty, ..self@ }),
    {
        let mut staged = self;
        staged.frequency_penalty = frequency_penalty;
        staged
    }

    /// Replaces the whole bias map.
    pub fn logit_bias(self, logit_bias: HashMap<String, Scalar>) -> (r: PayloadBuilder)
        ensures
            r@ == (PayloadView { logit_bias: logit_bias@, ..self@ }),
    {
        let mut staged = self;
        staged.logit_bias = logit_bias;
        staged
    }

    pub fn user(self, user: &str) -> (r: PayloadBuilder)
        ensures
            r@ == (PayloadView { user: user@, ..self@ }),
    {
        let mut staged = self;
        staged.user = user.to_owned();
        staged
    }
}

/// Nothing can be built from a fresh builder: it holds no message.
pub proof fn lemma_initial_incomplete()
    ensures
        !PayloadView::initial().complete(),
{
}

/// A fresh builder that is given one message and nothing else is complete, and
/// what is built from it holds that message alone and every default.
pub proof fn lemma_single_message_payload(message: MessageView)
    ensures
        PayloadView::initial().with_message(message).complete(),
        PayloadView::initial().with_message(message) == (PayloadView {
            messages: seq![message],
            ..PayloadView::initial()
        }),
{
    assert(Seq::<MessageView>::empty().push(message) =~= seq![message]);
}

/// Whatever was staged before, one more message of any role is enough to
/// build.
pub proof fn lemma_message_completes(staged: PayloadView, message: MessageView)
    ensures
        staged.with_message(message).complete(),
{
}

/// Staging messages one by one, or several at once, keeps them in the order
/// they were given, after those staged before.
pub proof fn lemma_messages_in_order(
    staged: PayloadView,
    first: Seq<MessageView>,
    second: Seq<MessageView>,
    message: MessageView,
)
    ensures
        staged.with_messages(first).with_messages(second) == staged.with_messages(first + second),
        staged.with_message(message) == staged.with_messages(seq![message]),
        forall|i: int|
            0 <= i < staged.messages.len() ==> staged.with_messages(first).messages[i]
                == staged.messages[i],
        forall|i: int|
            0 <= i < first.len() ==> staged.with_messages(first).messages[staged.messages.len()
                + i] == first[i],
{
    assert((staged.messages + first) + second =~= staged.messages + (first + second));
    assert(staged.messages.push(message) =~= staged.messages + seq![message]);
}

} // verus!
