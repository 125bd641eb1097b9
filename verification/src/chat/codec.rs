//! The closed enumerations of the wire format and their string codecs.
//!
//! Each enumeration is written on the wire as one fixed string per variant.
//! Encoding is a table; decoding accepts exactly the strings of that table and
//! rejects every other string with an [`InvalidEnum`].

use crate::text::str_eq;
use vstd::prelude::*;
use vstd::string::*;

verus! {

/// The enumeration a rejected string was meant for.
#[derive(Debug, Clone, Copy, PartialEq, Eq, Structural)]
pub enum EnumKind {
    Role,
    Model,
    FinishReason,
}

impl EnumKind {
    /// What follows the rejected string in the error's message.
    pub open spec fn spec_complaint(self) -> Seq<char> {
        match self {
            EnumKind::Role => " is not a valid role"@,
            EnumKind::Model => " is not a valid model"@,
            EnumKind::FinishReason => " is not a valid finish reason"@,
        }
    }

    pub fn complaint(&self) -> (r: &'static str)
        ensures
            r@ == self.spec_complaint(),
    {
        match self {
            EnumKind::Role => " is not a valid role",
            EnumKind::Model => " is not a valid model",
            EnumKind::FinishReason => " is not a valid finish reason",
        }
    }
}

/// A string that names no variant of the enumeration it was decoded as.
#[derive(Debug, Clone, PartialEq, Eq)]
pub struct InvalidEnum {
    pub kind: EnumKind,
    pub value: String,
}

impl InvalidEnum {
    /// The rejected string followed by the complaint of its enumeration.
    pub fn message(&self) -> (r: String)
        ensures
            r@ == self.value@ + self.kind.spec_complaint(),
    {
        self.value.clone().concat(self.kind.complaint())
    }
}

/// The author of one turn of a conversation.
///
/// - `System` assigns a behaviour to the assistant.
/// - `User` instructs the assistant.
/// - `Assistant` stores an earlier response.
#[derive(Debug, Clone, Copy, PartialEq, Eq, Structural)]
pub enum Role {
    System,
    User,
    Assistant,
}

impl Role {
    /// The string a role is written as.
    pub open spec fn spec_encode(self) -> Seq<char> {
        match self {
            Role::System => "system"@,
            Role::User => "user"@,
            Role::Assistant => "assistant"@,
        }
    }

    /// The role a string stands for, if any.
    pub open spec fn spec_decode(s: Seq<char>) -> Option<Role> {
        if s == Role::System.spec_encode() {
            Some(Role::System)
        } else if s == Role::User.spec_encode() {
            Some(Role::User)
        } else if s == Role::Assistant.spec_encode() {
            Some(Role::Assistant)
        } else {
            None
        }
    }

    pub fn encode(&self) -> (r: &'static str)
        ensures
            r@ == self.spec_encode(),
    {
        match self {
            Role::System => "system",
            Role::User => "user",
            Role::Assistant => "assistant",
        }
    }

    pub fn to_string(&self) -> (r: String)
        ensures
            r@ == self.spec_encode(),
    {
        self.encode().to_owned()
    }

    /// Decodes a role, or rejects the string.
    pub fn decode(s: &str) -> (r: Result<Role, InvalidEnum>)
        ensures
            match Role::spec_decode(s@) {
                Some(v) => r == Ok::<Role, InvalidEnum>(v),
                None => r is Err && r->Err_0.kind == EnumKind::Role && r->Err_0.value@ == s@,
            },
    {
        if str_eq(s, "system") {
            Ok(Role::System)
        } else if str_eq(s, "user") {
            Ok(Role::User)
        } else if str_eq(s, "assistant") {
            Ok(Role::Assistant)
        } else {
            Err(InvalidEnum { kind: EnumKind::Role, value: s.to_owned() })
        }
    }
}

/// The backend model that answers a payload.
///
/// `Gpt35Turbo` is the baseline; `Gpt35Turbo0301` is a dated snapshot of it.
#[derive(Debug, Clone, Copy, PartialEq, Eq, Structural)]
pub enum Model {
    Gpt35Turbo,
    Gpt35Turbo0301,
}

impl Model {
    /// The identifier a model is written as.
    pub open spec fn spec_encode(self) -> Seq<char> {
        match self {
            Model::Gpt35Turbo => "gpt-3.5-turbo"@,
            Model::Gpt35Turbo0301 => "gpt-3.5-turbo-0301"@,
        }
    }

    /// The model an identifier stands for, if any.
    pub open spec fn spec_decode(s: Seq<char>) -> Option<Model> {
        if s == Model::Gpt35Turbo.spec_encode() {
            Some(Model::Gpt35Turbo)
        } else if s == Model::Gpt35Turbo0301.spec_encode() {
            Some(Model::Gpt35Turbo0301)
        } else {
            None
        }
    }

    pub fn encode(&self) -> (r: &'static str)
        ensures
            r@ == self.spec_encode(),
    {
        match self {
            Model::Gpt35Turbo => "gpt-3.5-turbo",
            Model::Gpt35Turbo0301 => "gpt-3.5-turbo-0301",
        }
    }

    pub fn to_string(&self) -> (r: String)
        ensures
            r@ == self.spec_encode(),
    {
        self.encode().to_owned()
    }

    /// Decodes a model, or rejects the string.
    pub fn decode(s: &str) -> (r: Result<Model, InvalidEnum>)
        ensures
            match Model::spec_decode(s@) {
                Some(v) => r == Ok::<Model, InvalidEnum>(v),
                None => r is Err && r->Err_0.kind == EnumKind::Model && r->Err_0.value@ == s@,
            },
    {
        if str_eq(s, "gpt-3.5-turbo") {
            Ok(Model::Gpt35Turbo)
        } else if str_eq(s, "gpt-3.5-turbo-0301") {
            Ok(Model::Gpt35Turbo0301)
        } else {
            Err(InvalidEnum { kind: EnumKind::Model, value: s.to_owned() })
        }
    }
}

/// Why a streamed response ended. The service writes it; a client only reads it.
#[derive(Debug, Clone, Copy, PartialEq, Eq, Structural)]
pub enum FinishReason {
    Length,
    Stop,
}

impl FinishReason {
    /// The string the service writes for a finish reason.
    pub open spec fn spec_encode(self) -> Seq<char> {
        match self {
            FinishReason::Length => "length"@,
            FinishReason::Stop => "stop"@,
        }
    }

    /// The finish reason a string stands for, if any.
    pub open spec fn spec_decode(s: Seq<char>) -> Option<FinishReason> {
        if s == FinishReason::Length.spec_encode() {
            Some(FinishReason::Length)
        } else if s == FinishReason::Stop.spec_encode() {
            Some(FinishReason::Stop)
        } else {
            None
        }
    }

    /// Decodes a finish reason, or rejects the string.
    pub fn decode(s: &str) -> (r: Result<FinishReason, InvalidEnum>)
        ensures
            match FinishReason::spec_decode(s@) {
                Some(v) => r == Ok::<FinishReason, InvalidEnum>(v),
                None => r is Err && r->Err_0.kind == EnumKind::FinishReason && r->Err_0.value@
                    == s@,
            },
    {
        if str_eq(s, "length") {
            Ok(FinishReason::Length)
        } else if str_eq(s, "stop") {
            Ok(FinishReason::Stop)
        } else {
            Err(InvalidEnum { kind: EnumKind::FinishReason, value: s.to_owned() })
        }
    }
}

/// Decoding what a role encodes to gives the role back.
pub proof fn lemma_role_round_trip(v: Role)
    ensures
        Role::spec_decode(v.spec_encode()) == Some(v),
{
    reveal_strlit("system");
    reveal_strlit("user");
    reveal_strlit("assistant");
    assert("system"@.len() == 6 && "user"@.len() == 4 && "assistant"@.len() == 9);
}

/// Decoding what a model encodes to gives the model back.
pub proof fn lemma_model_round_trip(v: Model)
    ensures
        Model::spec_decode(v.spec_encode()) == Some(v),
{
    reveal_strlit("gpt-3.5-turbo");
    reveal_strlit("gpt-3.5-turbo-0301");
    assert("gpt-3.5-turbo"@.len() == 13 && "gpt-3.5-turbo-0301"@.len() == 18);
}

/// Decoding what a finish reason is written as gives the finish reason back.
pub proof fn lemma_finish_reason_round_trip(v: FinishReason)
    ensures
        FinishReason::spec_decode(v.spec_encode()) == Some(v),
{
    reveal_strlit("length");
    reveal_strlit("stop");
    assert("length"@.len() == 6 && "stop"@.len() == 4);
}

/// A string decodes to a role exactly when it is that role's encoding, so a
/// string that no role encodes to decodes to nothing.
pub proof fn lemma_role_decode_exact(s: Seq<char>)
    ensures
        forall|v: Role| Role::spec_decode(s) == Some(v) <==> s == #[trigger] v.spec_encode(),
        Role::spec_decode(s) is None <==> forall|v: Role| s != #[trigger] v.spec_encode(),
{
    assert forall|v: Role| Role::spec_decode(s) == Some(v) <==> s == #[trigger] v.spec_encode() by {
        lemma_role_round_trip(v);
    }
}

/// A string decodes to a model exactly when it is that model's encoding, so a
/// string that no model encodes to decodes to nothing.
pub proof fn lemma_model_decode_exact(s: Seq<char>)
    ensures
        forall|v: Model| Model::spec_decode(s) == Some(v) <==> s == #[trigger] v.spec_encode(),
        Model::spec_decode(s) is None <==> forall|v: Model| s != #[trigger] v.spec_encode(),
{
    assert forall|v: Model|
        Model::spec_decode(s) == Some(v) <==> s == #[trigger] v.spec_encode() by {
        lemma_model_round_trip(v);
    }
}

/// A string decodes to a finish reason exactly when the service writes that
/// finish reason so, and a string that it writes for none decodes to nothing.
pub proof fn lemma_finish_reason_decode_exact(s: Seq<char>)
    ensures
        forall|v: FinishReason|
            FinishReason::spec_decode(s) == Some(v) <==> s == #[trigger] v.spec_encode(),
        FinishReason::spec_decode(s) is None <==> forall|v: FinishReason|
            s != #[trigger] v.spec_encode(),
{
    assert forall|v: FinishReason|
        FinishReason::spec_decode(s) == Some(v) <==> s == #[trigger] v.spec_encode() by {
        lemma_finish_reason_round_trip(v);
    }
}

} // verus!
