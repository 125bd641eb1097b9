//! The decisions of one request/response exchange.
//!
//! An exchange posts one payload and reads the answer as it arrives. Sending
//! and receiving belong to the transport; what is decided here is whether the
//! status of the answer lets the exchange go on ([`check_status`]), and what
//! the caller is given for each chunk of the body
//! ([`Accepted::strip_chunk`]).
//!
//! The wire protocol puts a marker of [`MARKER_LEN`] bytes in front of every
//! event. A chunk is taken to be one marker followed by one event, so the
//! first [`MARKER_LEN`] bytes of a chunk are cut off, whatever they are.

use crate::chat::API_URL;
use bytes::Bytes;
use vstd::prelude::*;
use vstd::string::*;

verus! {

/// Number of bytes of the marker that precedes every event on the wire.
pub const MARKER_LEN: usize = 6;

/// `bytes::Bytes`, a shared, immutable buffer of bytes. Nothing is known of a
/// buffer but what [`contents`] names.
#[verifier::external_type_specification]
#[verifier::external_body]
pub struct ExBytes(bytes::Bytes);

/// The bytes that a `bytes::Bytes` buffer holds, in order.
pub uninterp spec fn contents(buffer: Bytes) -> Seq<u8>;

/// `Bytes::len`: the number of bytes that the buffer holds.
pub assume_specification[ bytes::Bytes::len ](buffer: &Bytes) -> (n: usize)
    ensures
        n == contents(*buffer).len(),
;

/// `Bytes::slice` with a range that is open at the end: a buffer that holds
/// the bytes of `buffer` from position `begin` on. The call panics when
/// `begin` is past the end, which the precondition rules out.
#[verifier::external_body]
fn slice_from(buffer: &Bytes, begin: usize) -> (r: Bytes)
    requires
        begin <= contents(*buffer).len(),
    ensures
        contents(r) == contents(*buffer).skip(begin as int),
{
    buffer.slice(begin..)
}

/// How `reqwest::StatusCode` writes the status with the given code: the code
/// and the reason phrase that belongs to it.
pub uninterp spec fn status_text(status: u16) -> Seq<char>;

/// `reqwest::StatusCode::from_u16`, and the `Display` of the status it gives.
/// A number is a status code exactly when it has three digits; what is
/// written for a status code depends on the code alone.
#[verifier::external_body]
fn write_status(status: u16) -> (r: Option<String>)
    ensures
        r is Some <==> is_status_code(status),
        r is Some ==> r->Some_0@ == status_text(status),
{
    match reqwest::StatusCode::from_u16(status) {
        Ok(code) => Some(code.to_string()),
        Err(_) => None,
    }
}

/// Whether a number is an HTTP status code: one of 100 to 999.
pub open spec fn is_status_code(status: u16) -> bool {
    100 <= status < 1000
}

/// Whether a status code stands for success: the codes from 200 to 299.
pub open spec fn is_success(status: u16) -> bool {
    200 <= status < 300
}

/// The service answered with a status that is no success.
#[derive(Debug, Clone, Copy, PartialEq, Eq, Structural)]
pub struct RequestFailed {
    pub status: u16,
}

impl RequestFailed {
    /// What the error says of a status that is written as `status`.
    pub open spec fn spec_message(status: Seq<char>) -> Seq<char> {
        "Could not request openai with status code: "@ + status
    }

    /// What the error says of a status that is written as `status`.
    pub fn message_of(status: &str) -> (r: String)
        ensures
            r@ == RequestFailed::spec_message(status@),
    {
        "Could not request openai with status code: ".to_owned().concat(status)
    }

    /// What the error says. There is nothing to say of a number that is no
    /// status code.
    pub fn message(&self) -> (r: Option<String>)
        ensures
            match r {
                Some(m) => is_status_code(self.status) && m@ == RequestFailed::spec_message(
                    status_text(self.status),
                ),
                None => !is_status_code(self.status),
            },
    {
        match write_status(self.status) {
            Some(status) => Some(RequestFailed::message_of(status.as_str())),
            None => None,
        }
    }
}

/// An answer whose status was accepted. Only [`check_status`] makes one, and
/// only for a success; a chunk of the body is given to the caller through it,
/// so none is given for an answer that failed.
#[derive(Debug, Clone, Copy)]
pub struct Accepted {
    status: u16,
}

impl Accepted {
    #[verifier::type_invariant]
    spec fn inv(self) -> bool {
        is_success(self.status)
    }

    /// The status that was accepted.
    pub closed spec fn spec_status(self) -> u16 {
        self.status
    }

    /// The status that was accepted, which is a success.
    pub fn status(&self) -> (r: u16)
        ensures
            r == self.spec_status(),
            is_success(r),
    {
        proof {
            use_type_invariant(self);
        }
        self.status
    }

    /// What the caller is given for one chunk of the body: a chunk that
    /// arrived loses its first [`MARKER_LEN`] bytes and keeps the rest; a
    /// chunk that the transport failed on is handed on as the same error.
    pub fn strip_chunk<E>(&self, chunk: Result<Bytes, E>) -> (r: Result<Bytes, E>)
        requires
            chunk is Ok ==> contents(chunk->Ok_0).len() >= MARKER_LEN,
        ensures
            is_success(self.spec_status()),
            match chunk {
                Ok(raw) => r is Ok && contents(r->Ok_0) == contents(raw).skip(MARKER_LEN as int),
                Err(e) => r == Err::<Bytes, E>(e),
            },
    {
        proof {
            use_type_invariant(self);
        }
        match chunk {
            Ok(raw) => Ok(slice_from(&raw, MARKER_LEN)),
            Err(e) => Err(e),
        }
    }

    /// [`Accepted::strip_chunk`] for a caller who does not know how long a
    /// chunk is: a chunk that arrived with fewer than [`MARKER_LEN`] bytes
    /// holds no whole marker, and nothing is given for it.
    pub fn checked_strip_chunk<E>(&self, chunk: Result<Bytes, E>) -> (r: Option<Result<Bytes, E>>)
        ensures
            is_success(self.spec_status()),
            match chunk {
                Ok(raw) => if contents(raw).len() >= MARKER_LEN {
                    r is Some && r->Some_0 is Ok && contents(r->Some_0->Ok_0) == contents(
                        raw,
                    ).skip(MARKER_LEN as int)
                } else {
                    r is None
                },
                Err(e) => r == Some(Err::<Bytes, E>(e)),
            },
    {
        proof {
            use_type_invariant(self);
        }
        let whole = match &chunk {
            Ok(raw) => raw.len() >= MARKER_LEN,
            Err(_) => true,
        };
        if whole {
            Some(self.strip_chunk(chunk))
        } else {
            None
        }
    }
}

/// Decides on the status of an answer: a success is accepted, and the body
/// may be read; any other status ends the exchange with that status, and
/// there is nothing to read a chunk through.
pub fn check_status(status: u16) -> (r: Result<Accepted, RequestFailed>)
    ensures
        is_success(status) ==> r is Ok && r->Ok_0.spec_status() == status,
        !is_success(status) ==> r == Err::<Accepted, RequestFailed>(RequestFailed { status }),
{
    if 200 <= status && status < 300 {
        Ok(Accepted { status })
    } else {
        Err(RequestFailed { status })
    }
}

/// Where payloads are posted, and the credential they are posted with.
pub struct Client {
    api_key: String,
    api_url: String,
}

/// What a client holds, as sequences of characters.
pub struct ClientView {
    pub api_key: Seq<char>,
    pub api_url: Seq<char>,
}

impl View for Client {
    type V = ClientView;

    closed spec fn view(&self) -> ClientView {
        ClientView { api_key: self.api_key@, api_url: self.api_url@ }
    }
}

impl Client {
    pub fn new(api_key: &str, api_url: &str) -> (r: Client)
        ensures
            r@ == (ClientView { api_key: api_key@, api_url: api_url@ }),
    {
        Client { api_key: api_key.to_owned(), api_url: api_url.to_owned() }
    }

    /// The bearer credential of every request.
    pub fn api_key(&self) -> (r: &str)
        ensures
            r@ == self@.api_key,
    {
        self.api_key.as_str()
    }

    /// The endpoint of every request.
    pub fn api_url(&self) -> (r: &str)
        ensures
            r@ == self@.api_url,
    {
        self.api_url.as_str()
    }
}

/// A client for chat payloads: it posts to [`API_URL`].
pub struct ChatClient(Client);

impl View for ChatClient {
    type V = ClientView;

    closed spec fn view(&self) -> ClientView {
        self.0@
    }
}

impl ChatClient {
    pub fn new(api_key: &str) -> (r: ChatClient)
        ensures
            r@ == (ClientView { api_key: api_key@, api_url: API_URL@ }),
    {
        ChatClient(Client::new(api_key, API_URL))
    }

    /// The client that does the work.
    pub fn client(&self) -> (r: &Client)
        ensures
            r@ == self@,
    {
        &self.0
    }
}

} // verus!
