//! The reply envelope, the error taxonomy, and the decision that turns what
//! came back from the transport into one typed outcome.

use vstd::prelude::*;
use vstd::string::*;

verus! {

/// The page of results inside a successful reply.
#[derive(Debug)]
pub struct DataContainer<E> {
    pub offset: u32,
    pub limit: u32,
    pub total: u32,
    pub count: u32,
    pub results: E,
}

/// A successful reply: status and attribution, and the page of results.
#[derive(Debug)]
pub struct DataWrapper<E> {
    /// The HTTP status code of the returned result.
    pub code: u32,
    pub status: Option<String>,
    pub copyright: Option<String>,
    pub attribution_text: Option<String>,
    pub attribution_html: Option<String>,
    pub etag: Option<String>,
    pub data: DataContainer<E>,
}

/// A fault reply of the upstream API.
#[derive(Debug)]
pub struct ErrorMessage {
    pub code: u32,
    pub message: String,
}

/// What a well-formed reply holds: results, or a fault.
#[derive(Debug)]
pub enum ResponseMessage<E> {
    Success(DataWrapper<E>),
    Error(ErrorMessage),
}

/// The fields of a reply body as they were found, each one possibly absent.
#[derive(Debug)]
pub struct RawEnvelope<E> {
    pub code: Option<u32>,
    pub status: Option<String>,
    pub copyright: Option<String>,
    pub attribution_text: Option<String>,
    pub attribution_html: Option<String>,
    pub etag: Option<String>,
    pub data: Option<DataContainer<E>>,
    pub message: Option<String>,
}

/// What the transport brought back for one call.
#[derive(Debug)]
pub enum Reply<E> {
    /// No response was obtained (connection, DNS or TLS failure).
    Unreachable(String),
    /// A response came, but its body is not an envelope's JSON.
    Unreadable(String),
    /// A response came, and these are the fields of its body.
    Body(RawEnvelope<E>),
}

/// A fault reported by the upstream API.
#[derive(Debug)]
pub struct Fault {
    pub code: u32,
    pub message: String,
}

/// A field-level error as the upstream API documents it.
#[derive(Debug)]
pub struct Error {
    pub code: String,
    pub field: String,
    pub resource: String,
}

/// Every way in which a call can fail.
#[derive(Debug)]
pub enum ApiError {
    /// The upstream API answered with a fault.
    Fault(Fault),
    /// No response was obtained.
    Transport(String),
    /// The response matched neither the success nor the fault shape.
    Parse(String),
    /// The base address and path do not make a URL.
    InvalidUrl,
}

/// The envelope that a reply body stands for: a success when it has a code
/// and data, else a fault when it has a code and a message, else none.
pub open spec fn envelope_of<E>(raw: RawEnvelope<E>) -> Option<ResponseMessage<E>> {
    if raw.code is Some && raw.data is Some {
        Some(
            ResponseMessage::Success(
                DataWrapper {
                    code: raw.code->Some_0,
                    status: raw.status,
                    copyright: raw.copyright,
                    attribution_text: raw.attribution_text,
                    attribution_html: raw.attribution_html,
                    etag: raw.etag,
                    data: raw.data->Some_0,
                },
            ),
        )
    } else if raw.code is Some && raw.message is Some {
        Some(ResponseMessage::Error(ErrorMessage { code: raw.code->Some_0, message: raw.message->Some_0 }))
    } else {
        None
    }
}

impl<E> ResponseMessage<E> {
    /// The results of a success; a fault becomes `ApiError::Fault`.
    pub fn into_result(self) -> (r: Result<DataWrapper<E>, ApiError>)
        ensures
            self matches ResponseMessage::Success(w) ==> r == Ok::<DataWrapper<E>, ApiError>(w),
            self matches ResponseMessage::Error(m) ==> r == Err::<DataWrapper<E>, ApiError>(
                ApiError::Fault(Fault { code: m.code, message: m.message }),
            ),
    {
        match self {
            ResponseMessage::Success(w) => Ok(w),
            ResponseMessage::Error(m) => Err(ApiError::Fault(Fault { code: m.code, message: m.message })),
        }
    }
}

/// Sends nothing itself: it decides what a reply means.
#[derive(Debug)]
pub struct RequestHandler {}

impl RequestHandler {
    /// Decodes a reply body: success first, then fault, else a parse failure.
    pub fn decode<E>(raw: RawEnvelope<E>) -> (r: Result<ResponseMessage<E>, ApiError>)
        ensures
            match envelope_of(raw) {
                Some(m) => r == Ok::<ResponseMessage<E>, ApiError>(m),
                None => r matches Err(ApiError::Parse(_)),
            },
    {
        let RawEnvelope { code, status, copyright, attribution_text, attribution_html, etag, data, message } = raw;
        match code {
            Some(code) => match data {
                Some(data) => Ok(
                    ResponseMessage::Success(
                        DataWrapper { code, status, copyright, attribution_text, attribution_html, etag, data },
                    ),
                ),
                None => match message {
                    Some(message) => Ok(ResponseMessage::Error(ErrorMessage { code, message })),
                    None => Err(ApiError::Parse(String::from_str("reply has a code but neither data nor message"))),
                },
            },
            None => Err(ApiError::Parse(String::from_str("reply has no code"))),
        }
    }

    /// The outcome of a call: a transport failure is reported as it is,
    /// without looking for a body; a body is decoded.
    pub fn settle<E>(reply: Reply<E>) -> (r: Result<ResponseMessage<E>, ApiError>)
        ensures
            reply matches Reply::Unreachable(m) ==> r == Err::<ResponseMessage<E>, ApiError>(ApiError::Transport(m)),
            reply matches Reply::Unreadable(m) ==> r == Err::<ResponseMessage<E>, ApiError>(ApiError::Parse(m)),
            reply matches Reply::Body(raw) ==> match envelope_of(raw) {
                Some(m) => r == Ok::<ResponseMessage<E>, ApiError>(m),
                None => r matches Err(ApiError::Parse(_)),
            },
    {
        match reply {
            Reply::Unreachable(m) => Err(ApiError::Transport(m)),
            Reply::Unreadable(m) => Err(ApiError::Parse(m)),
            Reply::Body(raw) => Self::decode(raw),
        }
    }
}

} // verus!
