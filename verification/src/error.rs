//! The error type of the bot. Each failure of an outside service is held as
//! the description that service gave for it.
use vstd::prelude::*;
use crate::text::owned;

verus! {

/// A failure reported by the queue service.
#[derive(Clone, Debug, PartialEq, Eq)]
pub enum QueueError {
    /// The guild has no queue.
    NotFound(String),
    /// Any other failure, with its description.
    Other(String),
}

#[derive(Clone, Debug, PartialEq, Eq)]
pub enum Error {
    AddrParse(String),
    BorrowMut(String),
    Cache(String),
    Fmt(String),
    Hyper(String),
    Io(String),
    Lavalink(String),
    LavalinkHttpServerRequester(String),
    LavalinkQueueRequester(QueueError),
    NativeTls(String),
    /// An expected value was absent.
    Missing,
    ParseInt(String),
    Redis(String),
    SerdeJson(String),
    Serenity(String),
    SerenityHttp(String),
    Timer(String),
    TomlDe(String),
    Tungstenite(String),
}

pub type Result<T> = core::result::Result<T, Error>;

pub open spec fn queue_error_description(e: QueueError) -> Seq<char> {
    match e {
        QueueError::NotFound(d) => d@,
        QueueError::Other(d) => d@,
    }
}

/// The text that describes an error.
pub open spec fn error_description(e: Error) -> Seq<char> {
    match e {
        Error::AddrParse(d) => d@,
        Error::BorrowMut(d) => d@,
        Error::Cache(d) => d@,
        Error::Fmt(d) => d@,
        Error::Hyper(d) => d@,
        Error::Io(d) => d@,
        Error::Lavalink(d) => d@,
        Error::LavalinkHttpServerRequester(d) => d@,
        Error::LavalinkQueueRequester(q) => queue_error_description(q),
        Error::NativeTls(d) => d@,
        Error::Missing => "Option value not present"@,
        Error::ParseInt(d) => d@,
        Error::Redis(d) => d@,
        Error::SerdeJson(d) => d@,
        Error::Serenity(d) => d@,
        Error::SerenityHttp(d) => d@,
        Error::Timer(d) => d@,
        Error::TomlDe(d) => d@,
        Error::Tungstenite(d) => d@,
    }
}

impl Error {
    /// The description of the error, as its `Display` shows it.
    pub fn description(&self) -> (r: String)
        ensures
            r@ == error_description(*self),
    {
        match self {
            Error::AddrParse(d) => d.clone(),
            Error::BorrowMut(d) => d.clone(),
            Error::Cache(d) => d.clone(),
            Error::Fmt(d) => d.clone(),
            Error::Hyper(d) => d.clone(),
            Error::Io(d) => d.clone(),
            Error::Lavalink(d) => d.clone(),
            Error::LavalinkHttpServerRequester(d) => d.clone(),
            Error::LavalinkQueueRequester(q) => match q {
                QueueError::NotFound(d) => d.clone(),
                QueueError::Other(d) => d.clone(),
            },
            Error::NativeTls(d) => d.clone(),
            Error::Missing => owned("Option value not present"),
            Error::ParseInt(d) => d.clone(),
            Error::Redis(d) => d.clone(),
            Error::SerdeJson(d) => d.clone(),
            Error::Serenity(d) => d.clone(),
            Error::SerenityHttp(d) => d.clone(),
            Error::Timer(d) => d.clone(),
            Error::TomlDe(d) => d.clone(),
            Error::Tungstenite(d) => d.clone(),
        }
    }

    /// Whether the error is the queue service's "not found".
    pub fn is_queue_not_found(&self) -> (r: bool)
        ensures
            r == (*self matches Error::LavalinkQueueRequester(QueueError::NotFound(_))),
    {
        match self {
            Error::LavalinkQueueRequester(QueueError::NotFound(_)) => true,
            _ => false,
        }
    }
}

} // verus!
