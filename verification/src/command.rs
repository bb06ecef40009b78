//! The reply type of the first command framework, kept beside the current one.
use vstd::prelude::*;
use crate::error::Error;
use crate::text::owned;

verus! {

pub enum Response {
    Text(String),
}

pub type CommandResult = core::result::Result<Response, Error>;

impl Response {
    /// A plain text reply.
    pub fn text(content: &str) -> (r: CommandResult)
        ensures
            r matches Ok(Response::Text(s)) && s@ == content@,
    {
        Self::_text(owned(content))
    }

    pub fn _text(content: String) -> (r: CommandResult)
        ensures
            r matches Ok(Response::Text(s)) && s@ == content@,
    {
        Ok(Response::Text(content))
    }
}

} // verus!
