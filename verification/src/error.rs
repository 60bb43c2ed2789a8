//! The ways in which a fetch fails.

use vstd::prelude::*;
use vstd::string::*;

use crate::text::{decimal, decimal_string};

verus! {

/// Why a fetch failed. Every failure ends the whole fetch: no rows are handed
/// out with it.
#[derive(Debug, Clone, PartialEq, Eq)]
pub enum Error {
    /// An answer came, but its body could not be read to the end. Holds the
    /// transport's account of it.
    Hyper(String),
    /// The request could not be carried out. Holds the transport's account of
    /// it.
    Client(String),
    /// The server answered with this status, a success status, but the body
    /// is not JSON in the shape of an envelope. Holds the decoder's account of
    /// it.
    Json { status: u16, account: String },
    /// The server answered with this status, which is not a success status.
    Http(u16),
    /// Anything else, in words.
    Unknown(String),
}

impl Error {
    /// A failure that is only described in words.
    pub fn new_unknown(message: &str) -> (error: Error)
        ensures
            error matches Error::Unknown(text) && text@ == message@,
    {
        Error::Unknown(message.to_owned())
    }

    /// What `message` returns: the account that the error holds, and the
    /// status, where it holds one, in decimal.
    pub open spec fn message_text(&self) -> Seq<char> {
        match self {
            Error::Hyper(account) => account@,
            Error::Client(account) => account@,
            Error::Json { status, account } => account@ + " (status "@ + decimal(*status as nat)
                + ")"@,
            Error::Http(status) => "status: "@ + decimal(*status as nat),
            Error::Unknown(account) => account@,
        }
    }

    /// The error in words.
    pub fn message(&self) -> (text: String)
        ensures
            text@ == self.message_text(),
    {
        match self {
            Error::Hyper(account) => account.clone(),
            Error::Client(account) => account.clone(),
            Error::Json { status, account } => {
                let status = decimal_string(*status as u64);
                account.clone().concat(" (status ").concat(status.as_str()).concat(")")
            },
            Error::Http(status) => {
                let status = decimal_string(*status as u64);
                "status: ".to_owned().concat(status.as_str())
            },
            Error::Unknown(account) => account.clone(),
        }
    }
}

} // verus!
