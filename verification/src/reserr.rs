//! The error a request handler answers with.

use vstd::prelude::*;
use vstd::string::StringExecFns;

verus! {

/// Why a request was turned down: a fault of the server, or of what the
/// client sent.
#[derive(Debug, PartialEq, Eq)]
pub enum ResErr {
    InternalError(&'static str),
    BadClientData(&'static str),
    BadClientDataOwned(String),
}

impl ResErr {
    /// The text that is sent back to the client.
    pub open spec fn spec_message(&self) -> Seq<char> {
        match self {
            ResErr::InternalError(s) => s@,
            ResErr::BadClientData(s) => s@,
            ResErr::BadClientDataOwned(s) => s@,
        }
    }

    /// The HTTP status that goes with the error.
    pub open spec fn spec_status_code(&self) -> u16 {
        match self {
            ResErr::InternalError(_) => 500,
            ResErr::BadClientData(_) => 400,
            ResErr::BadClientDataOwned(_) => 400,
        }
    }

    /// The text that is sent back to the client.
    pub fn message(&self) -> (text: String)
        ensures
            text@ == self.spec_message(),
    {
        match self {
            ResErr::InternalError(s) => String::from_str(s),
            ResErr::BadClientData(s) => String::from_str(s),
            ResErr::BadClientDataOwned(s) => s.clone(),
        }
    }

    /// 500 for a fault of the server, 400 for bad client data.
    pub fn status_code(&self) -> (code: u16)
        ensures
            code == self.spec_status_code(),
            code == 500 <==> self is InternalError,
            code == 400 <==> !(self is InternalError),
    {
        match self {
            ResErr::InternalError(_) => 500,
            ResErr::BadClientData(_) => 400,
            ResErr::BadClientDataOwned(_) => 400,
        }
    }
}

} // verus!
