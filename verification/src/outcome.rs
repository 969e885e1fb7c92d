//! What the caller reports back after an outside operation, and the ways in
//! which the identification can fail.

use crate::text::option_text;
use vstd::prelude::*;

verus! {

/// The outcome of one outside operation: a system command that was run, or
/// a request that was sent to a remote service.
#[derive(Debug, PartialEq, Eq)]
pub enum Outcome {
    /// The command could not be started, or the request got no response.
    Unavailable,
    /// The command ran; `success` tells whether it exited successfully, and
    /// `output` is what it wrote to its standard output.
    Exited { success: bool, output: String },
    /// The service responded with the status code `status`; `body` is the
    /// text of the response, where the caller read it.
    Responded { status: u16, body: Option<String> },
}

/// An outcome as a mathematical value.
pub enum OutcomeView {
    Unavailable,
    Exited { success: bool, output: Seq<char> },
    Responded { status: u16, body: Option<Seq<char>> },
}

impl View for Outcome {
    type V = OutcomeView;

    open spec fn view(&self) -> OutcomeView {
        match self {
            Outcome::Unavailable => OutcomeView::Unavailable,
            Outcome::Exited { success, output } => OutcomeView::Exited {
                success: *success,
                output: output@,
            },
            Outcome::Responded { status, body } => OutcomeView::Responded {
                status: *status,
                body: option_text(*body),
            },
        }
    }
}

/// A failure that ends the identification.
#[derive(Clone, Copy, Debug, PartialEq, Eq, Structural)]
pub enum Failure {
    /// The routing table names no default gateway.
    GatewayNotFound,
    /// The neighbor cache resolves no hardware address for the gateway.
    HardwareAddressNotFound,
}

impl Failure {
    /// The message that describes the failure.
    pub open spec fn message_text(self) -> Seq<char> {
        match self {
            Failure::GatewayNotFound => "Failed to find the default gateway"@,
            Failure::HardwareAddressNotFound => "Failed to get the MAC of the router"@,
        }
    }

    /// The message that describes the failure.
    pub fn message(&self) -> (s: String)
        ensures
            s@ == self.message_text(),
    {
        match self {
            Failure::GatewayNotFound => String::from_str("Failed to find the default gateway"),
            Failure::HardwareAddressNotFound => String::from_str(
                "Failed to get the MAC of the router",
            ),
        }
    }
}

/// The characters of a string result.
pub open spec fn result_text(r: Result<String, Failure>) -> Result<Seq<char>, Failure> {
    match r {
        Ok(s) => Ok(s@),
        Err(failure) => Err(failure),
    }
}

} // verus!
