//! The ways a payment run can fail on a reply, and the message for each.
use vstd::prelude::*;
use crate::text::{IntErrorKind, int_error_text};

verus! {

/// A failure found in a reply, or a wait that ran out of attempts.
#[derive(Debug)]
pub enum FlowError {
    /// `listwallets` did not answer with an array.
    WalletsNotArray,
    /// The reply to `reply` lacks the item `field`.
    MissingField { reply: String, field: String },
    /// The channel with `peer` never reached `CHANNELD_NORMAL`.
    ChannelNotNormal { peer: String },
    /// The routing node never reported a settled forward.
    NoSettledForward,
    /// The Lightning nodes never caught up with the chain.
    NodesNotSynced,
    /// The node `node` never saw a confirmed funding output.
    FundingNotConfirmed { node: String },
    /// The payer never learnt a route to `payee`.
    NoRoute { payee: String },
    /// A reply or an output that should be JSON is not; `message` says why.
    NotJson { message: String },
    /// The chain height is not a decimal `u64`.
    NotANumber { kind: IntErrorKind },
    /// The reply from `url` is not JSON.
    Decode { url: String },
    /// The run was told of something it did not wait for.
    OutOfOrder,
}

/// The message of each failure.
pub open spec fn message_spec(e: FlowError) -> Seq<char> {
    match e {
        FlowError::WalletsNotArray => "listwallets did not return an array"@,
        FlowError::MissingField { reply, field } => reply@ + " response missing "@ + field@,
        FlowError::ChannelNotNormal { peer } => "channel with peer "@ + peer@
            + " did not reach CHANNELD_NORMAL"@,
        FlowError::NoSettledForward => "Bob did not report a settled forward for the payment"@,
        FlowError::NodesNotSynced => "Lightning nodes did not sync to bitcoind"@,
        FlowError::FundingNotConfirmed { node } => node@ + " did not see confirmed funding output"@,
        FlowError::NoRoute { payee } => "Alice did not learn a route to "@ + payee@,
        FlowError::NotJson { message } => message@,
        FlowError::NotANumber { kind } => int_error_text(kind),
        FlowError::Decode { url } => "error decoding response body for url ("@ + url@ + ")"@,
        FlowError::OutOfOrder => "the run was told of something it did not wait for"@,
    }
}

impl FlowError {
    /// The message that describes the failure.
    pub fn message(&self) -> (res: String)
        ensures
            res@ == message_spec(*self),
    {
        match self {
            FlowError::WalletsNotArray => String::from_str("listwallets did not return an array"),
            FlowError::MissingField { reply, field } => reply.clone().concat(
                " response missing ",
            ).concat(field.as_str()),
            FlowError::ChannelNotNormal { peer } => String::from_str("channel with peer ").concat(
                peer.as_str(),
            ).concat(" did not reach CHANNELD_NORMAL"),
            FlowError::NoSettledForward => String::from_str(
                "Bob did not report a settled forward for the payment",
            ),
            FlowError::NodesNotSynced => String::from_str("Lightning nodes did not sync to bitcoind"),
            FlowError::FundingNotConfirmed { node } => node.clone().concat(
                " did not see confirmed funding output",
            ),
            FlowError::NoRoute { payee } => String::from_str("Alice did not learn a route to ").concat(
                payee.as_str(),
            ),
            FlowError::NotJson { message } => message.clone(),
            FlowError::NotANumber { kind } => String::from_str(kind.description()),
            FlowError::Decode { url } => String::from_str("error decoding response body for url (").concat(
                url.as_str(),
            ).concat(")"),
            FlowError::OutOfOrder => String::from_str("the run was told of something it did not wait for"),
        }
    }
}

} // verus!
