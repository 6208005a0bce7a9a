//! The node's JSON-RPC surface as the relay uses it: the methods it calls,
//! and how it reads what comes back.

use crate::text::{contains_phrase, phrase_in};
use vstd::prelude::*;
use vstd::string::*;

verus! {

/// The methods of the node that the relay calls.
#[derive(Debug, Clone, Copy, PartialEq, Eq, Structural)]
pub enum RpcMethod {
    /// Submit a raw transaction.
    SendRawTransaction,
    /// List the ids of the transactions in the mempool.
    GetRawMempool,
    /// Fetch a raw transaction by id.
    GetRawTransaction,
    /// Ask whether a raw transaction would enter the mempool.
    TestMempoolAccept,
}

/// The name of a method on the wire.
pub open spec fn method_name(method: RpcMethod) -> Seq<char> {
    match method {
        RpcMethod::SendRawTransaction => "sendrawtransaction"@,
        RpcMethod::GetRawMempool => "getrawmempool"@,
        RpcMethod::GetRawTransaction => "getrawtransaction"@,
        RpcMethod::TestMempoolAccept => "testmempoolaccept"@,
    }
}

impl RpcMethod {
    /// The name of the method on the wire.
    pub fn name(&self) -> (name: &'static str)
        ensures
            name@ == method_name(*self),
    {
        match self {
            RpcMethod::SendRawTransaction => "sendrawtransaction",
            RpcMethod::GetRawMempool => "getrawmempool",
            RpcMethod::GetRawTransaction => "getrawtransaction",
            RpcMethod::TestMempoolAccept => "testmempoolaccept",
        }
    }
}

/// A JSON-RPC response as far as the relay reads it.
#[derive(Debug, Clone)]
pub struct RpcReply {
    /// The `error` field rendered as JSON text, where it is present and not
    /// null.
    pub error: Option<String>,
    /// The `result` field, where it is present.
    pub result: Option<String>,
}

/// Why a call to the node gave no result.
#[derive(Debug)]
pub enum RpcError {
    /// The request did not get through, or no usable response came back.
    Failure(String),
    /// The node answered with an error body.
    Rejection(String),
}

/// An `RpcError` over mathematical values.
pub enum RpcFault {
    Failure(Seq<char>),
    Rejection(Seq<char>),
}

impl View for RpcError {
    type V = RpcFault;

    open spec fn view(&self) -> RpcFault {
        match self {
            RpcError::Failure(m) => RpcFault::Failure(m@),
            RpcError::Rejection(m) => RpcFault::Rejection(m@),
        }
    }
}

/// A call's result over mathematical values.
pub open spec fn call_view(r: Result<String, RpcError>) -> Result<Seq<char>, RpcFault> {
    match r {
        Ok(value) => Ok(value@),
        Err(e) => Err(e@),
    }
}

/// What a response means: an error body is a rejection that quotes it; a
/// response with neither error nor result is a failure.
pub open spec fn reply_outcome(reply: RpcReply) -> Result<Seq<char>, RpcFault> {
    match reply.error {
        Some(e) => Err(RpcFault::Rejection("RPC error: "@ + e@)),
        None => match reply.result {
            Some(value) => Ok(value@),
            None => Err(RpcFault::Failure("No result in RPC response"@)),
        },
    }
}

/// Reads a JSON-RPC response.
pub fn read_reply(reply: RpcReply) -> (outcome: Result<String, RpcError>)
    ensures
        call_view(outcome) == reply_outcome(reply),
{
    match reply.error {
        Some(error) => {
            let mut text = String::from_str("RPC error: ");
            text.append(error.as_str());
            Err(RpcError::Rejection(text))
        },
        None => match reply.result {
            Some(value) => Ok(value),
            None => Err(RpcError::Failure(String::from_str("No result in RPC response"))),
        },
    }
}

/// How a submission to the node ended, as the relay sees it.
#[derive(Debug, Clone, Copy, PartialEq, Eq, Structural)]
pub enum SubmitOutcome {
    /// The node took the transaction.
    Accepted,
    /// The node had the transaction already: as good as accepted.
    AlreadyKnown,
    /// The node refused the transaction, or could not be reached.
    Failed,
}

/// The error text says that the node has the transaction already.
pub open spec fn says_already_known(message: Seq<char>) -> bool {
    phrase_in(message, "already in mempool"@) || phrase_in(message, "already exists"@)
}

/// The text of an error, whichever kind it is.
pub open spec fn fault_text(e: RpcFault) -> Seq<char> {
    match e {
        RpcFault::Failure(m) => m,
        RpcFault::Rejection(m) => m,
    }
}

/// What a submission's outcome counts as.
pub open spec fn submit_class(outcome: Result<Seq<char>, RpcFault>) -> SubmitOutcome {
    match outcome {
        Ok(_) => SubmitOutcome::Accepted,
        Err(e) => if says_already_known(fault_text(e)) {
            SubmitOutcome::AlreadyKnown
        } else {
            SubmitOutcome::Failed
        },
    }
}

/// Classifies the outcome of `sendrawtransaction`: an error that says the
/// node has the transaction already counts as success.
pub fn classify_submit(outcome: &Result<String, RpcError>) -> (class: SubmitOutcome)
    ensures
        class == submit_class(call_view(*outcome)),
{
    match outcome {
        Ok(_) => SubmitOutcome::Accepted,
        Err(e) => {
            let message: &str = match e {
                RpcError::Failure(m) => m.as_str(),
                RpcError::Rejection(m) => m.as_str(),
            };
            if contains_phrase(message, "already in mempool") || contains_phrase(
                message,
                "already exists",
            ) {
                SubmitOutcome::AlreadyKnown
            } else {
                SubmitOutcome::Failed
            }
        },
    }
}

impl SubmitOutcome {
    /// Whether the transaction is in the node's hands after the call.
    pub fn is_success(&self) -> (yes: bool)
        ensures
            yes == (*self != SubmitOutcome::Failed),
    {
        match self {
            SubmitOutcome::Failed => false,
            _ => true,
        }
    }
}

} // verus!
