//! Reading a raw transaction: its canonical id and the few fields the relay
//! reports about it.

use bitcoin::consensus::deserialize;
use bitcoin::Transaction;
use vstd::prelude::*;

verus! {

/// What the relay reads from a deserialized transaction.
#[derive(Debug, Clone)]
pub struct TxSummary {
    /// The canonical transaction id, in hex.
    pub txid: String,
    /// The transaction's version number.
    pub version: i32,
    /// The number of inputs.
    pub inputs: usize,
    /// The number of outputs.
    pub outputs: usize,
}

/// The same summary over mathematical values.
pub struct TxFacts {
    pub txid: Seq<char>,
    pub version: i32,
    pub inputs: nat,
    pub outputs: nat,
}

impl View for TxSummary {
    type V = TxFacts;

    open spec fn view(&self) -> TxFacts {
        TxFacts {
            txid: self.txid@,
            version: self.version,
            inputs: self.inputs as nat,
            outputs: self.outputs as nat,
        }
    }
}

/// What consensus deserialization makes of the bytes: the transaction's id
/// (as hex text), version, input count and output count, or nothing where
/// the bytes are not exactly one transaction.
pub uninterp spec fn consensus_decoded(bytes: Seq<u8>) -> Option<(Seq<char>, i32, nat, nat)>;

/// The decoded transaction as facts.
pub open spec fn decoded_facts(bytes: Seq<u8>) -> Option<TxFacts> {
    match consensus_decoded(bytes) {
        Some(t) => Some(TxFacts { txid: t.0, version: t.1, inputs: t.2, outputs: t.3 }),
        None => None,
    }
}

/// `bitcoin::consensus::deserialize` to a `Transaction`, of which the id
/// (`Transaction::txid`, rendered as hex), the version and the two counts
/// are handed on. The result depends on the bytes alone.
#[verifier::external_body]
pub(crate) fn decode_transaction(bytes: &[u8]) -> (tx: Option<TxSummary>)
    ensures
        match tx {
            Some(t) => consensus_decoded(bytes@) == Some(
                (t.txid@, t.version, t.inputs as nat, t.outputs as nat),
            ),
            None => consensus_decoded(bytes@) is None,
        },
{
    match deserialize::<Transaction>(bytes) {
        Ok(tx) => Some(
            TxSummary {
                txid: tx.txid().to_string(),
                version: tx.version.0,
                inputs: tx.input.len(),
                outputs: tx.output.len(),
            },
        ),
        Err(_) => None,
    }
}

} // verus!
