//! What the relay publishes about a transaction: the envelope, the event
//! kinds and the tags.

use crate::decimal::{decimal_digits, decimal_text};
use crate::hexcode::{hex_decode, hex_decoded, is_hex_encoding};
use crate::txdecode::{consensus_decoded, decode_transaction, TxSummary};
use vstd::prelude::*;
use vstd::string::*;

verus! {

/// Kind of the event by which a client submits a raw transaction.
pub const KIND_SUBMIT: u16 = 20010;

/// Kind of the event that answers a submission.
pub const KIND_SUBMIT_RESPONSE: u16 = 20011;

/// Kind of the event by which relays broadcast a transaction.
pub const KIND_BROADCAST: u16 = 20012;

/// Kind reserved for a transaction lookup request.
pub const KIND_LOOKUP_REQUEST: u16 = 20013;

/// Kind reserved for the answer to a lookup.
pub const KIND_LOOKUP_RESPONSE: u16 = 20014;

/// Whether a kind is in the ephemeral range, which a Nostr relay need not
/// store.
pub fn is_ephemeral(kind: u16) -> (yes: bool)
    ensures
        yes == (20000 <= kind <= 29999),
{
    20000 <= kind && kind <= 29999
}

/// The payload of a transaction broadcast.
#[derive(Debug, Clone)]
pub struct TransactionEnvelope {
    /// The transaction id, in hex.
    pub txid: String,
    /// The raw transaction, in hex.
    pub hex: String,
    /// The size of the raw transaction in bytes.
    pub size: usize,
    /// The transaction's version number.
    pub version: i32,
    /// The number of inputs.
    pub inputs: usize,
    /// The number of outputs.
    pub outputs: usize,
}

/// A `TransactionEnvelope` over mathematical values.
pub struct EnvelopeFacts {
    pub txid: Seq<char>,
    pub hex: Seq<char>,
    pub size: nat,
    pub version: i32,
    pub inputs: nat,
    pub outputs: nat,
}

impl View for TransactionEnvelope {
    type V = EnvelopeFacts;

    open spec fn view(&self) -> EnvelopeFacts {
        EnvelopeFacts {
            txid: self.txid@,
            hex: self.hex@,
            size: self.size as nat,
            version: self.version,
            inputs: self.inputs as nat,
            outputs: self.outputs as nat,
        }
    }
}

/// The envelope for a transaction of the mempool: the id as the node gave
/// it, the raw hex, and what deserializing the raw bytes shows. There is
/// none where the hex does not decode or the bytes are no transaction.
pub open spec fn envelope_for(txid: Seq<char>, raw_hex: Seq<char>) -> Option<EnvelopeFacts> {
    if !is_hex_encoding(raw_hex) {
        None
    } else {
        match consensus_decoded(hex_decoded(raw_hex)) {
            None => None,
            Some(tx) => Some(
                EnvelopeFacts {
                    txid,
                    hex: raw_hex,
                    size: raw_hex.len() / 2,
                    version: tx.1,
                    inputs: tx.2,
                    outputs: tx.3,
                },
            ),
        }
    }
}

/// The optional facts of an optional envelope.
pub open spec fn envelope_view(envelope: Option<TransactionEnvelope>) -> Option<EnvelopeFacts> {
    match envelope {
        Some(e) => Some(e@),
        None => None,
    }
}

/// Builds the envelope for a transaction that the poller found in the
/// mempool, from its id and the raw hex that the node returned for it.
pub fn envelope(txid: &str, raw_hex: &str) -> (envelope: Option<TransactionEnvelope>)
    ensures
        envelope_view(envelope) == envelope_for(txid@, raw_hex@),
{
    let bytes = match hex_decode(raw_hex) {
        Some(bytes) => bytes,
        None => {
            return None;
        },
    };
    match decode_transaction(bytes.as_slice()) {
        Some(tx) => Some(envelope_of_decoded(txid, raw_hex, bytes.len(), &tx)),
        None => None,
    }
}

/// The envelope for a transaction that has been deserialized: the id as
/// given, the raw hex, its size in bytes, and the version and the counts
/// that deserializing showed.
pub fn envelope_of_decoded(txid: &str, raw_hex: &str, size: usize, tx: &TxSummary) -> (envelope:
    TransactionEnvelope)
    ensures
        envelope@ == (EnvelopeFacts {
            txid: txid@,
            hex: raw_hex@,
            size: size as nat,
            version: tx.version,
            inputs: tx.inputs as nat,
            outputs: tx.outputs as nat,
        }),
{
    TransactionEnvelope {
        txid: String::from_str(txid),
        hex: String::from_str(raw_hex),
        size,
        version: tx.version,
        inputs: tx.inputs,
        outputs: tx.outputs,
    }
}

/// The tags of a broadcast by the relay with the given id, as name and
/// value: the two hashtags, and the relay's id.
pub open spec fn broadcast_tag_list(relay_id: u16) -> Seq<(Seq<char>, Seq<char>)> {
    seq![
        ("t"@, "bitcoin"@),
        ("t"@, "transaction"@),
        ("relay_id"@, decimal_digits(relay_id as nat)),
    ]
}

/// The names and values of a list of tags.
pub open spec fn tag_texts(tags: Seq<(String, String)>) -> Seq<(Seq<char>, Seq<char>)> {
    Seq::new(tags.len(), |i: int| (tags[i].0@, tags[i].1@))
}

/// The tags that a broadcast by this relay carries.
pub fn broadcast_tags(relay_id: u16) -> (tags: Vec<(String, String)>)
    ensures
        tag_texts(tags@) == broadcast_tag_list(relay_id),
{
    let mut tags: Vec<(String, String)> = Vec::new();
    tags.push((String::from_str("t"), String::from_str("bitcoin")));
    tags.push((String::from_str("t"), String::from_str("transaction")));
    tags.push((String::from_str("relay_id"), decimal_text(relay_id as u64)));
    proof {
        assert(tag_texts(tags@) =~= broadcast_tag_list(relay_id));
    }
    tags
}

/// An event that is ready to be signed and sent.
#[derive(Debug, Clone)]
pub struct EventDraft {
    /// The event's kind.
    pub kind: u16,
    /// The event's tags, as name and value.
    pub tags: Vec<(String, String)>,
    /// The event's content.
    pub content: String,
}

/// The broadcast of a transaction by the relay with the given id: an event
/// of the broadcast kind with the relay's tags, whose content is the
/// envelope as a JSON document.
pub fn broadcast_draft(relay_id: u16, content: String) -> (draft: EventDraft)
    ensures
        draft.kind == KIND_BROADCAST,
        tag_texts(draft.tags@) == broadcast_tag_list(relay_id),
        draft.content@ == content@,
{
    EventDraft { kind: KIND_BROADCAST, tags: broadcast_tags(relay_id), content }
}

} // verus!
