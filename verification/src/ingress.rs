//! The Nostr ingress handler: what to do with an event that the
//! subscription delivered.

use crate::decimal::{decimal_digits, decimal_digits_distinguish, decimal_text};
use crate::envelope::{broadcast_tag_list, tag_texts};
use crate::origin::OriginTracker;
use serde_json::Value;
use vstd::prelude::*;
use vstd::string::*;

verus! {

/// The string under a key of a JSON document: what `serde_json` finds
/// there, or nothing where the text is no JSON, the document has no such
/// key, or the value under it is no string.
pub uninterp spec fn json_text_field(document: Seq<char>, key: Seq<char>) -> Option<Seq<char>>;

/// `serde_json::from_str` to a `Value`, then `Value::get` with the key; a
/// string found there is handed on. The result depends on the two texts
/// alone.
#[verifier::external_body]
pub(crate) fn read_text_field(document: &str, key: &str) -> (found: Option<String>)
    ensures
        match found {
            Some(text) => json_text_field(document@, key@) == Some(text@),
            None => json_text_field(document@, key@) is None,
        },
{
    match serde_json::from_str::<Value>(document) {
        Ok(value) => match value.get(key) {
            Some(Value::String(text)) => Some(text.clone()),
            _ => None,
        },
        Err(_) => None,
    }
}

/// What the handler does with an event.
#[derive(Debug)]
pub enum IngressAction {
    /// The event is this relay's own: nothing is done.
    DropOwn,
    /// The content lacks the transaction or its id: nothing is done.
    DropMalformed,
    /// The transaction is to be submitted to the node. Its id has been
    /// marked as remote.
    Submit { txid: String, hex: String },
}

/// An `IngressAction` over mathematical values.
pub enum IngressDecision {
    DropOwn,
    DropMalformed,
    Submit { txid: Seq<char>, hex: Seq<char> },
}

impl View for IngressAction {
    type V = IngressDecision;

    open spec fn view(&self) -> IngressDecision {
        match self {
            IngressAction::DropOwn => IngressDecision::DropOwn,
            IngressAction::DropMalformed => IngressDecision::DropMalformed,
            IngressAction::Submit { txid, hex } => IngressDecision::Submit { txid: txid@, hex: hex@ },
        }
    }
}

/// The event carries this relay's id in one of its `relay_id` tags. A tag
/// is given as its name and its value.
pub open spec fn is_own_event(relay_id: u16, tags: Seq<(Seq<char>, Seq<char>)>) -> bool {
    exists|i: int|
        0 <= i < tags.len() && (#[trigger] tags[i]).0 == "relay_id"@ && tags[i].1
            == decimal_digits(relay_id as nat)
}

/// The decision on an event, from its tags and the two fields of its
/// content.
pub open spec fn ingress_decision(
    relay_id: u16,
    tags: Seq<(Seq<char>, Seq<char>)>,
    txid: Option<Seq<char>>,
    hex: Option<Seq<char>>,
) -> IngressDecision {
    if is_own_event(relay_id, tags) {
        IngressDecision::DropOwn
    } else if txid is None || hex is None {
        IngressDecision::DropMalformed
    } else {
        IngressDecision::Submit { txid: txid->Some_0, hex: hex->Some_0 }
    }
}

/// The origin set after a decision: the id of a transaction that is to be
/// submitted joins it; a dropped event leaves it as it was.
pub open spec fn origins_after(before: Set<Seq<char>>, decision: IngressDecision) -> Set<
    Seq<char>,
> {
    match decision {
        IngressDecision::Submit { txid, hex } => before.insert(txid),
        _ => before,
    }
}

/// The optional text of an optional string.
pub open spec fn text_of(field: Option<String>) -> Option<Seq<char>> {
    match field {
        Some(text) => Some(text@),
        None => None,
    }
}

/// Whether one of the tags is a `relay_id` tag with this relay's id.
pub fn carries_own_id(relay_id: u16, tags: &Vec<(String, String)>) -> (own: bool)
    ensures
        own == is_own_event(relay_id, tag_texts(tags@)),
{
    let name = String::from_str("relay_id");
    let own_id = decimal_text(relay_id as u64);
    let mut i: usize = 0;
    while i < tags.len()
        invariant
            i <= tags.len(),
            name@ == "relay_id"@,
            own_id@ == decimal_digits(relay_id as nat),
            forall|j: int|
                0 <= j < i ==> !((#[trigger] tag_texts(tags@)[j]).0 == name@ && tag_texts(
                    tags@,
                )[j].1 == own_id@),
        decreases tags.len() - i,
    {
        if tags[i].0 == name && tags[i].1 == own_id {
            assert(tag_texts(tags@)[i as int].0 == name@ && tag_texts(tags@)[i as int].1
                == own_id@);
            return true;
        }
        assert(tag_texts(tags@)[i as int] == (tags@[i as int].0@, tags@[i as int].1@));
        i = i + 1;
    }
    false
}

/// Decides on an event whose content has been read. An event of this
/// relay's own is dropped with no effect; so is one without the two
/// fields. Otherwise the transaction id is marked as remote, and the
/// transaction is handed back for submission.
pub fn decide_ingress(
    relay_id: u16,
    tags: &Vec<(String, String)>,
    txid: Option<String>,
    hex: Option<String>,
    origins: &mut OriginTracker,
) -> (action: IngressAction)
    ensures
        action@ == ingress_decision(relay_id, tag_texts(tags@), text_of(txid), text_of(hex)),
        final(origins)@ == origins_after(old(origins)@, action@),
        is_own_event(relay_id, tag_texts(tags@)) ==> action@ == IngressDecision::DropOwn
            && final(origins)@ == old(origins)@,
{
    if carries_own_id(relay_id, tags) {
        return IngressAction::DropOwn;
    }
    match (txid, hex) {
        (Some(txid), Some(hex)) => {
            origins.mark_remote(txid.as_str());
            IngressAction::Submit { txid, hex }
        },
        _ => IngressAction::DropMalformed,
    }
}

/// Handles one delivered event: `tags` are its tags, each as name and
/// value, and `content` is its content, a JSON document with the fields
/// `txid` and `hex`.
pub fn handle_event(
    relay_id: u16,
    tags: &Vec<(String, String)>,
    content: &str,
    origins: &mut OriginTracker,
) -> (action: IngressAction)
    ensures
        action@ == ingress_decision(
            relay_id,
            tag_texts(tags@),
            json_text_field(content@, "txid"@),
            json_text_field(content@, "hex"@),
        ),
        final(origins)@ == origins_after(old(origins)@, action@),
        is_own_event(relay_id, tag_texts(tags@)) ==> action@ == IngressDecision::DropOwn
            && final(origins)@ == old(origins)@,
{
    if carries_own_id(relay_id, tags) {
        return IngressAction::DropOwn;
    }
    let txid = read_text_field(content, "txid");
    let hex = read_text_field(content, "hex");
    decide_ingress(relay_id, tags, txid, hex, origins)
}

/// A transaction that was handed back for submission is in the origin set
/// from then on, so that no tick of the poller announces it.
pub proof fn submitted_is_marked_remote(
    relay_id: u16,
    tags: Seq<(Seq<char>, Seq<char>)>,
    txid: Option<Seq<char>>,
    hex: Option<Seq<char>>,
    before: Set<Seq<char>>,
)
    requires
        ingress_decision(relay_id, tags, txid, hex) is Submit,
    ensures
        txid is Some,
        origins_after(before, ingress_decision(relay_id, tags, txid, hex)).contains(
            txid->Some_0,
        ),
        before.subset_of(origins_after(before, ingress_decision(relay_id, tags, txid, hex))),
{
}

/// A broadcast is taken for this relay's own exactly where a relay with
/// the same id made it: a relay drops what it published itself, and nothing
/// that a relay with another id published.
pub proof fn own_means_same_id(own: u16, sender: u16)
    ensures
        is_own_event(own, broadcast_tag_list(sender)) <==> own == sender,
{
    let tags = broadcast_tag_list(sender);
    reveal_strlit("t");
    reveal_strlit("relay_id");
    assert("t"@ != "relay_id"@) by {
        assert("t"@.len() != "relay_id"@.len());
    }
    if own == sender {
        assert(tags[2].0 == "relay_id"@ && tags[2].1 == decimal_digits(own as nat));
    }
    if is_own_event(own, tags) {
        let i = choose|i: int|
            0 <= i < tags.len() && (#[trigger] tags[i]).0 == "relay_id"@ && tags[i].1
                == decimal_digits(own as nat);
        assert(i == 2);
        decimal_digits_distinguish(own as nat, sender as nat);
    }
}

} // verus!
