//! The origin tracker: the set of transaction ids that reached this relay
//! over the Nostr bus. The mempool poller consults it to suppress echoes.

use vstd::hash_set::StringHashSet;
use vstd::prelude::*;

verus! {

/// The transaction ids seen arriving from the bus since the relay started.
/// The set only grows.
pub struct OriginTracker {
    remote: StringHashSet,
}

impl View for OriginTracker {
    type V = Set<Seq<char>>;

    closed spec fn view(&self) -> Set<Seq<char>> {
        self.remote@
    }
}

impl OriginTracker {
    /// A tracker that has seen nothing yet.
    pub fn new() -> (tracker: OriginTracker)
        ensures
            tracker@ == Set::<Seq<char>>::empty(),
    {
        OriginTracker { remote: StringHashSet::new() }
    }

    /// Records that the transaction arrived from the bus. To be called
    /// before the transaction is handed to the node.
    pub fn mark_remote(&mut self, txid: &str)
        ensures
            final(self)@ == old(self)@.insert(txid@),
    {
        let key = txid.to_owned();
        let _ = self.remote.insert(key);
    }

    /// Whether the transaction arrived from the bus.
    pub fn is_remote(&self, txid: &str) -> (remote: bool)
        ensures
            remote == self@.contains(txid@),
    {
        self.remote.contains(txid)
    }
}

/// Marking never forgets: whatever was remote before a mark is remote after
/// it, and so is the id just marked.
pub proof fn marks_accumulate(before: Set<Seq<char>>, txid: Seq<char>, other: Seq<char>)
    ensures
        before.insert(txid).contains(txid),
        before.contains(other) ==> before.insert(txid).contains(other),
{
}

} // verus!
